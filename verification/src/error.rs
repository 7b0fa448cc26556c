use vstd::prelude::*;
use vstd::string::StringExecFns;

verus! {

/// The message reported whenever a capability is requested from a handle
/// with no attached client. Host code pattern-matches on this exact text,
/// so it is part of the contract.
pub open spec fn client_not_found_msg() -> Seq<char> {
    "client not found"@
}

/// The single error representation that crosses the host boundary.
/// It carries a human-readable message and nothing else: callers can
/// branch only on message content, never on a structured kind.
#[derive(Debug)]
pub struct BoundaryError {
    message: String,
}

impl View for BoundaryError {
    type V = Seq<char>;

    closed spec fn view(&self) -> Seq<char> {
        self.message@
    }
}

impl BoundaryError {
    /// Wraps a rendered failure message as a boundary error.
    pub fn new(message: String) -> (r: Self)
        ensures
            r@ == message@,
    {
        BoundaryError { message }
    }

    /// The error raised by every capability factory when no client is
    /// attached.
    pub fn client_not_found() -> (r: Self)
        ensures
            r@ == client_not_found_msg(),
    {
        BoundaryError { message: String::from_str("client not found") }
    }

    /// The message carried across the boundary.
    pub fn message(&self) -> (r: &String)
        ensures
            r@ == self@,
    {
        &self.message
    }
}

} // verus!
