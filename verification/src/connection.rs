use vstd::prelude::*;
use crate::error::BoundaryError;
use crate::error::client_not_found_msg;

verus! {

/// The connection handle: the single source of truth for "do we have a
/// live client". It owns at most one native client at a time; attaching a
/// new one drops the previous one. The native client itself is an
/// external collaborator, so the handle is generic over it.
pub struct FluvioJS<C> {
    inner: Option<C>,
}

/// The state a handle is left in by `set_client`: exactly the given
/// client attached, whatever was attached before.
pub closed spec fn spec_attach<C>(handle: FluvioJS<C>, client: C) -> FluvioJS<C> {
    FluvioJS { inner: Some(client) }
}

impl<C> FluvioJS<C> {
    /// Whether a native client is currently attached.
    pub closed spec fn attached(self) -> bool {
        self.inner is Some
    }

    /// The attached native client.
    pub closed spec fn client_view(self) -> C
        recommends
            self.attached(),
    {
        self.inner->Some_0
    }

    /// A fresh handle is unattached: every capability request on it fails
    /// until a client crosses the boundary into it.
    pub fn new() -> (r: Self)
        ensures
            !r.attached(),
    {
        FluvioJS { inner: None }
    }

    /// A handle constructed directly around a live client: the state the
    /// construction path hands to the host once a connection exists.
    pub fn from_client(client: C) -> (r: Self)
        ensures
            r.attached(),
            r.client_view() == client,
    {
        FluvioJS { inner: Some(client) }
    }

    /// Attaches a native client, unconditionally replacing any client
    /// attached before; the previous one is dropped and never reachable
    /// again.
    pub fn set_client(&mut self, client: C)
        ensures
            *final(self) == spec_attach(*old(self), client),
            final(self).attached(),
            final(self).client_view() == client,
    {
        self.inner = Some(client);
    }

    /// The gating primitive every capability factory passes through:
    /// temporary access to the attached client, or the fixed
    /// absent-client error. Absence is a caller error, never a transient
    /// condition, so there is no retry and no reconnection here.
    pub fn client(&self) -> (r: Result<&C, BoundaryError>)
        ensures
            r is Ok <==> self.attached(),
            r is Ok ==> *r->Ok_0 == self.client_view(),
            r is Err ==> r->Err_0@ == client_not_found_msg(),
    {
        match &self.inner {
            Some(client) => Ok(client),
            None => Err(BoundaryError::client_not_found()),
        }
    }
}

/// Law: attaching a client readies the handle — afterwards it is
/// attached and holds exactly the client that was handed in.
pub proof fn lemma_attach_readies_handle<C>(handle: FluvioJS<C>, client: C)
    ensures
        spec_attach(handle, client).attached(),
        spec_attach(handle, client).client_view() == client,
{
}

/// Law: attaching twice leaves exactly the second client attached; the
/// state is the same as if the first attach had never happened, so the
/// first client is never reachable afterwards.
pub proof fn lemma_attach_replaces_previous<C>(handle: FluvioJS<C>, first: C, second: C)
    ensures
        spec_attach(spec_attach(handle, first), second) == spec_attach(handle, second),
        spec_attach(spec_attach(handle, first), second).client_view() == second,
{
}

} // verus!
