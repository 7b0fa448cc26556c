use vstd::prelude::*;
use crate::config::ConfigInput;
use crate::config::ProducerConfig;
use crate::config::spec_translate;
use crate::config::translate_config;
use crate::connection::FluvioJS;
use crate::error::BoundaryError;
use crate::error::client_not_found_msg;

verus! {

/// Wrapper around a native admin capability. Ownership of the capability
/// is transferred fully to the wrapper; it keeps no reference back to the
/// connection handle.
#[derive(Debug)]
pub struct AdminWrapper<A> {
    cap: A,
}

/// Wrapper around a native partition-consumer capability.
#[derive(Debug)]
pub struct ConsumerWrapper<K> {
    cap: K,
}

/// Wrapper around a native producer capability.
#[derive(Debug)]
pub struct ProducerWrapper<P> {
    cap: P,
}

/// The wrapper that wrapping an admin capability constructs.
pub closed spec fn spec_wrap_admin<A>(cap: A) -> AdminWrapper<A> {
    AdminWrapper { cap }
}

/// The wrapper that wrapping a consumer capability constructs.
pub closed spec fn spec_wrap_consumer<K>(cap: K) -> ConsumerWrapper<K> {
    ConsumerWrapper { cap }
}

/// The wrapper that wrapping a producer capability constructs.
pub closed spec fn spec_wrap_producer<P>(cap: P) -> ProducerWrapper<P> {
    ProducerWrapper { cap }
}

impl<A> AdminWrapper<A> {
    /// The native capability this wrapper stands for.
    pub closed spec fn cap_view(self) -> A {
        self.cap
    }

    /// Completes `admin`: the native admin call hands back a capability
    /// unconditionally, so wrapping it cannot fail.
    pub fn wrap(cap: A) -> (r: Self)
        ensures
            r == spec_wrap_admin(cap),
            r.cap_view() == cap,
    {
        AdminWrapper { cap }
    }

    /// Surrenders the underlying native capability: the same object the
    /// wrapper was constructed around.
    pub fn into_cap(self) -> (r: A)
        ensures
            r == self.cap_view(),
    {
        self.cap
    }
}

impl<K> ConsumerWrapper<K> {
    /// The native capability this wrapper stands for.
    pub closed spec fn cap_view(self) -> K {
        self.cap
    }

    /// Wraps a partition-consumer capability handed back by the native
    /// client.
    pub fn wrap(cap: K) -> (r: Self)
        ensures
            r == spec_wrap_consumer(cap),
            r.cap_view() == cap,
    {
        ConsumerWrapper { cap }
    }

    /// Surrenders the underlying native capability: the same object the
    /// wrapper was constructed around.
    pub fn into_cap(self) -> (r: K)
        ensures
            r == self.cap_view(),
    {
        self.cap
    }
}

impl<P> ProducerWrapper<P> {
    /// The native capability this wrapper stands for.
    pub closed spec fn cap_view(self) -> P {
        self.cap
    }

    /// Wraps a producer capability handed back by the native client.
    pub fn wrap(cap: P) -> (r: Self)
        ensures
            r == spec_wrap_producer(cap),
            r.cap_view() == cap,
    {
        ProducerWrapper { cap }
    }

    /// Surrenders the underlying native capability: the same object the
    /// wrapper was constructed around.
    pub fn into_cap(self) -> (r: P)
        ensures
            r == self.cap_view(),
    {
        self.cap
    }
}

/// A native outcome with its error rendered as message text, the shape
/// the error bridge reasons over.
pub open spec fn outcome_view<T>(outcome: Result<T, String>) -> Result<T, Seq<char>> {
    match outcome {
        Ok(cap) => Ok(cap),
        Err(message) => Err(message@),
    }
}

/// Completes `partition_consumer`: bridges the native call's outcome. A
/// capability is wrapped as-is; a native error's message is surfaced
/// unchanged as the boundary error.
pub fn consumer_from_outcome<K>(outcome: Result<K, String>) -> (r: Result<
    ConsumerWrapper<K>,
    BoundaryError,
>)
    ensures
        r is Ok <==> outcome is Ok,
        r is Ok ==> r->Ok_0 == spec_wrap_consumer(outcome->Ok_0),
        r is Err ==> r->Err_0@ == outcome_view(outcome)->Err_0,
{
    match outcome {
        Ok(cap) => Ok(ConsumerWrapper::wrap(cap)),
        Err(message) => Err(BoundaryError::new(message)),
    }
}

/// Completes `topic_producer` and `topic_producer_with_config`: bridges
/// the native call's outcome exactly as the consumer bridge does.
pub fn producer_from_outcome<P>(outcome: Result<P, String>) -> (r: Result<
    ProducerWrapper<P>,
    BoundaryError,
>)
    ensures
        r is Ok <==> outcome is Ok,
        r is Ok ==> r->Ok_0 == spec_wrap_producer(outcome->Ok_0),
        r is Err ==> r->Err_0@ == outcome_view(outcome)->Err_0,
{
    match outcome {
        Ok(cap) => Ok(ProducerWrapper::wrap(cap)),
        Err(message) => Err(BoundaryError::new(message)),
    }
}

impl<C> FluvioJS<C> {
    /// What `topic_producer_with_config` decides before any native call
    /// is made: an unattached handle is refused first, whatever the
    /// configuration object holds; only then is the configuration
    /// translated.
    pub open spec fn spec_producer_config_request(self, input: ConfigInput) -> Result<
        ProducerConfig,
        Seq<char>,
    > {
        if !self.attached() {
            Err(client_not_found_msg())
        } else {
            spec_translate(input)
        }
    }

    /// The synchronous half of `topic_producer_with_config`: gates on
    /// attachment, then translates the configuration object. Failing
    /// fast here means no native call is attempted for an unattached
    /// handle or a structurally invalid configuration.
    pub fn producer_config_request(&self, input: &ConfigInput) -> (r: Result<
        ProducerConfig,
        BoundaryError,
    >)
        ensures
            r is Ok <==> self.spec_producer_config_request(*input) is Ok,
            r is Ok ==> r->Ok_0 == self.spec_producer_config_request(*input)->Ok_0,
            r is Err ==> r->Err_0@ == self.spec_producer_config_request(*input)->Err_0,
    {
        match self.client() {
            Ok(_) => translate_config(input),
            Err(e) => Err(e),
        }
    }
}

/// Law: every capability request on an unattached handle is refused with
/// the fixed absent-client message, whatever the request carries — even a
/// configuration object that would itself fail validation.
pub proof fn lemma_unattached_factory_refused<C>(handle: FluvioJS<C>, input: ConfigInput)
    requires
        !handle.attached(),
    ensures
        handle.spec_producer_config_request(input) is Err,
        handle.spec_producer_config_request(input)->Err_0 == client_not_found_msg(),
{
}

/// Law: once a client is attached, the attachment check adds nothing —
/// a factory request succeeds or fails exactly as the configuration
/// translation (and, beyond it, the native call) does.
pub proof fn lemma_attached_factory_translates<C>(handle: FluvioJS<C>, input: ConfigInput)
    requires
        handle.attached(),
    ensures
        handle.spec_producer_config_request(input) == spec_translate(input),
{
}

/// Law: wrapping an admin capability and reading the wrapper back yields
/// the same native object — no duplication across the wrap.
pub proof fn lemma_admin_wrap_round_trip<A>(cap: A)
    ensures
        spec_wrap_admin(cap).cap_view() == cap,
{
}

/// Law: wrapping a consumer capability and reading the wrapper back
/// yields the same native object.
pub proof fn lemma_consumer_wrap_round_trip<K>(cap: K)
    ensures
        spec_wrap_consumer(cap).cap_view() == cap,
{
}

/// Law: wrapping a producer capability and reading the wrapper back
/// yields the same native object.
pub proof fn lemma_producer_wrap_round_trip<P>(cap: P)
    ensures
        spec_wrap_producer(cap).cap_view() == cap,
{
}

} // verus!
