//! Which failures end the server and which end one connection.
use crate::error::{setup_failure, tagged_spec, Error, ErrorKind};
use crate::incoming::{consumed, routed, upgraded_item, Routed};
use crate::service::{assembled, ErasedService, Intercepted, Svc};
use vstd::prelude::*;

verus! {

/// Only the steps of the start-up fail fatally. Whatever fails once the
/// server accepts connections (an accept, a handshake, the factory, the
/// user's service) is a failure of one connection: its error is not fatal,
/// and the consumer of the incoming streams never stops over it.
pub proof fn lemma_only_setup_failures_are_fatal<C, T, S, B, F, R, E, X>(
    open: bool,
    tls: bool,
    accepted: Option<Result<C, E>>,
    handshake: Result<T, E>,
    interceptor: Option<F>,
    made: Result<S, E>,
    erase: X,
    service: Result<ErasedService<S, Intercepted<B, F>>, Error<E>>,
    ready: Result<(), E>,
    response: Result<R, E>,
    source: E,
) where X: FnOnce(Svc<S>) -> B
    requires
        assembled(interceptor, made, erase, service),
    ensures
        setup_failure(source).kind.fatal(),
        routed::<C, T, E>(open, tls, accepted) matches Routed::Yield(Err(error))
            ==> !error.kind.fatal(),
        upgraded_item::<C, T, E>(handshake) matches Err(error) ==> !error.kind.fatal(),
        routed::<C, T, E>(open, tls, accepted) matches Routed::Yield(item) ==> !(consumed(
            item,
        ) is Stop),
        !(consumed(upgraded_item::<C, T, E>(handshake)) is Stop),
        service matches Err(error) ==> !error.kind.fatal(),
        tagged_spec(ErrorKind::Factory, ready) matches Err(error) ==> !error.kind.fatal(),
        tagged_spec(ErrorKind::Service, ready) matches Err(error) ==> !error.kind.fatal(),
        tagged_spec(ErrorKind::Service, response) matches Err(error) ==> !error.kind.fatal(),
{
}

} // verus!
