//! The service of one connection: as the factory made it, or wrapped by the
//! interceptor where one is configured.
use crate::error::{tagged, tagged_spec, Error, ErrorKind};
use std::sync::Arc;
use vstd::prelude::*;

verus! {

/// `Arc::clone` of std: another handle to the same value, which is neither
/// copied nor changed.
#[verifier::external_body]
fn share<T>(handle: &Arc<T>) -> (shared: Arc<T>)
    ensures
        shared == *handle,
{
    Arc::clone(handle)
}

/// The interceptor: one function, shared by all connections, that stands
/// before each connection's service.
///
/// The function gets the connection's service and the request, and gives the
/// response: it may call the service, change what the service answered, or
/// answer by itself.
pub struct Interceptor<F> {
    f: Arc<F>,
}

/// A connection's service with the interceptor before it.
pub struct Intercepted<S, F> {
    inner: S,
    f: Arc<F>,
}

impl<F> Interceptor<F> {
    /// The shared function.
    pub closed spec fn function(&self) -> F {
        *self.f
    }

    /// The interceptor that runs `f`.
    pub fn new(f: F) -> (interceptor: Self)
        ensures
            interceptor.function() == f,
    {
        Interceptor { f: Arc::new(f) }
    }

    /// Puts the interceptor before the service `inner`. The function is shared
    /// with the new service, not copied.
    pub fn layer<S>(&self, inner: S) -> (service: Intercepted<S, F>)
        ensures
            service.inner() == inner,
            service.function() == self.function(),
    {
        Intercepted { inner, f: share(&self.f) }
    }
}

impl<S, F> Intercepted<S, F> {
    /// The service behind the interceptor.
    pub closed spec fn inner(&self) -> S {
        self.inner
    }

    /// The interceptor's function.
    pub closed spec fn function(&self) -> F {
        *self.f
    }

    /// Handles one request: the interceptor's function is called with the
    /// service behind it and the request, and what it gives is the response.
    /// The service is reached only through that call.
    pub fn call<Req, Out>(&mut self, request: Req) -> (response: Out) where
        F: Fn(&mut S, Req) -> Out,

        requires
            forall|service: &mut S|
                *service == old(self).inner() ==> call_requires(
                    old(self).function(),
                    (service, request),
                ),
        ensures
            final(self).function() == old(self).function(),
            exists|service: &mut S|
                {
                    &&& *service == old(self).inner()
                    &&& *final(service) == final(self).inner()
                    &&& call_ensures(old(self).function(), (service, request), response)
                },
    {
        (*self.f)(&mut self.inner, request)
    }

    /// The service behind the interceptor.
    pub fn get_ref(&self) -> (inner: &S)
        ensures
            *inner == self.inner(),
    {
        &self.inner
    }
}

/// A connection's service as the factory made it. What it reports is
/// converted into the unified error of kind `Service`.
#[derive(Debug, PartialEq, Eq)]
pub struct Svc<S> {
    pub inner: S,
}

impl<S> Svc<S> {
    /// Takes the service's answer to a readiness probe, once it is ready.
    pub fn poll_ready<E>(ready: Result<(), E>) -> (unified: Result<(), Error<E>>)
        ensures
            unified == tagged_spec(ErrorKind::Service, ready),
    {
        tagged(ErrorKind::Service, ready)
    }

    /// Takes what the service made of one request.
    pub fn call<R, E>(response: Result<R, E>) -> (unified: Result<R, Error<E>>)
        ensures
            unified == tagged_spec(ErrorKind::Service, response),
    {
        tagged(ErrorKind::Service, response)
    }
}

/// The service that is driven on a connection, in one type whatever the
/// configuration.
pub enum ErasedService<S, W> {
    /// The service as the factory made it: no interceptor is configured.
    Plain(Svc<S>),
    /// The service with the interceptor before it.
    Wrapped(W),
}

/// Whether `service` is what a connection gets, given the configured
/// interceptor's function and what the factory made for the connection.
///
/// A failure of the factory is the failure of that connection. Without an
/// interceptor the service is handed on as it was made. With one, the service
/// is first erased by `erase` and then put behind the interceptor.
pub open spec fn assembled<S, B, F, E, X: FnOnce(Svc<S>) -> B>(
    interceptor: Option<F>,
    made: Result<S, E>,
    erase: X,
    service: Result<ErasedService<S, Intercepted<B, F>>, Error<E>>,
) -> bool {
    match made {
        Err(source) => service == Err::<ErasedService<S, Intercepted<B, F>>, Error<E>>(
            Error { kind: ErrorKind::Factory, source },
        ),
        Ok(inner) => match interceptor {
            None => service == Ok::<ErasedService<S, Intercepted<B, F>>, Error<E>>(
                ErasedService::Plain(Svc { inner }),
            ),
            Some(f) => {
                &&& service matches Ok(ErasedService::Wrapped(wrapped))
                &&& wrapped.function() == f
                &&& call_ensures(erase, (Svc { inner },), wrapped.inner())
            },
        },
    }
}

/// Makes the service of each new connection from what the factory made for it.
pub struct MakeSvc<F> {
    interceptor: Option<Interceptor<F>>,
}

impl<F> MakeSvc<F> {
    /// The function of the configured interceptor, where there is one.
    pub closed spec fn interceptor(&self) -> Option<F> {
        match self.interceptor {
            Some(interceptor) => Some(interceptor.function()),
            None => None,
        }
    }

    /// The maker of services for a server with the given interceptor.
    pub fn new(interceptor: Option<Interceptor<F>>) -> (maker: Self)
        ensures
            maker.interceptor() == match interceptor {
                Some(i) => Some(i.function()),
                None => None,
            },
    {
        MakeSvc { interceptor }
    }

    /// Whether an interceptor is configured.
    pub fn is_intercepted(&self) -> (intercepted: bool)
        ensures
            intercepted == self.interceptor() is Some,
    {
        self.interceptor.is_some()
    }

    /// Takes the factory's answer to a readiness probe, once it is ready.
    pub fn poll_ready<E>(ready: Result<(), E>) -> (unified: Result<(), Error<E>>)
        ensures
            unified == tagged_spec(ErrorKind::Factory, ready),
    {
        tagged(ErrorKind::Factory, ready)
    }

    /// Takes what the factory made for one connection and gives the service
    /// that is driven on it: the plain service where no interceptor is
    /// configured, else the service erased by `erase` with the interceptor
    /// before it. A failure of the factory is a factory error, and the
    /// connection gets no service.
    pub fn call<S, B, E, X: FnOnce(Svc<S>) -> B>(&self, made: Result<S, E>, erase: X) -> (service:
        Result<ErasedService<S, Intercepted<B, F>>, Error<E>>)
        requires
            self.interceptor() is Some ==> (made matches Ok(inner) ==> call_requires(
                erase,
                (Svc { inner },),
            )),
        ensures
            assembled(self.interceptor(), made, erase, service),
    {
        let inner = match tagged(ErrorKind::Factory, made) {
            Ok(inner) => inner,
            Err(error) => {
                return Err(error);
            },
        };
        match &self.interceptor {
            Some(interceptor) => {
                let layered = interceptor.layer(erase(Svc { inner }));
                Ok(ErasedService::Wrapped(layered))
            },
            None => Ok(ErasedService::Plain(Svc { inner })),
        }
    }
}

/// Where an interceptor is configured, every request on every connection goes
/// through it: the response is one that the configured function gave for that
/// request, called with the connection's own erased service.
pub proof fn lemma_interceptor_handles_every_request<S, B, F, E, X, Req, Out>(
    f: F,
    inner: S,
    erase: X,
    service: Result<ErasedService<S, Intercepted<B, F>>, Error<E>>,
    request: Req,
    after: Intercepted<B, F>,
    response: Out,
) where X: FnOnce(Svc<S>) -> B, F: Fn(&mut B, Req) -> Out
    requires
        assembled(Some(f), Ok::<S, E>(inner), erase, service),
        service matches Ok(ErasedService::Wrapped(wrapped)) ==> exists|erased: &mut B|
            {
                &&& *erased == wrapped.inner()
                &&& *final(erased) == after.inner()
                &&& call_ensures(wrapped.function(), (erased, request), response)
            },
    ensures
        service matches Ok(ErasedService::Wrapped(wrapped)) && exists|erased: &mut B|
            {
                &&& call_ensures(erase, (Svc { inner },), *erased)
                &&& call_ensures(f, (erased, request), response)
                &&& *final(erased) == after.inner()
            },
{
}

/// Where no interceptor is configured, the service that is driven on a
/// connection is the one the factory made for it, unchanged.
pub proof fn lemma_without_interceptor_the_service_is_untouched<S, B, F, E, X>(
    inner: S,
    erase: X,
    service: Result<ErasedService<S, Intercepted<B, F>>, Error<E>>,
) where X: FnOnce(Svc<S>) -> B
    requires
        assembled(None::<F>, Ok::<S, E>(inner), erase, service),
    ensures
        service == Ok::<ErasedService<S, Intercepted<B, F>>, Error<E>>(
            ErasedService::Plain(Svc { inner }),
        ),
{
}

/// Two connections share the interceptor's function and nothing else: the
/// service of each is built from what the factory made for that connection,
/// and from nothing that was made for the other.
pub proof fn lemma_each_connection_gets_the_service_made_for_it<S, B, F, E, X, Y>(
    interceptor: Option<F>,
    first: S,
    second: S,
    erase_first: X,
    erase_second: Y,
    first_service: Result<ErasedService<S, Intercepted<B, F>>, Error<E>>,
    second_service: Result<ErasedService<S, Intercepted<B, F>>, Error<E>>,
) where X: FnOnce(Svc<S>) -> B, Y: FnOnce(Svc<S>) -> B
    requires
        assembled(interceptor, Ok::<S, E>(first), erase_first, first_service),
        assembled(interceptor, Ok::<S, E>(second), erase_second, second_service),
    ensures
        match interceptor {
            None => {
                &&& first_service matches Ok(ErasedService::Plain(a))
                &&& second_service matches Ok(ErasedService::Plain(b))
                &&& a.inner == first
                &&& b.inner == second
            },
            Some(f) => {
                &&& first_service matches Ok(ErasedService::Wrapped(a))
                &&& second_service matches Ok(ErasedService::Wrapped(b))
                &&& call_ensures(erase_first, (Svc { inner: first },), a.inner())
                &&& call_ensures(erase_second, (Svc { inner: second },), b.inner())
                &&& a.function() == f
                &&& b.function() == f
            },
        },
{
}

} // verus!
