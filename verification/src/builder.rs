//! The server's configuration and the order of its start-up.
//!
//! A server starts in a fixed order: the TLS material, where some is
//! configured, is validated; then the listen address is bound; then
//! connections are served. Each step is a value of its own type, and the next
//! step can only be had from the one before it, by reporting that it
//! succeeded. A step that failed gives a setup error and no next step.
use crate::error::{setup_failure, tagged, Error, ErrorKind};
use crate::incoming::{incoming, Incoming, TcpIncoming};
use crate::service::{Interceptor, MakeSvc};
use vstd::prelude::*;

verus! {

/// Every connection speaks HTTP/2: no other version is negotiated or fallen
/// back to.
pub const HTTP2_ONLY: bool = true;

/// The server. It is configured and started through its [`Builder`].
#[derive(Debug)]
pub struct Server {}

impl Server {
    /// A builder with nothing configured: no TLS, no interceptor.
    pub fn builder<F>() -> (builder: Builder<F>)
        ensures
            builder.tls_material() is None,
            builder.interceptor() is None,
    {
        Builder::new()
    }
}

/// The configuration of a server that has not started yet.
pub struct Builder<F> {
    tls: Option<(Vec<u8>, Vec<u8>)>,
    interceptor: Option<Interceptor<F>>,
}

impl<F> Default for Builder<F> {
    fn default() -> (builder: Self)
        ensures
            builder.tls_material() is None,
            builder.interceptor() is None,
    {
        Builder { tls: None, interceptor: None }
    }
}

impl<F> Builder<F> {
    /// The configured TLS material: the certificate chain and the private key.
    pub closed spec fn tls_material(&self) -> Option<(Seq<u8>, Seq<u8>)> {
        match self.tls {
            Some(material) => Some((material.0@, material.1@)),
            None => None,
        }
    }

    /// The function of the configured interceptor.
    pub closed spec fn interceptor(&self) -> Option<F> {
        match self.interceptor {
            Some(interceptor) => Some(interceptor.function()),
            None => None,
        }
    }

    fn new() -> (builder: Self)
        ensures
            builder.tls_material() is None,
            builder.interceptor() is None,
    {
        Default::default()
    }

    /// Sets the TLS material. Material that was set before is replaced.
    pub fn tls(&mut self, pem: Vec<u8>, key: Vec<u8>) -> (builder: &mut Self)
        ensures
            builder.tls_material() == Some((pem@, key@)),
            builder.interceptor() == old(self).interceptor(),
            *final(self) == *final(builder),
    {
        self.tls = Some((pem, key));
        self
    }

    /// Sets the interceptor: the function that stands before the service of
    /// every connection. An interceptor that was set before is replaced.
    pub fn interceptor_fn(&mut self, f: F) -> (builder: &mut Self)
        ensures
            builder.interceptor() == Some(f),
            builder.tls_material() == old(self).tls_material(),
            *final(self) == *final(builder),
    {
        self.interceptor = Some(Interceptor::new(f));
        self
    }

    /// Starts the server: gives the first step of its start-up. With TLS
    /// material configured that is the validation of the material; without, it
    /// is the binding of the listen address, for plain connections.
    pub fn serve<A>(self) -> (startup: Startup<F, A>)
        ensures
            match self.tls_material() {
                Some(material) => {
                    &&& startup matches Startup::ValidateTls(check)
                    &&& check.material() == material
                    &&& check.interceptor() == self.interceptor()
                },
                None => {
                    &&& startup matches Startup::Bind(binding)
                    &&& binding.acceptor() is None
                    &&& binding.interceptor() == self.interceptor()
                },
            },
    {
        match self.tls {
            Some(material) => Startup::ValidateTls(
                TlsCheck { pem: material.0, key: material.1, interceptor: self.interceptor },
            ),
            None => Startup::Bind(Binding { acceptor: None, interceptor: self.interceptor }),
        }
    }
}

/// The first step of a server's start-up.
pub enum Startup<F, A> {
    /// TLS material is configured and has to be validated.
    ValidateTls(TlsCheck<F>),
    /// No TLS material is configured: the listen address can be bound.
    Bind(Binding<F, A>),
}

/// A start-up that waits for its TLS material to be validated.
pub struct TlsCheck<F> {
    pem: Vec<u8>,
    key: Vec<u8>,
    interceptor: Option<Interceptor<F>>,
}

impl<F> TlsCheck<F> {
    /// The TLS material to validate: the certificate chain and the private key.
    pub closed spec fn material(&self) -> (Seq<u8>, Seq<u8>) {
        (self.pem@, self.key@)
    }

    /// The function of the configured interceptor.
    pub closed spec fn interceptor(&self) -> Option<F> {
        match self.interceptor {
            Some(interceptor) => Some(interceptor.function()),
            None => None,
        }
    }

    /// The certificate chain to validate.
    pub fn pem(&self) -> (pem: &Vec<u8>)
        ensures
            pem@ == self.material().0,
    {
        &self.pem
    }

    /// The private key to validate.
    pub fn key(&self) -> (key: &Vec<u8>)
        ensures
            key@ == self.material().1,
    {
        &self.key
    }

    /// Takes the outcome of the validation. Valid material gives the acceptor
    /// that upgrades connections, and with it the next step; malformed
    /// material is a setup error, and the start-up ends before anything is
    /// bound.
    pub fn validated<A, E>(self, outcome: Result<A, E>) -> (next: Result<Binding<F, A>, Error<E>>)
        ensures
            match outcome {
                Ok(acceptor) => {
                    &&& next matches Ok(binding)
                    &&& binding.acceptor() == Some(acceptor)
                    &&& binding.interceptor() == self.interceptor()
                },
                Err(source) => next == Err::<Binding<F, A>, Error<E>>(setup_failure(source)),
            },
    {
        match tagged(ErrorKind::Setup, outcome) {
            Ok(acceptor) => Ok(
                Binding { acceptor: Some(acceptor), interceptor: self.interceptor },
            ),
            Err(error) => Err(error),
        }
    }
}

/// A start-up that waits for its listen address to be bound.
pub struct Binding<F, A> {
    acceptor: Option<A>,
    interceptor: Option<Interceptor<F>>,
}

impl<F, A> Binding<F, A> {
    /// The acceptor that upgrades connections, where TLS is configured.
    pub closed spec fn acceptor(&self) -> Option<A> {
        self.acceptor
    }

    /// The function of the configured interceptor.
    pub closed spec fn interceptor(&self) -> Option<F> {
        match self.interceptor {
            Some(interceptor) => Some(interceptor.function()),
            None => None,
        }
    }

    /// Takes the outcome of binding the listen address. A bound listener gives
    /// the running server; a failure to bind is a setup error, and the
    /// start-up ends before any connection is accepted.
    pub fn bound<L, E>(self, outcome: Result<L, E>) -> (next: Result<Serving<F, A, L>, Error<E>>)
        ensures
            match outcome {
                Ok(listener) => {
                    &&& next matches Ok(serving)
                    &&& serving.incoming.is_open()
                    &&& serving.incoming.listener() == listener
                    &&& serving.incoming.acceptor() == self.acceptor()
                    &&& serving.make_svc.interceptor() == self.interceptor()
                },
                Err(source) => next == Err::<Serving<F, A, L>, Error<E>>(setup_failure(source)),
            },
    {
        match TcpIncoming::bind(outcome) {
            Ok(tcp) => Ok(
                Serving {
                    incoming: incoming(tcp, self.acceptor),
                    make_svc: MakeSvc::new(self.interceptor),
                },
            ),
            Err(error) => Err(error),
        }
    }
}

/// A server that has started: what the protocol engine is driven with.
pub struct Serving<F, A, L> {
    /// The sequence of incoming streams.
    pub incoming: Incoming<A, L>,
    /// The maker of each connection's service.
    pub make_svc: MakeSvc<F>,
}

} // verus!
