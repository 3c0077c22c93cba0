use std::sync::atomic::{AtomicUsize, Ordering};
use std::sync::Arc;
use tonic_transport::{
    tagged, Builder, ErasedService, Error, ErrorKind, Interceptor, MakeSvc, Server, Startup, Svc,
};

/// A service that counts the requests it handled and answers with the
/// request's length.
#[derive(Debug, PartialEq, Eq)]
struct Echo {
    handled: u32,
}

impl Echo {
    fn call(&mut self, request: &str) -> String {
        self.handled += 1;
        format!("echo {} #{}", request, self.handled)
    }
}

/// The erased form of a service: what stands behind the interceptor.
#[derive(Debug, PartialEq, Eq)]
struct Boxed {
    service: Echo,
}

fn erase(service: Svc<Echo>) -> Boxed {
    Boxed { service: service.inner }
}

fn forward(service: &mut Boxed, request: &'static str) -> String {
    service.service.call(request)
}

fn reject(_service: &mut Boxed, _request: &'static str) -> String {
    String::from("rejected")
}

type Handler = fn(&mut Boxed, &'static str) -> String;

fn maker(interceptor: Option<Handler>) -> MakeSvc<Handler> {
    let mut builder: Builder<Handler> = Server::builder();
    if let Some(f) = interceptor {
        builder.interceptor_fn(f);
    }
    let binding = match builder.serve::<()>() {
        Startup::Bind(binding) => binding,
        Startup::ValidateTls(_) => panic!("no TLS material was configured"),
    };
    match binding.bound::<(), &'static str>(Ok(())) {
        Ok(serving) => serving.make_svc,
        Err(_) => panic!("the address was bound"),
    }
}

#[test]
fn plain_server_answers_as_the_factory_service_does() {
    let maker = maker(None);
    let service = maker.call::<Echo, Boxed, &'static str, _>(Ok(Echo { handled: 0 }), erase);
    match service {
        Ok(ErasedService::Plain(mut svc)) => {
            let mut reference = Echo { handled: 0 };
            assert_eq!(svc.inner.call("hello"), reference.call("hello"));
            assert_eq!(svc.inner, reference);
        }
        _ => panic!("without an interceptor the service is the plain one"),
    }
}

#[test]
fn plain_service_is_the_one_that_was_made() {
    let maker = maker(None);
    let service = maker.call::<Echo, Boxed, &'static str, _>(Ok(Echo { handled: 41 }), erase);
    match service {
        Ok(ErasedService::Plain(svc)) => assert_eq!(svc, Svc { inner: Echo { handled: 41 } }),
        _ => panic!("without an interceptor the service is the plain one"),
    }
}

#[test]
fn rejecting_interceptor_answers_and_the_service_is_never_called() {
    let maker = maker(Some(reject));
    let service = maker.call::<Echo, Boxed, &'static str, _>(Ok(Echo { handled: 0 }), erase);
    match service {
        Ok(ErasedService::Wrapped(mut wrapped)) => {
            assert_eq!(wrapped.call("anything"), "rejected");
            assert_eq!(wrapped.call("anything else"), "rejected");
            assert_eq!(wrapped.get_ref().service.handled, 0);
        }
        _ => panic!("with an interceptor the service is the wrapped one"),
    }
}

#[test]
fn forwarding_interceptor_reaches_the_service() {
    let maker = maker(Some(forward));
    let service = maker.call::<Echo, Boxed, &'static str, _>(Ok(Echo { handled: 0 }), erase);
    match service {
        Ok(ErasedService::Wrapped(mut wrapped)) => {
            assert_eq!(wrapped.call("a"), "echo a #1");
            assert_eq!(wrapped.call("b"), "echo b #2");
            assert_eq!(wrapped.get_ref().service.handled, 2);
        }
        _ => panic!("with an interceptor the service is the wrapped one"),
    }
}

#[test]
fn interceptor_is_called_for_every_request_on_every_connection() {
    let seen = Arc::new(AtomicUsize::new(0));
    let counter = Arc::clone(&seen);
    let counting = move |service: &mut Boxed, request: &'static str| -> String {
        counter.fetch_add(1, Ordering::SeqCst);
        service.service.call(request)
    };
    let maker = MakeSvc::new(Some(Interceptor::new(counting)));
    let mut connections = Vec::new();
    for _ in 0..3 {
        match maker.call::<Echo, Boxed, &'static str, _>(Ok(Echo { handled: 0 }), erase) {
            Ok(ErasedService::Wrapped(wrapped)) => connections.push(wrapped),
            _ => panic!("with an interceptor the service is the wrapped one"),
        }
    }
    for wrapped in connections.iter_mut() {
        wrapped.call("first");
        wrapped.call("second");
    }
    assert_eq!(seen.load(Ordering::SeqCst), 6);
}

#[test]
fn erasing_happens_once_per_intercepted_connection() {
    let erased = Arc::new(AtomicUsize::new(0));
    let counter = Arc::clone(&erased);
    let maker = maker(Some(forward));
    let service = maker.call::<Echo, Boxed, &'static str, _>(Ok(Echo { handled: 0 }), move |svc| {
        counter.fetch_add(1, Ordering::SeqCst);
        erase(svc)
    });
    assert!(matches!(service, Ok(ErasedService::Wrapped(_))));
    assert_eq!(erased.load(Ordering::SeqCst), 1);
}

#[test]
fn nothing_is_erased_without_an_interceptor_or_a_service() {
    let erased = Arc::new(AtomicUsize::new(0));
    let counter = Arc::clone(&erased);
    let plain = maker(None);
    let service = plain.call::<Echo, Boxed, &'static str, _>(Ok(Echo { handled: 0 }), move |svc| {
        counter.fetch_add(1, Ordering::SeqCst);
        erase(svc)
    });
    assert!(matches!(service, Ok(ErasedService::Plain(_))));
    let counter = Arc::clone(&erased);
    let intercepted = maker(Some(forward));
    let service = intercepted.call::<Echo, Boxed, &'static str, _>(Err("no capacity"), move |svc| {
        counter.fetch_add(1, Ordering::SeqCst);
        erase(svc)
    });
    assert!(matches!(service, Err(_)));
    assert_eq!(erased.load(Ordering::SeqCst), 0);
}

#[test]
fn connections_do_not_share_service_state() {
    let maker = maker(Some(forward));
    let first = maker.call::<Echo, Boxed, &'static str, _>(Ok(Echo { handled: 0 }), erase);
    let second = maker.call::<Echo, Boxed, &'static str, _>(Ok(Echo { handled: 0 }), erase);
    match (first, second) {
        (Ok(ErasedService::Wrapped(mut first)), Ok(ErasedService::Wrapped(mut second))) => {
            first.call("one");
            first.call("two");
            first.call("three");
            assert_eq!(first.get_ref().service.handled, 3);
            assert_eq!(second.get_ref().service.handled, 0);
            assert_eq!(second.call("one"), "echo one #1");
            assert_eq!(first.get_ref().service.handled, 3);
        }
        _ => panic!("with an interceptor the service is the wrapped one"),
    }
}

#[test]
fn plain_connections_do_not_share_service_state() {
    let maker = maker(None);
    let first = maker.call::<Echo, Boxed, &'static str, _>(Ok(Echo { handled: 0 }), erase);
    let second = maker.call::<Echo, Boxed, &'static str, _>(Ok(Echo { handled: 0 }), erase);
    match (first, second) {
        (Ok(ErasedService::Plain(mut first)), Ok(ErasedService::Plain(second))) => {
            first.inner.call("one");
            assert_eq!(first.inner.handled, 1);
            assert_eq!(second.inner.handled, 0);
        }
        _ => panic!("without an interceptor the service is the plain one"),
    }
}

#[test]
fn layered_services_share_the_one_function() {
    let calls = Arc::new(AtomicUsize::new(0));
    let counter = Arc::clone(&calls);
    let interceptor = Interceptor::new(move |service: &mut u32, request: u32| -> u32 {
        counter.fetch_add(1, Ordering::SeqCst);
        *service += request;
        *service
    });
    let mut first = interceptor.layer(10u32);
    let mut second = interceptor.layer(20u32);
    assert_eq!(first.call(1), 11);
    assert_eq!(second.call(2), 22);
    assert_eq!(first.call(1), 12);
    assert_eq!(*first.get_ref(), 12);
    assert_eq!(*second.get_ref(), 22);
    assert_eq!(calls.load(Ordering::SeqCst), 3);
    assert_eq!(Arc::strong_count(&calls), 2);
}

#[test]
fn failed_factory_is_a_factory_error_of_that_connection() {
    let maker = maker(Some(forward));
    let service = maker.call::<Echo, Boxed, &'static str, _>(Err("out of memory"), erase);
    match service {
        Err(error) => {
            assert_eq!(error, Error { kind: ErrorKind::Factory, source: "out of memory" });
            assert!(!error.is_fatal());
        }
        Ok(_) => panic!("the factory failed"),
    }
    let next = maker.call::<Echo, Boxed, &'static str, _>(Ok(Echo { handled: 0 }), erase);
    assert!(matches!(next, Ok(ErasedService::Wrapped(_))));
}

#[test]
fn failed_factory_without_interceptor_is_a_factory_error() {
    let maker = maker(None);
    let service = maker.call::<Echo, Boxed, &'static str, _>(Err("out of memory"), erase);
    match service {
        Err(error) => assert_eq!(error, Error { kind: ErrorKind::Factory, source: "out of memory" }),
        Ok(_) => panic!("the factory failed"),
    }
}

#[test]
fn factory_readiness_is_tagged_as_factory() {
    assert_eq!(MakeSvc::<Handler>::poll_ready::<&'static str>(Ok(())), Ok(()));
    assert_eq!(
        MakeSvc::<Handler>::poll_ready(Err("closed")),
        Err(Error { kind: ErrorKind::Factory, source: "closed" })
    );
}

#[test]
fn service_readiness_is_tagged_as_service() {
    assert_eq!(Svc::<Echo>::poll_ready::<&'static str>(Ok(())), Ok(()));
    assert_eq!(
        Svc::<Echo>::poll_ready(Err("overloaded")),
        Err(Error { kind: ErrorKind::Service, source: "overloaded" })
    );
}

#[test]
fn service_response_is_kept_and_its_failure_tagged() {
    assert_eq!(Svc::<Echo>::call::<u16, &'static str>(Ok(200)), Ok(200));
    assert_eq!(
        Svc::<Echo>::call::<u16, &'static str>(Err("handler failed")),
        Err(Error { kind: ErrorKind::Service, source: "handler failed" })
    );
}

#[test]
fn tagged_keeps_a_success_and_tags_a_failure() {
    assert_eq!(tagged::<u8, &'static str>(ErrorKind::Handshake, Ok(7)), Ok(7));
    assert_eq!(
        tagged::<u8, &'static str>(ErrorKind::Handshake, Err("bad record")),
        Err(Error { kind: ErrorKind::Handshake, source: "bad record" })
    );
}

#[test]
fn only_setup_errors_are_fatal() {
    assert!(ErrorKind::Setup.is_fatal());
    assert!(!ErrorKind::Accept.is_fatal());
    assert!(!ErrorKind::Handshake.is_fatal());
    assert!(!ErrorKind::Factory.is_fatal());
    assert!(!ErrorKind::Service.is_fatal());
    assert!(Error::new(ErrorKind::Setup, "bind").is_fatal());
    assert!(!Error::new(ErrorKind::Service, "handler").is_fatal());
}

#[test]
fn error_gives_its_source_back() {
    let error = Error::new(ErrorKind::Accept, String::from("reset"));
    assert_eq!(error.kind, ErrorKind::Accept);
    assert_eq!(error.into_source(), "reset");
}
