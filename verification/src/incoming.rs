//! The sequence of incoming streams: accepted connections, each routed through
//! the encryption upgrade where one is configured.
//!
//! The sequence does not end on a failure. A failed accept or a failed
//! handshake becomes one `Err` item, and the next connection is routed as if
//! nothing had happened; only the end of the listener ends the sequence.
use crate::error::{setup_failure, tagged, tagged_spec, Error, ErrorKind};
use vstd::prelude::*;

verus! {

/// A ready byte stream, whatever the concrete connection under it.
#[derive(Debug, PartialEq, Eq)]
pub enum Stream<C, T> {
    /// The accepted connection itself: no encryption is configured.
    Plain(C),
    /// The encrypted channel that a completed handshake gave.
    Encrypted(T),
}

/// What is to be done with one answer of the listener.
#[derive(Debug, PartialEq, Eq)]
pub enum Routed<C, T, E> {
    /// Run the handshake on this connection and report its outcome to
    /// [`Incoming::upgraded`].
    Upgrade(C),
    /// The next item of the sequence.
    Yield(Result<Stream<C, T>, Error<E>>),
    /// The sequence has ended.
    End,
}

/// A bound listener.
pub struct TcpIncoming<L> {
    inner: L,
}

impl<L> TcpIncoming<L> {
    /// The listener that was bound.
    pub closed spec fn listener(&self) -> L {
        self.inner
    }

    /// Takes the outcome of binding the listen address. A failure to bind is a
    /// setup failure.
    pub fn bind<E>(bound: Result<L, E>) -> (tcp: Result<Self, Error<E>>)
        ensures
            match bound {
                Ok(listener) => tcp matches Ok(t) && t.listener() == listener,
                Err(source) => tcp == Err::<Self, Error<E>>(setup_failure(source)),
            },
    {
        match tagged(ErrorKind::Setup, bound) {
            Ok(inner) => Ok(TcpIncoming { inner }),
            Err(error) => Err(error),
        }
    }

    /// Takes one answer of the listener, once it is ready. A failure is the
    /// failure of that one attempt to accept.
    pub fn poll_next<C, E>(accepted: Option<Result<C, E>>) -> (item: Option<Result<C, Error<E>>>)
        ensures
            item == Self::next_item(accepted),
    {
        match accepted {
            Some(outcome) => Some(tagged(ErrorKind::Accept, outcome)),
            None => None,
        }
    }

    /// The item that an answer of the listener becomes.
    pub open spec fn next_item<C, E>(accepted: Option<Result<C, E>>) -> Option<Result<C, Error<E>>> {
        match accepted {
            Some(outcome) => Some(tagged_spec(ErrorKind::Accept, outcome)),
            None => None,
        }
    }

    /// The listener, to accept on.
    pub fn inner(&mut self) -> (listener: &mut L)
        ensures
            *listener == old(self).listener(),
            final(self).listener() == *final(listener),
    {
        &mut self.inner
    }
}

/// What is done with an answer of the listener: `open` says whether the
/// sequence has not ended yet, `tls` whether an encryption upgrade is
/// configured.
pub open spec fn routed<C, T, E>(open: bool, tls: bool, accepted: Option<Result<C, E>>) -> Routed<
    C,
    T,
    E,
> {
    if !open {
        Routed::End
    } else {
        match accepted {
            None => Routed::End,
            Some(Err(source)) => Routed::Yield(Err(Error { kind: ErrorKind::Accept, source })),
            Some(Ok(connection)) => if tls {
                Routed::Upgrade(connection)
            } else {
                Routed::Yield(Ok(Stream::Plain(connection)))
            },
        }
    }
}

/// Whether the sequence goes on after an answer of the listener: it ends with
/// the listener, and with nothing else.
pub open spec fn stays_open<C, E>(open: bool, accepted: Option<Result<C, E>>) -> bool {
    open && accepted is Some
}

/// Whether the sequence is still open once the first `k` of `answers` have
/// been routed, one after the other.
pub open spec fn open_after<C, E>(open: bool, answers: Seq<Option<Result<C, E>>>, k: nat) -> bool
    decreases k,
{
    if k == 0 {
        open
    } else {
        stays_open(open_after(open, answers, (k - 1) as nat), answers[k - 1])
    }
}

/// The item that a finished handshake becomes.
pub open spec fn upgraded_item<C, T, E>(handshake: Result<T, E>) -> Result<Stream<C, T>, Error<E>> {
    match handshake {
        Ok(channel) => Ok(Stream::Encrypted(channel)),
        Err(source) => Err(Error { kind: ErrorKind::Handshake, source }),
    }
}

/// What the connection at position `k` adds to the sequence, where
/// `answers` are the listener's answers in order and `handshakes` the outcome
/// that the handshake of each has or would have: an item, or nothing once the
/// sequence has ended.
pub open spec fn nth_item<C, T, E>(
    tls: bool,
    answers: Seq<Option<Result<C, E>>>,
    handshakes: Seq<Result<T, E>>,
    k: nat,
) -> Option<Result<Stream<C, T>, Error<E>>> {
    match routed::<C, T, E>(open_after(true, answers, k), tls, answers[k as int]) {
        Routed::Upgrade(_) => Some(upgraded_item(handshakes[k as int])),
        Routed::Yield(item) => Some(item),
        Routed::End => None,
    }
}

/// The sequence of incoming streams of one listener.
pub struct Incoming<A, L> {
    tcp: TcpIncoming<L>,
    tls: Option<A>,
    done: bool,
}

/// The sequence of incoming streams of the bound listener `tcp`, upgraded by
/// `tls` where there is one.
pub fn incoming<A, L>(tcp: TcpIncoming<L>, tls: Option<A>) -> (stream: Incoming<A, L>)
    ensures
        stream.is_open(),
        stream.listener() == tcp.listener(),
        stream.acceptor() == tls,
{
    Incoming { tcp, tls, done: false }
}

impl<A, L> Incoming<A, L> {
    /// The listener that the connections come from.
    pub closed spec fn listener(&self) -> L {
        self.tcp.listener()
    }

    /// The encryption upgrade, where one is configured.
    pub closed spec fn acceptor(&self) -> Option<A> {
        self.tls
    }

    /// Whether the sequence has not ended.
    pub closed spec fn is_open(&self) -> bool {
        !self.done
    }

    /// Whether the sequence has ended.
    pub fn is_done(&self) -> (done: bool)
        ensures
            done == !self.is_open(),
    {
        self.done
    }

    /// The encryption upgrade, where one is configured.
    pub fn tls(&self) -> (tls: Option<&A>)
        ensures
            tls == match self.acceptor() {
                Some(acceptor) => Some(&acceptor),
                None => None,
            },
    {
        self.tls.as_ref()
    }

    /// The listener, to accept on.
    pub fn listener_mut(&mut self) -> (listener: &mut L)
        ensures
            *listener == old(self).listener(),
            final(self).listener() == *final(listener),
            final(self).acceptor() == old(self).acceptor(),
            final(self).is_open() == old(self).is_open(),
    {
        self.tcp.inner()
    }

    /// Routes one answer of the listener. An accepted connection goes to the
    /// upgrade where one is configured and is yielded as it is where none is; a
    /// failed accept is yielded as an error and leaves the sequence open; the
    /// end of the listener ends the sequence, which then stays ended.
    pub fn route<C, T, E>(&mut self, accepted: Option<Result<C, E>>) -> (step: Routed<C, T, E>)
        ensures
            step == routed::<C, T, E>(old(self).is_open(), old(self).acceptor() is Some, accepted),
            final(self).is_open() == stays_open(old(self).is_open(), accepted),
            final(self).listener() == old(self).listener(),
            final(self).acceptor() == old(self).acceptor(),
    {
        if self.done {
            return Routed::End;
        }
        match TcpIncoming::<L>::poll_next(accepted) {
            None => {
                self.done = true;
                Routed::End
            },
            Some(Err(error)) => Routed::Yield(Err(error)),
            Some(Ok(connection)) => {
                if self.tls.is_some() {
                    Routed::Upgrade(connection)
                } else {
                    Routed::Yield(Ok(Stream::Plain(connection)))
                }
            },
        }
    }

    /// Takes the outcome of one handshake. The encrypted channel is yielded as
    /// a stream; a failed handshake is yielded as an error. The sequence is not
    /// touched: no handshake can end it or reach another connection.
    pub fn upgraded<C, T, E>(&self, handshake: Result<T, E>) -> (item: Result<
        Stream<C, T>,
        Error<E>,
    >)
        ensures
            item == upgraded_item::<C, T, E>(handshake),
    {
        match tagged(ErrorKind::Handshake, handshake) {
            Ok(channel) => Ok(Stream::Encrypted(channel)),
            Err(error) => Err(error),
        }
    }
}

/// What the consumer of the sequence does with one item.
#[derive(Debug, PartialEq, Eq)]
pub enum Consumed<S, E> {
    /// Serve this stream.
    Serve(S),
    /// The failure of one connection: report it and pull the next item.
    Skip(Error<E>),
    /// A fatal failure: report it and pull no more.
    Stop(Error<E>),
}

/// What becomes of an item: a stream is served, and a failure ends the
/// consumer only where it is fatal.
pub open spec fn consumed<S, E>(item: Result<S, Error<E>>) -> Consumed<S, E> {
    match item {
        Ok(stream) => Consumed::Serve(stream),
        Err(error) => if error.kind.fatal() {
            Consumed::Stop(error)
        } else {
            Consumed::Skip(error)
        },
    }
}

/// Decides what the consumer of the sequence does with `item`.
pub fn consume<S, E>(item: Result<S, Error<E>>) -> (decision: Consumed<S, E>)
    ensures
        decision == consumed(item),
{
    match item {
        Ok(stream) => Consumed::Serve(stream),
        Err(error) => if error.is_fatal() {
            Consumed::Stop(error)
        } else {
            Consumed::Skip(error)
        },
    }
}

/// However many accepts failed before it, the answer at position `k` is
/// routed as the first answer of a fresh sequence would be, as long as the
/// listener itself has not ended: an accepted connection is handed on, to the
/// upgrade or as a plain stream, and none is lost to an earlier failure.
pub proof fn lemma_failed_accepts_do_not_end_the_sequence<C, T, E>(
    tls: bool,
    answers: Seq<Option<Result<C, E>>>,
    k: nat,
)
    requires
        k < answers.len(),
        forall|i: int| 0 <= i < k ==> (#[trigger] answers[i]) is Some,
    ensures
        open_after(true, answers, k),
        routed::<C, T, E>(open_after(true, answers, k), tls, answers[k as int]) == routed::<C, T, E>(
            true,
            tls,
            answers[k as int],
        ),
        answers[k as int] matches Some(Ok(connection)) ==> routed::<C, T, E>(
            open_after(true, answers, k),
            tls,
            answers[k as int],
        ) == if tls {
            Routed::<C, T, E>::Upgrade(connection)
        } else {
            Routed::<C, T, E>::Yield(Ok(Stream::Plain(connection)))
        },
    decreases k,
{
    if k > 0 {
        lemma_failed_accepts_do_not_end_the_sequence::<C, T, E>(tls, answers, (k - 1) as nat);
    }
}

/// What a connection adds to the sequence depends on its own accept and its
/// own handshake, and on nothing that came before: as long as the listener
/// has not ended, the connections after a failed accept or a failed handshake
/// are accepted, upgraded and yielded as if the failure had not been.
pub proof fn lemma_a_failure_stays_with_its_connection<C, T, E>(
    tls: bool,
    answers: Seq<Option<Result<C, E>>>,
    handshakes: Seq<Result<T, E>>,
    k: nat,
)
    requires
        k < answers.len(),
        answers.len() == handshakes.len(),
        forall|i: int| 0 <= i < k ==> (#[trigger] answers[i]) is Some,
    ensures
        nth_item(tls, answers, handshakes, k) == match answers[k as int] {
            None => None::<Result<Stream<C, T>, Error<E>>>,
            Some(Err(source)) => Some(Err(Error { kind: ErrorKind::Accept, source })),
            Some(Ok(connection)) => Some(
                if tls {
                    upgraded_item(handshakes[k as int])
                } else {
                    Ok(Stream::Plain(connection))
                },
            ),
        },
{
    lemma_failed_accepts_do_not_end_the_sequence::<C, T, E>(tls, answers, k);
}

/// Once the listener has ended, the sequence stays ended: every later answer
/// is routed to `End`.
pub proof fn lemma_ended_sequence_stays_ended<C, T, E>(
    tls: bool,
    answers: Seq<Option<Result<C, E>>>,
    j: nat,
    k: nat,
)
    requires
        j < k,
        k < answers.len(),
        answers[j as int] is None,
    ensures
        !open_after(true, answers, k),
        routed::<C, T, E>(open_after(true, answers, k), tls, answers[k as int]) == Routed::<
            C,
            T,
            E,
        >::End,
    decreases k,
{
    if k - 1 > j {
        lemma_ended_sequence_stays_ended::<C, T, E>(tls, answers, j, (k - 1) as nat);
    }
}

} // verus!
