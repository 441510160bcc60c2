//! A whole session.

use crate::generic::error::ErrorCode;
use crate::generic::recv::RecvStream;
use crate::generic::send::SendStream;
use vstd::prelude::*;

verus! {

/// Whether `send` is a sending half as a session hands it out: at the given
/// place, with nothing sent, no failure, priority `0`, and not abandoned.
pub open spec fn new_send<S: SendStream>(send: S, place: nat) -> bool {
    &&& send.place() == place
    &&& send.sent() == Seq::<u8>::empty()
    &&& send.failure() is None
    &&& send.order() == 0
    &&& send.reset_code() is None
}

/// Whether `recv` is a receiving half as a session hands it out: at the given
/// place, with nothing received, no failure, and the peer not told to stop.
pub open spec fn new_recv<R: RecvStream>(recv: R, place: nat) -> bool {
    &&& recv.place() == place
    &&& recv.received() == Seq::<u8>::empty()
    &&& recv.failure() is None
    &&& recv.stop_code() is None
}

/// One WebTransport session.
///
/// A session can be cloned into several handles. All of them work on the same
/// connection and see the same end of it. A stream belongs to the caller that
/// opened or accepted it, and to nobody else.
///
/// The peer's streams are accepted in the order in which the peer opened them,
/// each kind for itself: the stream that an accept returns has as its place
/// the number of streams of its kind that were accepted before.
pub trait Session: Clone {
    /// The sending half of a stream of this session.
    type SendStream: SendStream;

    /// The receiving half of a stream of this session.
    type RecvStream: RecvStream;

    /// The failure with which the session ends.
    type Error: ErrorCode;

    /// The number of the peer's unidirectional streams accepted so far through
    /// this handle.
    spec fn uni_accepted(&self) -> nat;

    /// The number of the peer's bidirectional streams accepted so far through
    /// this handle.
    spec fn bi_accepted(&self) -> nat;

    /// The number of unidirectional streams opened so far through this handle.
    spec fn uni_opened(&self) -> nat;

    /// The number of bidirectional streams opened so far through this handle.
    spec fn bi_opened(&self) -> nat;

    /// The code and the reason with which the session was closed through this
    /// handle, once it was.
    spec fn closing(&self) -> Option<(u32, Seq<char>)>;

    /// Waits for the next unidirectional stream that the peer opened. Streams
    /// come in the order in which the peer opened them. Fails on a session that
    /// was closed.
    fn accept_uni(&mut self) -> (outcome: Result<Self::RecvStream, Self::Error>)
        ensures
            old(self).closing() is Some ==> outcome is Err,
            match outcome {
                Ok(recv) => {
                    &&& new_recv(recv, old(self).uni_accepted())
                    &&& final(self).uni_accepted() == old(self).uni_accepted() + 1
                },
                Err(_) => final(self).uni_accepted() == old(self).uni_accepted(),
            },
            final(self).bi_accepted() == old(self).bi_accepted(),
            final(self).uni_opened() == old(self).uni_opened(),
            final(self).bi_opened() == old(self).bi_opened(),
            final(self).closing() == old(self).closing(),
    ;

    /// Waits for the next bidirectional stream that the peer opened, and
    /// returns its two halves. Streams come in the order in which the peer
    /// opened them. Fails on a session that was closed.
    fn accept_bi(&mut self) -> (outcome: Result<
        (Self::SendStream, Self::RecvStream),
        Self::Error,
    >)
        ensures
            old(self).closing() is Some ==> outcome is Err,
            match outcome {
                Ok((send, recv)) => {
                    &&& new_send(send, old(self).bi_accepted())
                    &&& new_recv(recv, old(self).bi_accepted())
                    &&& final(self).bi_accepted() == old(self).bi_accepted() + 1
                },
                Err(_) => final(self).bi_accepted() == old(self).bi_accepted(),
            },
            final(self).uni_accepted() == old(self).uni_accepted(),
            final(self).uni_opened() == old(self).uni_opened(),
            final(self).bi_opened() == old(self).bi_opened(),
            final(self).closing() == old(self).closing(),
    ;

    /// Opens a bidirectional stream, and returns its two halves. Fails on a
    /// session that was closed.
    fn open_bi(&mut self) -> (outcome: Result<(Self::SendStream, Self::RecvStream), Self::Error>)
        ensures
            old(self).closing() is Some ==> outcome is Err,
            match outcome {
                Ok((send, recv)) => {
                    &&& new_send(send, old(self).bi_opened())
                    &&& new_recv(recv, old(self).bi_opened())
                    &&& final(self).bi_opened() == old(self).bi_opened() + 1
                },
                Err(_) => final(self).bi_opened() == old(self).bi_opened(),
            },
            final(self).uni_accepted() == old(self).uni_accepted(),
            final(self).bi_accepted() == old(self).bi_accepted(),
            final(self).uni_opened() == old(self).uni_opened(),
            final(self).closing() == old(self).closing(),
    ;

    /// Opens a unidirectional stream. Fails on a session that was closed.
    fn open_uni(&mut self) -> (outcome: Result<Self::SendStream, Self::Error>)
        ensures
            old(self).closing() is Some ==> outcome is Err,
            match outcome {
                Ok(send) => {
                    &&& new_send(send, old(self).uni_opened())
                    &&& final(self).uni_opened() == old(self).uni_opened() + 1
                },
                Err(_) => final(self).uni_opened() == old(self).uni_opened(),
            },
            final(self).uni_accepted() == old(self).uni_accepted(),
            final(self).bi_accepted() == old(self).bi_accepted(),
            final(self).bi_opened() == old(self).bi_opened(),
            final(self).closing() == old(self).closing(),
    ;

    /// Ends the session, with an application error code and a reason for the
    /// peer, both as given. No stream can be opened or accepted afterwards.
    fn close(&mut self, code: u32, reason: &str) -> (outcome: Result<(), Self::Error>)
        ensures
            final(self).closing() == match outcome {
                Ok(()) => Some((code, reason@)),
                Err(_) => old(self).closing(),
            },
            final(self).uni_accepted() == old(self).uni_accepted(),
            final(self).bi_accepted() == old(self).bi_accepted(),
            final(self).uni_opened() == old(self).uni_opened(),
            final(self).bi_opened() == old(self).bi_opened(),
    ;

    /// Waits until the session has ended, for whatever cause, and returns the
    /// cause.
    fn closed(&self) -> Self::Error;
}

} // verus!
