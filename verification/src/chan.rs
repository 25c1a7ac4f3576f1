//! The model of the bidirectional channel a transport supplies.
//!
//! The core is transport-agnostic: it only relies on a channel that can
//! open or accept bidirectional substreams, each a pair of a typed send
//! sink and a typed receive stream with frame-preserving, in-order,
//! at-most-once delivery. This module states that contract as explicit
//! state: a [`Channel`] holds the substreams it will yield, a
//! [`RecvStream`] holds the frames the peer will deliver, and a
//! [`SendSink`] records the frames accepted so far together with the
//! point, if any, at which the transport will refuse one. Every
//! suspension point of the asynchronous interface becomes a total
//! function whose contract says exactly which outcome the state forces;
//! [`RecvPoll::Pending`] stands for a read that would suspend.

use vstd::prelude::*;

verus! {

/// The send half of a substream: a sink of `T` with error `E`.
///
/// `fault` scripts the transport: `None` means every frame is accepted;
/// `Some((k, e))` means the next `k` frames are accepted and the one after
/// them is refused with `e`. A send error is terminal for the substream,
/// so the drivers in this crate never send again after one.
pub struct SendSink<T, E> {
    accepted: Vec<T>,
    fault: Option<(usize, E)>,
}

impl<T, E> SendSink<T, E> {
    /// The frames accepted so far, in send order.
    pub closed spec fn sent(self) -> Seq<T> {
        self.accepted@
    }

    /// The scripted refusal: how many more frames the transport accepts,
    /// and the error it then reports.
    pub closed spec fn fault(self) -> Option<(usize, E)> {
        self.fault
    }

    /// Whether the next send succeeds.
    pub open spec fn accepts(self) -> bool {
        match self.fault() {
            None => true,
            Some((k, _)) => k > 0,
        }
    }

    /// A sink on which every send succeeds.
    pub fn new() -> (s: Self)
        ensures
            s.sent() == Seq::<T>::empty(),
            s.fault() is None,
    {
        SendSink { accepted: Vec::new(), fault: None }
    }

    /// A sink that accepts `n` more frames and then refuses one with `e`,
    /// as a substream does when the peer closes its read half.
    pub fn failing_after(n: usize, e: E) -> (s: Self)
        ensures
            s.sent() == Seq::<T>::empty(),
            s.fault() == Some((n, e)),
    {
        SendSink { accepted: Vec::new(), fault: Some((n, e)) }
    }

    /// Send one frame. A frame accepted here is delivered unless the
    /// substream errors; a refused frame leaves the accepted frames as
    /// they were.
    pub fn send(&mut self, t: T) -> (r: Result<(), E>)
        ensures
            send_transition(*old(self), *final(self), t, r),
    {
        match self.fault.take() {
            None => {
                self.accepted.push(t);
                Ok(())
            },
            Some((k, e)) => {
                if k > 0 {
                    self.fault = Some((k - 1, e));
                    self.accepted.push(t);
                    Ok(())
                } else {
                    Err(e)
                }
            },
        }
    }

    /// Hand out the accepted frames, giving the sink up.
    pub fn into_sent(self) -> (v: Vec<T>)
        ensures
            v@ == self.sent(),
    {
        self.accepted
    }
}

/// How one send changes a sink: the frame is accepted and recorded, or the
/// scripted refusal is reached, the error comes back, and nothing is
/// recorded.
pub open spec fn send_transition<T, E>(
    pre: SendSink<T, E>,
    post: SendSink<T, E>,
    t: T,
    r: Result<(), E>,
) -> bool {
    match pre.fault() {
        None => {
            &&& r is Ok
            &&& post.sent() == pre.sent().push(t)
            &&& post.fault() is None
        },
        Some((k, e)) => {
            if k > 0 {
                &&& r is Ok
                &&& post.sent() == pre.sent().push(t)
                &&& post.fault() == Some(((k - 1) as usize, e))
            } else {
                &&& r == Err::<(), E>(e)
                &&& post.sent() == pre.sent()
                &&& post.fault() is None
            }
        },
    }
}

/// The error with which a sink refuses its next frame.
pub open spec fn refusal<T, E>(sink: SendSink<T, E>) -> E
    recommends
        !sink.accepts(),
{
    match sink.fault() {
        Some((_, e)) => e,
        None => arbitrary(),
    }
}

/// The scripted refusal left after one accepted send.
pub open spec fn fault_after_send<T, E>(pre: SendSink<T, E>) -> Option<(usize, E)>
    recommends
        pre.accepts(),
{
    match pre.fault() {
        None => None,
        Some((k, e)) => Some(((k - 1) as usize, e)),
    }
}

/// What one poll of a receive stream observes.
pub enum RecvPoll<T, E> {
    /// The peer's next frame.
    Item(T),
    /// The substream failed with a receive error.
    Fault(E),
    /// The peer closed its send half: end of stream.
    End,
    /// Nothing to read yet; an asynchronous reader would suspend here.
    Pending,
}

/// The receive half of a substream: a stream of `Result<T, E>` frames.
///
/// `frames` holds what the peer will deliver, in order; `eos` says whether
/// the peer closes its send half after them. While `eos` is false, a read
/// past the delivered frames pends.
pub struct RecvStream<T, E> {
    frames: Vec<Result<T, E>>,
    eos: bool,
}

impl<T, E> RecvStream<T, E> {
    /// The frames still to be delivered, in order.
    pub closed spec fn frames(self) -> Seq<Result<T, E>> {
        self.frames@
    }

    /// Whether the peer closes the substream after the delivered frames.
    pub closed spec fn eos(self) -> bool {
        self.eos
    }

    /// Whether the next read completes rather than pends.
    pub open spec fn determined(self) -> bool {
        self.frames().len() > 0 || self.eos()
    }

    /// A stream that will deliver `frames` and then, if `eos`, end.
    pub fn new(frames: Vec<Result<T, E>>, eos: bool) -> (s: Self)
        ensures
            s.frames() == frames@,
            s.eos() == eos,
    {
        RecvStream { frames, eos }
    }

    /// Read one frame: the next delivered frame, or the end of the
    /// stream, or [`RecvPoll::Pending`] while neither is there yet.
    pub fn poll_next(&mut self) -> (r: RecvPoll<T, E>)
        ensures
            final(self).eos() == old(self).eos(),
            old(self).frames().len() > 0 ==> {
                &&& final(self).frames() == old(self).frames().drop_first()
                &&& r == match old(self).frames()[0] {
                    Ok(t) => RecvPoll::<T, E>::Item(t),
                    Err(e) => RecvPoll::<T, E>::Fault(e),
                }
            },
            old(self).frames().len() == 0 ==> {
                &&& final(self).frames() == old(self).frames()
                &&& r == if old(self).eos() {
                    RecvPoll::<T, E>::End
                } else {
                    RecvPoll::<T, E>::Pending
                }
            },
    {
        if self.frames.len() > 0 {
            match self.frames.remove(0) {
                Ok(t) => RecvPoll::Item(t),
                Err(e) => RecvPoll::Fault(e),
            }
        } else if self.eos {
            RecvPoll::End
        } else {
            RecvPoll::Pending
        }
    }

    /// Await the next frame: the completed form of [`RecvStream::poll_next`],
    /// callable once the read is known to complete. `None` is end of stream.
    pub fn next(&mut self) -> (r: Option<Result<T, E>>)
        requires
            old(self).determined(),
        ensures
            final(self).eos() == old(self).eos(),
            old(self).frames().len() > 0 ==> {
                &&& final(self).frames() == old(self).frames().drop_first()
                &&& r == Some(old(self).frames()[0])
            },
            old(self).frames().len() == 0 ==> {
                &&& final(self).frames() == old(self).frames()
                &&& r is None
            },
    {
        if self.frames.len() > 0 {
            Some(self.frames.remove(0))
        } else {
            None
        }
    }
}

/// A bidirectional channel: what a transport supplies.
///
/// The type parameters are directional: a channel receives `In` frames and
/// sends `Out` frames, so the client side is a `Channel<Res, Req, ..>` and
/// the server side a `Channel<Req, Res, ..>`, which keeps the two roles
/// apart at compile time. The channel holds the substreams the transport
/// will yield, each already carrying what its peer will deliver; an `Err`
/// entry is an open or accept that the transport refuses with `OE`.
pub struct Channel<In, Out, OE, SE, RE> {
    substreams: Vec<Result<(SendSink<Out, SE>, RecvStream<In, RE>), OE>>,
}

impl<In, Out, OE, SE, RE> Channel<In, Out, OE, SE, RE> {
    /// The substreams the transport will yield, in order.
    pub closed spec fn substreams(self) -> Seq<
        Result<(SendSink<Out, SE>, RecvStream<In, RE>), OE>,
    > {
        self.substreams@
    }

    /// Whether another substream can be opened or accepted.
    pub open spec fn has_substream(self) -> bool {
        self.substreams().len() > 0
    }

    /// A channel over the given substreams.
    pub fn new(substreams: Vec<Result<(SendSink<Out, SE>, RecvStream<In, RE>), OE>>) -> (c: Self)
        ensures
            c.substreams() == substreams@,
    {
        Channel { substreams }
    }

    /// Initiate a new bidirectional substream. The first frame sent on it
    /// constitutes the request.
    pub fn open_bi(&mut self) -> (r: Result<(SendSink<Out, SE>, RecvStream<In, RE>), OE>)
        requires
            old(self).has_substream(),
        ensures
            r == old(self).substreams()[0],
            final(self).substreams() == old(self).substreams().drop_first(),
    {
        self.substreams.remove(0)
    }

    /// Await a peer-opened bidirectional substream.
    pub fn accept_bi(&mut self) -> (r: Result<(SendSink<Out, SE>, RecvStream<In, RE>), OE>)
        requires
            old(self).has_substream(),
        ensures
            r == old(self).substreams()[0],
            final(self).substreams() == old(self).substreams().drop_first(),
    {
        self.substreams.remove(0)
    }
}

} // verus!
