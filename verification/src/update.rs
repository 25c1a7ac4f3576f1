//! The typed view of a server-side inbound half.
//!
//! After the request, every further inbound frame of a call must project to
//! the message's declared update type. [`UpdateStream`] applies that
//! projection frame by frame: a frame that projects is yielded; end of
//! stream ends the updates cleanly; a receive error or a frame that does
//! not project is posted once on an internal one-shot, after which the
//! stream never yields and never ends. Staying pending after an error is
//! load-bearing: ending instead would let a handler complete normally and
//! race against the cancellation the error must cause. The dispatcher reads
//! the one-shot with [`UpdateStream::take_error`]; once the error is taken,
//! later reads find nothing, a benign no-op.

use vstd::prelude::*;

use crate::chan::RecvPoll;
use crate::chan::RecvStream;
use crate::errors::RpcServerError;
use crate::msg::Inject;
use crate::msg::Msg;
use crate::msg::Service;
use core::marker::PhantomData;

verus! {

/// What the update adapter can post on its one-shot.
#[derive(Debug)]
pub enum UpdateError<RE> {
    /// An inbound frame did not project to the declared update type.
    UnexpectedUpdateMessage,
    /// The substream failed with a receive error.
    RecvError(RE),
}

impl<RE> UpdateError<RE> {
    /// The server-side report of this error.
    pub open spec fn to_server_error_spec<AE, SE>(self) -> RpcServerError<AE, SE, RE> {
        match self {
            UpdateError::UnexpectedUpdateMessage => RpcServerError::UnexpectedUpdateMessage,
            UpdateError::RecvError(e) => RpcServerError::RecvError(e),
        }
    }

    /// Report the error to the server's caller.
    pub fn into_server_error<AE, SE>(self) -> (r: RpcServerError<AE, SE, RE>)
        ensures
            r == self.to_server_error_spec::<AE, SE>(),
    {
        match self {
            UpdateError::UnexpectedUpdateMessage => RpcServerError::UnexpectedUpdateMessage,
            UpdateError::RecvError(e) => RpcServerError::RecvError(e),
        }
    }
}

/// What one poll of an [`UpdateStream`] observes.
pub enum UpdatePoll<U> {
    /// The next update of the call.
    Item(U),
    /// The client closed its send half: the updates ended cleanly.
    End,
    /// Nothing to yield; after an error was posted, the stream stays here
    /// forever.
    Pending,
}

/// How a fully read update sequence ended.
pub enum UpdatesEnd<RE> {
    /// End of stream: the client closed after its last update.
    Ended,
    /// The adapter posted an error; the handler must be cancelled.
    Errored(UpdateError<RE>),
    /// The inbound half pends: more frames may still arrive.
    Starved,
}

/// The updates that the adapter yields from the given inbound frames: the
/// longest prefix of delivered frames that project to the update type.
pub open spec fn updates_of<S: Service, M: Msg<S>, RE>(
    frames: Seq<Result<<S as Service>::Req, RE>>,
) -> Seq<<M as Msg<S>>::Update>
    decreases frames.len(),
{
    if frames.len() == 0 {
        Seq::empty()
    } else {
        match frames[0] {
            Ok(req) => match <<M as Msg<S>>::Update as Inject<<S as Service>::Req>>::project_spec(
                req,
            ) {
                Some(u) => seq![u] + updates_of::<S, M, RE>(frames.drop_first()),
                None => Seq::empty(),
            },
            Err(_) => Seq::empty(),
        }
    }
}

/// How the update sequence over the given inbound frames ends.
pub open spec fn updates_end_of<S: Service, M: Msg<S>, RE>(
    frames: Seq<Result<<S as Service>::Req, RE>>,
    eos: bool,
) -> UpdatesEnd<RE>
    decreases frames.len(),
{
    if frames.len() == 0 {
        if eos {
            UpdatesEnd::Ended
        } else {
            UpdatesEnd::Starved
        }
    } else {
        match frames[0] {
            Ok(req) => match <<M as Msg<S>>::Update as Inject<<S as Service>::Req>>::project_spec(
                req,
            ) {
                Some(_) => updates_end_of::<S, M, RE>(frames.drop_first(), eos),
                None => UpdatesEnd::Errored(UpdateError::UnexpectedUpdateMessage),
            },
            Err(e) => UpdatesEnd::Errored(UpdateError::RecvError(e)),
        }
    }
}

/// The typed view of the inbound half of a server substream, specialised
/// to the update type of the message `M`.
pub struct UpdateStream<S: Service, M: Msg<S>, RE> {
    recv: RecvStream<<S as Service>::Req, RE>,
    fired: bool,
    posted: Option<UpdateError<RE>>,
    _m: PhantomData<M>,
}

impl<S: Service, M: Msg<S>, RE> UpdateStream<S, M, RE> {
    /// The inbound frames still to be read.
    pub closed spec fn frames(self) -> Seq<Result<<S as Service>::Req, RE>> {
        self.recv.frames()
    }

    /// Whether the peer closes the substream after the delivered frames.
    pub closed spec fn eos(self) -> bool {
        self.recv.eos()
    }

    /// Whether the one-shot has fired: the stream then pends forever.
    pub closed spec fn fired(self) -> bool {
        self.fired
    }

    /// The posted error that the dispatcher has not read yet.
    pub closed spec fn posted(self) -> Option<UpdateError<RE>> {
        self.posted
    }

    /// Whether the adapter is still reading frames: nothing posted yet.
    pub open spec fn live(self) -> bool {
        !self.fired() && self.posted() is None
    }

    /// Wrap the inbound half of a substream.
    pub fn new(recv: RecvStream<<S as Service>::Req, RE>) -> (s: Self)
        ensures
            s.frames() == recv.frames(),
            s.eos() == recv.eos(),
            s.live(),
    {
        UpdateStream { recv, fired: false, posted: None, _m: PhantomData }
    }

    /// Read one update.
    ///
    /// While live, this consumes one inbound frame: a frame that projects
    /// to the update type is yielded; end of stream ends the updates; a
    /// receive error or a frame that does not project is posted on the
    /// one-shot and the stream pends, as it then does forever.
    pub fn poll_next(&mut self) -> (r: UpdatePoll<<M as Msg<S>>::Update>)
        ensures
            final(self).eos() == old(self).eos(),
            old(self).fired() ==> {
                &&& r is Pending
                &&& final(self).fired()
                &&& final(self).posted() == old(self).posted()
                &&& final(self).frames() == old(self).frames()
            },
            !old(self).fired() && old(self).frames().len() == 0 ==> {
                &&& !final(self).fired()
                &&& final(self).posted() == old(self).posted()
                &&& final(self).frames() == old(self).frames()
                &&& r == if old(self).eos() {
                    UpdatePoll::<<M as Msg<S>>::Update>::End
                } else {
                    UpdatePoll::<<M as Msg<S>>::Update>::Pending
                }
            },
            !old(self).fired() && old(self).frames().len() > 0 ==> {
                &&& final(self).frames() == old(self).frames().drop_first()
                &&& match old(self).frames()[0] {
                    Ok(req) => match <<M as Msg<S>>::Update as Inject<
                        <S as Service>::Req,
                    >>::project_spec(req) {
                        Some(u) => {
                            &&& r == UpdatePoll::<<M as Msg<S>>::Update>::Item(u)
                            &&& !final(self).fired()
                            &&& final(self).posted() == old(self).posted()
                        },
                        None => {
                            &&& r is Pending
                            &&& final(self).fired()
                            &&& final(self).posted() == Some(
                                UpdateError::<RE>::UnexpectedUpdateMessage,
                            )
                        },
                    },
                    Err(e) => {
                        &&& r is Pending
                        &&& final(self).fired()
                        &&& final(self).posted() == Some(UpdateError::<RE>::RecvError(e))
                    },
                }
            },
    {
        if self.fired {
            return UpdatePoll::Pending;
        }
        match self.recv.poll_next() {
            RecvPoll::Item(req) => match <<M as Msg<S>>::Update as Inject<
                <S as Service>::Req,
            >>::project(req) {
                Some(u) => UpdatePoll::Item(u),
                None => {
                    self.fired = true;
                    self.posted = Some(UpdateError::UnexpectedUpdateMessage);
                    UpdatePoll::Pending
                },
            },
            RecvPoll::Fault(e) => {
                self.fired = true;
                self.posted = Some(UpdateError::RecvError(e));
                UpdatePoll::Pending
            },
            RecvPoll::End => UpdatePoll::End,
            RecvPoll::Pending => UpdatePoll::Pending,
        }
    }

    /// The receive side of the one-shot: the posted error, at most once.
    ///
    /// A one-shot whose sender is gone without having sent must read as
    /// still pending, never as an error of its own; returning `None` both
    /// then and before anything was posted keeps that conversion.
    pub fn take_error(&mut self) -> (r: Option<UpdateError<RE>>)
        ensures
            r == old(self).posted(),
            final(self).posted() is None,
            final(self).fired() == old(self).fired(),
            final(self).frames() == old(self).frames(),
            final(self).eos() == old(self).eos(),
    {
        self.posted.take()
    }

    /// Read the whole update sequence: the yielded updates, and how they
    /// ended. Used by the dispatcher to feed a streaming handler and to
    /// learn, through the one-shot, whether the handler must be cancelled.
    pub fn drain(&mut self) -> (r: (Vec<<M as Msg<S>>::Update>, UpdatesEnd<RE>))
        requires
            old(self).live(),
        ensures
            r.0@ == updates_of::<S, M, RE>(old(self).frames()),
            r.1 == updates_end_of::<S, M, RE>(old(self).frames(), old(self).eos()),
    {
        let ghost orig_frames = self.frames();
        let ghost orig_eos = self.eos();
        let mut ups: Vec<<M as Msg<S>>::Update> = Vec::new();
        loop
            invariant
                orig_frames == old(self).frames(),
                orig_eos == old(self).eos(),
                self.eos() == orig_eos,
                self.live(),
                updates_of::<S, M, RE>(orig_frames) == ups@ + updates_of::<S, M, RE>(
                    self.frames(),
                ),
                updates_end_of::<S, M, RE>(orig_frames, orig_eos) == updates_end_of::<S, M, RE>(
                    self.frames(),
                    self.eos(),
                ),
            decreases self.frames().len(),
        {
            let ghost pre = self.frames();
            let ghost sofar = ups@;
            match self.poll_next() {
                UpdatePoll::Item(u) => {
                    ups.push(u);
                    proof {
                        assert(updates_of::<S, M, RE>(pre) == seq![u] + updates_of::<S, M, RE>(
                            pre.drop_first(),
                        ));
                        assert(sofar.push(u) + updates_of::<S, M, RE>(self.frames()) =~= sofar + (
                        seq![u] + updates_of::<S, M, RE>(self.frames())));
                    }
                },
                UpdatePoll::End => {
                    proof {
                        assert(ups@ + updates_of::<S, M, RE>(self.frames()) =~= ups@);
                    }
                    return (ups, UpdatesEnd::Ended);
                },
                UpdatePoll::Pending => {
                    proof {
                        assert(ups@ + updates_of::<S, M, RE>(pre) =~= ups@);
                    }
                    match self.take_error() {
                        Some(e) => {
                            return (ups, UpdatesEnd::Errored(e));
                        },
                        None => {
                            return (ups, UpdatesEnd::Starved);
                        },
                    }
                },
            }
        }
    }
}

} // verus!
