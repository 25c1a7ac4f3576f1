//! The server dispatcher.
//!
//! [`ServerChannel::accept_one`] accepts a substream and reads its first
//! frame as the request; the caller projects it to a message type and hands
//! the substream, a target value and a handler to the dispatch method of
//! the message's pattern. Each dispatch method drives the handler against
//! the substream under the pattern's termination and cancellation rules: a
//! unary or server-streaming call is cancelled by any further inbound
//! event, and a streaming-update call is cancelled when the update adapter
//! posts an error. Cancellation is a two-way race, biased towards the
//! cancellation branch; a cancelled handler is simply not driven to its
//! response. Every failure is reported once, as a [`RpcServerError`], and
//! ends the call but never the channel: later accepts stay valid.

use vstd::prelude::*;

use crate::chan::Channel;
use crate::chan::RecvPoll;
use crate::chan::RecvStream;
use crate::chan::SendSink;
use crate::chan::fault_after_send;
use crate::chan::refusal;
use crate::errors::RpcServerError;
use crate::msg::BidiStreaming;
use crate::msg::ClientStreaming;
use crate::msg::Inject;
use crate::msg::Msg;
use crate::msg::Rpc;
use crate::msg::ServerStreaming;
use crate::msg::Service;
use crate::update::UpdateStream;
use crate::update::UpdatesEnd;
use crate::update::updates_end_of;
use crate::update::updates_of;
use vstd::pervasive::unreached;

verus! {

/// What an accepted call hands the caller: the request, then the
/// substream's send and receive halves.
pub type AcceptedCall<S, SE, RE> = (
    <S as Service>::Req,
    (SendSink<<S as Service>::Res, SE>, RecvStream<<S as Service>::Req, RE>),
);

/// How sending one response frame changes the sink and what the dispatch
/// method then returns: the frame goes out and the call goes on, or the
/// transport refuses it and the call ends with that send error.
pub open spec fn respond_transition<W, AE, SE, RE>(
    pre: SendSink<W, SE>,
    post: SendSink<W, SE>,
    frame: W,
    r: Result<(), RpcServerError<AE, SE, RE>>,
) -> bool {
    if pre.accepts() {
        &&& r is Ok
        &&& post.sent() == pre.sent().push(frame)
        &&& post.fault() == fault_after_send(pre)
    } else {
        &&& r == Err::<(), RpcServerError<AE, SE, RE>>(RpcServerError::SendError(refusal(pre)))
        &&& post.sent() == pre.sent()
        &&& post.fault() is None
    }
}

/// How sending a whole sequence of response frames changes the sink and
/// what the dispatch method then returns: every frame goes out, or the
/// frames up to the scripted refusal go out and the call ends with that
/// send error.
pub open spec fn respond_all_transition<W, AE, SE, RE>(
    pre: SendSink<W, SE>,
    post: SendSink<W, SE>,
    frames: Seq<W>,
    r: Result<(), RpcServerError<AE, SE, RE>>,
) -> bool {
    match pre.fault() {
        None => {
            &&& r is Ok
            &&& post.sent() == pre.sent() + frames
            &&& post.fault() is None
        },
        Some((k, e)) => {
            if frames.len() <= k {
                &&& r is Ok
                &&& post.sent() == pre.sent() + frames
                &&& post.fault() == Some(((k - frames.len()) as usize, e))
            } else {
                &&& r == Err::<(), RpcServerError<AE, SE, RE>>(RpcServerError::SendError(e))
                &&& post.sent() == pre.sent() + frames.take(k as int)
                &&& post.fault() is None
            }
        },
    }
}

/// The wire frames of a sequence of responses: each response injected into
/// the response sum type.
pub open spec fn response_frames<S: Service, M: Msg<S>>(
    resps: Seq<<M as Msg<S>>::Response>,
) -> Seq<<S as Service>::Res> {
    resps.map_values(
        |x: <M as Msg<S>>::Response|
            <<M as Msg<S>>::Response as Inject<<S as Service>::Res>>::inject_spec(x),
    )
}

/// Inject and send each response in order, stopping at the first refusal.
fn send_responses<S: Service, M: Msg<S>, AE, SE, RE>(
    send: &mut SendSink<<S as Service>::Res, SE>,
    resps: Vec<<M as Msg<S>>::Response>,
) -> (r: Result<(), RpcServerError<AE, SE, RE>>)
    ensures
        respond_all_transition(*old(send), *final(send), response_frames::<S, M>(resps@), r),
{
    let ghost items = response_frames::<S, M>(resps@);
    let mut rest = resps;
    let ghost mut done: int = 0;
    while rest.len() > 0
        invariant
            items == response_frames::<S, M>(resps@),
            0 <= done <= items.len(),
            done + rest@.len() == items.len(),
            response_frames::<S, M>(rest@) == items.skip(done),
            match old(send).fault() {
                None => {
                    &&& send.sent() == old(send).sent() + items.take(done)
                    &&& send.fault() is None
                },
                Some((k, e)) => {
                    &&& done <= k
                    &&& send.sent() == old(send).sent() + items.take(done)
                    &&& send.fault() == Some(((k - done) as usize, e))
                },
            },
        decreases rest.len(),
    {
        let ghost pre_rest = rest@;
        let resp = rest.remove(0);
        proof {
            assert(response_frames::<S, M>(pre_rest)[0] == <<M as Msg<S>>::Response as Inject<
                <S as Service>::Res,
            >>::inject_spec(resp));
            assert(response_frames::<S, M>(rest@) =~= response_frames::<S, M>(
                pre_rest,
            ).drop_first());
            assert(items.skip(done).drop_first() =~= items.skip(done + 1));
            assert(items.skip(done)[0] == items[done]);
        }
        match send.send(<<M as Msg<S>>::Response as Inject<<S as Service>::Res>>::inject(resp)) {
            Ok(()) => {
                proof {
                    assert(items.take(done + 1) =~= items.take(done).push(items[done]));
                    assert(old(send).sent() + items.take(done + 1) =~= (old(send).sent()
                        + items.take(done)).push(items[done]));
                    done = done + 1;
                }
            },
            Err(e) => {
                return Err(RpcServerError::SendError(e));
            },
        }
    }
    proof {
        assert(items.take(done) =~= items);
        assert(old(send).sent() + items =~= send.sent());
    }
    Ok(())
}

/// Select the message a request frame starts: its projection to `M`, or
/// [`RpcServerError::UnexpectedStartMessage`] for any frame that `M`'s
/// injection did not produce.
pub fn project_request<S: Service, M: Msg<S>, AE, SE, RE>(req: <S as Service>::Req) -> (r: Result<
    M,
    RpcServerError<AE, SE, RE>,
>)
    ensures
        r == match <M as Inject<<S as Service>::Req>>::project_spec(req) {
            Some(m) => Ok::<M, RpcServerError<AE, SE, RE>>(m),
            None => Err::<M, RpcServerError<AE, SE, RE>>(RpcServerError::UnexpectedStartMessage),
        },
{
    match <M as Inject<<S as Service>::Req>>::project(req) {
        Some(m) => Ok(m),
        None => Err(RpcServerError::UnexpectedStartMessage),
    }
}

/// The typed server side of a service over a channel.
pub struct ServerChannel<S: Service, AE, SE, RE> {
    channel: Channel<<S as Service>::Req, <S as Service>::Res, AE, SE, RE>,
}

impl<S: Service, AE, SE, RE> ServerChannel<S, AE, SE, RE> {
    /// The substreams the channel will yield to this server, in order.
    pub closed spec fn substreams(self) -> Seq<
        Result<(SendSink<<S as Service>::Res, SE>, RecvStream<<S as Service>::Req, RE>), AE>,
    > {
        self.channel.substreams()
    }

    /// Whether another call can be accepted.
    pub open spec fn has_call(self) -> bool {
        self.substreams().len() > 0
    }

    /// Whether the next accepted call's first read would complete.
    pub open spec fn next_request_determined(self) -> bool {
        match self.substreams()[0] {
            Ok((_, recv)) => recv.determined(),
            Err(_) => true,
        }
    }

    /// Wrap the server side of a channel.
    pub fn new(channel: Channel<<S as Service>::Req, <S as Service>::Res, AE, SE, RE>) -> (c: Self)
        ensures
            c.substreams() == channel.substreams(),
    {
        ServerChannel { channel }
    }

    /// Accept one substream and read its first frame: the request that
    /// tells the server what the call wants. Returns the request and the
    /// substream halves for the dispatch method the caller selects.
    pub fn accept_one(&mut self) -> (r: Result<
        AcceptedCall<S, SE, RE>,
        RpcServerError<AE, SE, RE>,
    >)
        requires
            old(self).has_call(),
            old(self).next_request_determined(),
        ensures
            final(self).substreams() == old(self).substreams().drop_first(),
            match old(self).substreams()[0] {
                Err(ae) => r == Err::<AcceptedCall<S, SE, RE>, RpcServerError<AE, SE, RE>>(
                    RpcServerError::AcceptBiError(ae),
                ),
                Ok((sink, recv)) => if recv.frames().len() == 0 {
                    r == Err::<AcceptedCall<S, SE, RE>, RpcServerError<AE, SE, RE>>(
                        RpcServerError::EarlyClose,
                    )
                } else {
                    match recv.frames()[0] {
                        Err(e) => r == Err::<AcceptedCall<S, SE, RE>, RpcServerError<AE, SE, RE>>(
                            RpcServerError::RecvError(e),
                        ),
                        Ok(req) => r matches Ok((q, (s2, r2))) && q == req && s2 == sink
                            && r2.frames() == recv.frames().drop_first() && r2.eos() == recv.eos(),
                    }
                },
            },
    {
        match self.channel.accept_bi() {
            Err(ae) => Err(RpcServerError::AcceptBiError(ae)),
            Ok((sink, mut recv)) => match recv.next() {
                None => Err(RpcServerError::EarlyClose),
                Some(Err(e)) => Err(RpcServerError::RecvError(e)),
                Some(Ok(req)) => Ok((req, (sink, recv))),
            },
        }
    }

    /// Drive a unary handler: race the handler's response against one more
    /// read of the inbound half, biased towards the read. Any inbound
    /// event at all — an update frame, an end of stream, a receive error —
    /// cancels the call with
    /// [`RpcServerError::UnexpectedUpdateMessage`]; otherwise the response
    /// is injected and sent.
    pub fn rpc<M: Msg<S, Pattern = Rpc>, T, F: FnOnce(T, M) -> <M as Msg<S>>::Response>(
        &self,
        req: M,
        send: &mut SendSink<<S as Service>::Res, SE>,
        recv: RecvStream<<S as Service>::Req, RE>,
        target: T,
        f: F,
    ) -> (r: Result<(), RpcServerError<AE, SE, RE>>)
        requires
            call_requires(f, (target, req)),
        ensures
            recv.determined() ==> {
                &&& r == Err::<(), RpcServerError<AE, SE, RE>>(
                    RpcServerError::UnexpectedUpdateMessage,
                )
                &&& final(send).sent() == old(send).sent()
                &&& final(send).fault() == old(send).fault()
            },
            !recv.determined() ==> exists|resp: <M as Msg<S>>::Response|
                {
                    &&& #[trigger] call_ensures(f, (target, req), resp)
                    &&& respond_transition(
                        *old(send),
                        *final(send),
                        <<M as Msg<S>>::Response as Inject<<S as Service>::Res>>::inject_spec(
                            resp,
                        ),
                        r,
                    )
                },
    {
        let mut recv = recv;
        match recv.poll_next() {
            RecvPoll::Pending => {
                let resp = f(target, req);
                match send.send(
                    <<M as Msg<S>>::Response as Inject<<S as Service>::Res>>::inject(resp),
                ) {
                    Ok(()) => Ok(()),
                    Err(e) => Err(RpcServerError::SendError(e)),
                }
            },
            _ => Err(RpcServerError::UnexpectedUpdateMessage),
        }
    }

    /// Drive a server-streaming handler: race the handler's stream against
    /// one more read of the inbound half, biased towards the read. Any
    /// inbound event cancels the call with
    /// [`RpcServerError::UnexpectedUpdateMessage`]; otherwise every
    /// response of the handler is injected and sent in order, a send error
    /// being terminal.
    pub fn server_streaming<
        M: Msg<S, Pattern = ServerStreaming>,
        T,
        F: FnOnce(T, M) -> Vec<<M as Msg<S>>::Response>,
    >(
        &self,
        req: M,
        send: &mut SendSink<<S as Service>::Res, SE>,
        recv: RecvStream<<S as Service>::Req, RE>,
        target: T,
        f: F,
    ) -> (r: Result<(), RpcServerError<AE, SE, RE>>)
        requires
            call_requires(f, (target, req)),
        ensures
            recv.determined() ==> {
                &&& r == Err::<(), RpcServerError<AE, SE, RE>>(
                    RpcServerError::UnexpectedUpdateMessage,
                )
                &&& final(send).sent() == old(send).sent()
                &&& final(send).fault() == old(send).fault()
            },
            !recv.determined() ==> exists|resps: Vec<<M as Msg<S>>::Response>|
                {
                    &&& #[trigger] call_ensures(f, (target, req), resps)
                    &&& respond_all_transition(
                        *old(send),
                        *final(send),
                        response_frames::<S, M>(resps@),
                        r,
                    )
                },
    {
        let mut recv = recv;
        match recv.poll_next() {
            RecvPoll::Pending => {
                let resps = f(target, req);
                send_responses::<S, M, AE, SE, RE>(send, resps)
            },
            _ => Err(RpcServerError::UnexpectedUpdateMessage),
        }
    }

    /// Drive a client-streaming handler: hand it the request and the typed
    /// updates, racing it against the update adapter's one-shot. If the
    /// adapter posts an error — a frame that is no update of this message,
    /// or a receive error — the handler is cancelled and the error
    /// reported; otherwise the handler's single response is injected and
    /// sent as in a unary call.
    pub fn client_streaming<
        M: Msg<S, Pattern = ClientStreaming>,
        T,
        F: FnOnce(T, M, Vec<<M as Msg<S>>::Update>) -> <M as Msg<S>>::Response,
    >(
        &self,
        req: M,
        send: &mut SendSink<<S as Service>::Res, SE>,
        recv: RecvStream<<S as Service>::Req, RE>,
        target: T,
        f: F,
    ) -> (r: Result<(), RpcServerError<AE, SE, RE>>)
        requires
            !(updates_end_of::<S, M, RE>(recv.frames(), recv.eos()) is Starved),
            forall|ups: Vec<<M as Msg<S>>::Update>|
                ups@ == updates_of::<S, M, RE>(recv.frames()) ==> #[trigger] call_requires(
                    f,
                    (target, req, ups),
                ),
        ensures
            match updates_end_of::<S, M, RE>(recv.frames(), recv.eos()) {
                UpdatesEnd::Errored(ue) => {
                    &&& r == Err::<(), RpcServerError<AE, SE, RE>>(
                        ue.to_server_error_spec::<AE, SE>(),
                    )
                    &&& final(send).sent() == old(send).sent()
                    &&& final(send).fault() == old(send).fault()
                },
                UpdatesEnd::Ended => exists|
                    ups: Vec<<M as Msg<S>>::Update>,
                    resp: <M as Msg<S>>::Response,
                |
                    {
                        &&& ups@ == updates_of::<S, M, RE>(recv.frames())
                        &&& #[trigger] call_ensures(f, (target, req, ups), resp)
                        &&& respond_transition(
                            *old(send),
                            *final(send),
                            <<M as Msg<S>>::Response as Inject<<S as Service>::Res>>::inject_spec(
                                resp,
                            ),
                            r,
                        )
                    },
                UpdatesEnd::Starved => true,
            },
    {
        let mut updates = UpdateStream::<S, M, RE>::new(recv);
        let (ups, end) = updates.drain();
        match end {
            UpdatesEnd::Errored(ue) => Err(ue.into_server_error()),
            UpdatesEnd::Ended => {
                let resp = f(target, req, ups);
                match send.send(
                    <<M as Msg<S>>::Response as Inject<<S as Service>::Res>>::inject(resp),
                ) {
                    Ok(()) => Ok(()),
                    Err(e) => Err(RpcServerError::SendError(e)),
                }
            },
            UpdatesEnd::Starved => unreached(),
        }
    }

    /// Drive a bidirectional handler: hand it the request and the typed
    /// updates, racing it against the update adapter's one-shot. If the
    /// adapter posts an error the handler is cancelled and the error
    /// reported; otherwise every response of the handler is injected and
    /// sent in order, a send error being terminal.
    pub fn bidi_streaming<
        M: Msg<S, Pattern = BidiStreaming>,
        T,
        F: FnOnce(T, M, Vec<<M as Msg<S>>::Update>) -> Vec<<M as Msg<S>>::Response>,
    >(
        &self,
        req: M,
        send: &mut SendSink<<S as Service>::Res, SE>,
        recv: RecvStream<<S as Service>::Req, RE>,
        target: T,
        f: F,
    ) -> (r: Result<(), RpcServerError<AE, SE, RE>>)
        requires
            !(updates_end_of::<S, M, RE>(recv.frames(), recv.eos()) is Starved),
            forall|ups: Vec<<M as Msg<S>>::Update>|
                ups@ == updates_of::<S, M, RE>(recv.frames()) ==> #[trigger] call_requires(
                    f,
                    (target, req, ups),
                ),
        ensures
            match updates_end_of::<S, M, RE>(recv.frames(), recv.eos()) {
                UpdatesEnd::Errored(ue) => {
                    &&& r == Err::<(), RpcServerError<AE, SE, RE>>(
                        ue.to_server_error_spec::<AE, SE>(),
                    )
                    &&& final(send).sent() == old(send).sent()
                    &&& final(send).fault() == old(send).fault()
                },
                UpdatesEnd::Ended => exists|
                    ups: Vec<<M as Msg<S>>::Update>,
                    resps: Vec<<M as Msg<S>>::Response>,
                |
                    {
                        &&& ups@ == updates_of::<S, M, RE>(recv.frames())
                        &&& #[trigger] call_ensures(f, (target, req, ups), resps)
                        &&& respond_all_transition(
                            *old(send),
                            *final(send),
                            response_frames::<S, M>(resps@),
                            r,
                        )
                    },
                UpdatesEnd::Starved => true,
            },
    {
        let mut updates = UpdateStream::<S, M, RE>::new(recv);
        let (ups, end) = updates.drain();
        match end {
            UpdatesEnd::Errored(ue) => Err(ue.into_server_error()),
            UpdatesEnd::Ended => {
                let resps = f(target, req, ups);
                send_responses::<S, M, AE, SE, RE>(send, resps)
            },
            UpdatesEnd::Starved => unreached(),
        }
    }
}

} // verus!
