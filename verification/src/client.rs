//! The typed client facade.
//!
//! A [`ClientChannel`] wraps the client side of a channel. For each
//! interaction pattern it has one method that opens a substream, sends the
//! initial request through the message's injection, and hands back typed
//! halves: a write half that injects updates and a read half that projects
//! responses, with every projection failure surfaced as a typed error.
//! Open and send errors come back from the pattern method itself; errors on
//! the returned halves surface per item or when the response is awaited.

use vstd::prelude::*;

use crate::chan::Channel;
use crate::chan::RecvPoll;
use crate::chan::RecvStream;
use crate::chan::SendSink;
use crate::chan::fault_after_send;
use crate::chan::refusal;
use crate::chan::send_transition;
use crate::errors::BidiError;
use crate::errors::BidiItemError;
use crate::errors::ClientStreamingError;
use crate::errors::ClientStreamingItemError;
use crate::errors::RpcClientError;
use crate::errors::StreamingResponseError;
use crate::errors::StreamingResponseItemError;
use crate::msg::BidiStreaming;
use crate::msg::ClientStreaming;
use crate::msg::Inject;
use crate::msg::Msg;
use crate::msg::Rpc;
use crate::msg::ServerStreaming;
use crate::msg::Service;
use core::marker::PhantomData;

verus! {

/// What reading exactly one response from the substream returns: the frame
/// projected to the message's response type, or the typed error saying why
/// there is no response.
pub open spec fn unary_response<S: Service, M: Msg<S>, OE, SE, RE>(
    recv: RecvStream<<S as Service>::Res, RE>,
) -> Result<<M as Msg<S>>::Response, RpcClientError<OE, SE, RE>> {
    if recv.frames().len() == 0 {
        Err(RpcClientError::EarlyClose)
    } else {
        match recv.frames()[0] {
            Err(e) => Err(RpcClientError::RecvError(e)),
            Ok(res) => match <<M as Msg<S>>::Response as Inject<
                <S as Service>::Res,
            >>::project_spec(res) {
                Some(resp) => Ok(resp),
                None => Err(RpcClientError::DowncastError),
            },
        }
    }
}

/// The outcome of a unary call on the given substream: each error variant
/// comes exactly when its phase fails, and the result is the projection of
/// the one response frame.
pub open spec fn rpc_outcome<S: Service, M: Msg<S>, OE, SE, RE>(
    sub: Result<(SendSink<<S as Service>::Req, SE>, RecvStream<<S as Service>::Res, RE>), OE>,
) -> Result<<M as Msg<S>>::Response, RpcClientError<OE, SE, RE>> {
    match sub {
        Err(oe) => Err(RpcClientError::Open(oe)),
        Ok((sink, recv)) => if !sink.accepts() {
            Err(RpcClientError::Send(refusal(sink)))
        } else {
            unary_response::<S, M, OE, SE, RE>(recv)
        },
    }
}

/// The per-item view of a stream of response frames: each delivered frame
/// projected to the response type, a failed projection surfacing as a
/// downcast error and a failed read as a receive error.
pub open spec fn response_item<S: Service, M: Msg<S>, RE>(
    frame: Result<<S as Service>::Res, RE>,
) -> Result<<M as Msg<S>>::Response, StreamingResponseItemError<RE>> {
    match frame {
        Err(e) => Err(StreamingResponseItemError::RecvError(e)),
        Ok(res) => match <<M as Msg<S>>::Response as Inject<<S as Service>::Res>>::project_spec(
            res,
        ) {
            Some(resp) => Ok(resp),
            None => Err(StreamingResponseItemError::DowncastError),
        },
    }
}

/// As [`response_item`], for the bidirectional pattern's error type.
pub open spec fn bidi_item<S: Service, M: Msg<S>, RE>(
    frame: Result<<S as Service>::Res, RE>,
) -> Result<<M as Msg<S>>::Response, BidiItemError<RE>> {
    match frame {
        Err(e) => Err(BidiItemError::RecvError(e)),
        Ok(res) => match <<M as Msg<S>>::Response as Inject<<S as Service>::Res>>::project_spec(
            res,
        ) {
            Some(resp) => Ok(resp),
            None => Err(BidiItemError::DowncastError),
        },
    }
}

/// The typed write half of a streaming call: a sink of the message's
/// update type, injecting each update into the request sum type before it
/// goes out.
pub struct UpdateSink<S: Service, M: Msg<S>, SE> {
    sink: SendSink<<S as Service>::Req, SE>,
    _m: PhantomData<M>,
}

impl<S: Service, M: Msg<S>, SE> UpdateSink<S, M, SE> {
    /// The raw sink under the typed one.
    pub closed spec fn inner(self) -> SendSink<<S as Service>::Req, SE> {
        self.sink
    }

    /// The request frames sent so far: the initial request, then the
    /// injected updates.
    pub open spec fn sent(self) -> Seq<<S as Service>::Req> {
        self.inner().sent()
    }

    /// The scripted refusal of the underlying sink.
    pub open spec fn fault(self) -> Option<(usize, SE)> {
        self.inner().fault()
    }

    /// Send one update, injected into the request sum type.
    pub fn send(&mut self, update: <M as Msg<S>>::Update) -> (r: Result<(), SE>)
        ensures
            send_transition(
                old(self).inner(),
                final(self).inner(),
                <<M as Msg<S>>::Update as Inject<<S as Service>::Req>>::inject_spec(update),
                r,
            ),
    {
        self.sink.send(<<M as Msg<S>>::Update as Inject<<S as Service>::Req>>::inject(update))
    }

    /// Hand out the raw frames sent, giving the sink up.
    pub fn into_sent(self) -> (v: Vec<<S as Service>::Req>)
        ensures
            v@ == self.sent(),
    {
        self.sink.into_sent()
    }
}

/// The read half a server-streaming call returns: the response frames
/// projected item by item, bundled with the call's write half so that the
/// substream stays open for as long as the stream is held. Some transports
/// treat an early write-close as cancelling the call; dropping this stream
/// drops both halves together.
pub struct KeepaliveStream<S: Service, M: Msg<S>, SE, RE> {
    recv: RecvStream<<S as Service>::Res, RE>,
    keepalive: SendSink<<S as Service>::Req, SE>,
    _m: PhantomData<M>,
}

impl<S: Service, M: Msg<S>, SE, RE> KeepaliveStream<S, M, SE, RE> {
    /// The response frames still to be delivered.
    pub closed spec fn frames(self) -> Seq<Result<<S as Service>::Res, RE>> {
        self.recv.frames()
    }

    /// Whether the server closes the substream after them.
    pub closed spec fn eos(self) -> bool {
        self.recv.eos()
    }

    /// The bundled write half that keeps the call alive: it carries the
    /// already sent request and is dropped only with the stream.
    pub closed spec fn keepalive(self) -> SendSink<<S as Service>::Req, SE> {
        self.keepalive
    }

    /// Read one response: the next frame projected to the response type.
    pub fn poll_next(&mut self) -> (r: RecvPoll<
        <M as Msg<S>>::Response,
        StreamingResponseItemError<RE>,
    >)
        ensures
            final(self).eos() == old(self).eos(),
            final(self).keepalive() == old(self).keepalive(),
            old(self).frames().len() > 0 ==> {
                &&& final(self).frames() == old(self).frames().drop_first()
                &&& r == match response_item::<S, M, RE>(old(self).frames()[0]) {
                    Ok(resp) => RecvPoll::<
                        <M as Msg<S>>::Response,
                        StreamingResponseItemError<RE>,
                    >::Item(resp),
                    Err(e) => RecvPoll::<
                        <M as Msg<S>>::Response,
                        StreamingResponseItemError<RE>,
                    >::Fault(e),
                }
            },
            old(self).frames().len() == 0 ==> {
                &&& final(self).frames() == old(self).frames()
                &&& r == if old(self).eos() {
                    RecvPoll::<<M as Msg<S>>::Response, StreamingResponseItemError<RE>>::End
                } else {
                    RecvPoll::<<M as Msg<S>>::Response, StreamingResponseItemError<RE>>::Pending
                }
            },
    {
        match self.recv.poll_next() {
            RecvPoll::Item(res) => match <<M as Msg<S>>::Response as Inject<
                <S as Service>::Res,
            >>::project(res) {
                Some(resp) => RecvPoll::Item(resp),
                None => RecvPoll::Fault(StreamingResponseItemError::DowncastError),
            },
            RecvPoll::Fault(e) => RecvPoll::Fault(StreamingResponseItemError::RecvError(e)),
            RecvPoll::End => RecvPoll::End,
            RecvPoll::Pending => RecvPoll::Pending,
        }
    }
}

/// The read half of a bidirectional call: response frames projected item
/// by item. The write half is handed to the caller separately, so no
/// keepalive is needed here.
pub struct ResponseStream<S: Service, M: Msg<S>, RE> {
    recv: RecvStream<<S as Service>::Res, RE>,
    _m: PhantomData<M>,
}

impl<S: Service, M: Msg<S>, RE> ResponseStream<S, M, RE> {
    /// The response frames still to be delivered.
    pub closed spec fn frames(self) -> Seq<Result<<S as Service>::Res, RE>> {
        self.recv.frames()
    }

    /// Whether the server closes the substream after them.
    pub closed spec fn eos(self) -> bool {
        self.recv.eos()
    }

    /// Read one response: the next frame projected to the response type.
    pub fn poll_next(&mut self) -> (r: RecvPoll<<M as Msg<S>>::Response, BidiItemError<RE>>)
        ensures
            final(self).eos() == old(self).eos(),
            old(self).frames().len() > 0 ==> {
                &&& final(self).frames() == old(self).frames().drop_first()
                &&& r == match bidi_item::<S, M, RE>(old(self).frames()[0]) {
                    Ok(resp) => RecvPoll::<<M as Msg<S>>::Response, BidiItemError<RE>>::Item(resp),
                    Err(e) => RecvPoll::<<M as Msg<S>>::Response, BidiItemError<RE>>::Fault(e),
                }
            },
            old(self).frames().len() == 0 ==> {
                &&& final(self).frames() == old(self).frames()
                &&& r == if old(self).eos() {
                    RecvPoll::<<M as Msg<S>>::Response, BidiItemError<RE>>::End
                } else {
                    RecvPoll::<<M as Msg<S>>::Response, BidiItemError<RE>>::Pending
                }
            },
    {
        match self.recv.poll_next() {
            RecvPoll::Item(res) => match <<M as Msg<S>>::Response as Inject<
                <S as Service>::Res,
            >>::project(res) {
                Some(resp) => RecvPoll::Item(resp),
                None => RecvPoll::Fault(BidiItemError::DowncastError),
            },
            RecvPoll::Fault(e) => RecvPoll::Fault(BidiItemError::RecvError(e)),
            RecvPoll::End => RecvPoll::End,
            RecvPoll::Pending => RecvPoll::Pending,
        }
    }
}

/// What awaiting the single response of a client-streaming call returns.
pub open spec fn client_streaming_response<S: Service, M: Msg<S>, RE>(
    frames: Seq<Result<<S as Service>::Res, RE>>,
) -> Result<<M as Msg<S>>::Response, ClientStreamingItemError<RE>> {
    if frames.len() == 0 {
        Err(ClientStreamingItemError::EarlyClose)
    } else {
        match frames[0] {
            Err(e) => Err(ClientStreamingItemError::RecvError(e)),
            Ok(res) => match <<M as Msg<S>>::Response as Inject<
                <S as Service>::Res,
            >>::project_spec(res) {
                Some(resp) => Ok(resp),
                None => Err(ClientStreamingItemError::DowncastError),
            },
        }
    }
}

/// The pending single response of a client-streaming call: it reads
/// exactly one response frame when awaited.
pub struct ResponseFuture<S: Service, M: Msg<S>, RE> {
    recv: RecvStream<<S as Service>::Res, RE>,
    _m: PhantomData<M>,
}

impl<S: Service, M: Msg<S>, RE> ResponseFuture<S, M, RE> {
    /// The response frames the substream will deliver.
    pub closed spec fn frames(self) -> Seq<Result<<S as Service>::Res, RE>> {
        self.recv.frames()
    }

    /// Whether the server closes the substream after them.
    pub closed spec fn eos(self) -> bool {
        self.recv.eos()
    }

    /// Whether awaiting the response would complete rather than suspend.
    pub open spec fn determined(self) -> bool {
        self.frames().len() > 0 || self.eos()
    }

    /// Await the response: the first frame projected to the response type,
    /// or the typed error saying why there is none.
    pub fn response(self) -> (r: Result<<M as Msg<S>>::Response, ClientStreamingItemError<RE>>)
        requires
            self.determined(),
        ensures
            r == client_streaming_response::<S, M, RE>(self.frames()),
    {
        let mut recv = self.recv;
        match recv.next() {
            None => Err(ClientStreamingItemError::EarlyClose),
            Some(Err(e)) => Err(ClientStreamingItemError::RecvError(e)),
            Some(Ok(res)) => match <<M as Msg<S>>::Response as Inject<
                <S as Service>::Res,
            >>::project(res) {
                Some(resp) => Ok(resp),
                None => Err(ClientStreamingItemError::DowncastError),
            },
        }
    }
}

/// The typed client side of a service over a channel.
pub struct ClientChannel<S: Service, OE, SE, RE> {
    channel: Channel<<S as Service>::Res, <S as Service>::Req, OE, SE, RE>,
}

impl<S: Service, OE, SE, RE> ClientChannel<S, OE, SE, RE> {
    /// The substreams the channel will yield to this client, in order.
    pub closed spec fn substreams(self) -> Seq<
        Result<(SendSink<<S as Service>::Req, SE>, RecvStream<<S as Service>::Res, RE>), OE>,
    > {
        self.channel.substreams()
    }

    /// Whether another call can be opened.
    pub open spec fn has_call(self) -> bool {
        self.substreams().len() > 0
    }

    /// Whether the next call's single response read would complete. Only
    /// the unary pattern awaits a response inside the pattern method, so
    /// only [`ClientChannel::rpc`] asks for this.
    pub open spec fn next_response_determined(self) -> bool {
        match self.substreams()[0] {
            Ok((sink, recv)) => sink.accepts() ==> recv.determined(),
            Err(_) => true,
        }
    }

    /// Wrap the client side of a channel.
    pub fn new(channel: Channel<<S as Service>::Res, <S as Service>::Req, OE, SE, RE>) -> (c: Self)
        ensures
            c.substreams() == channel.substreams(),
    {
        ClientChannel { channel }
    }

    /// A unary call: open a substream, send the one request, read the one
    /// response. The write half is kept alive until the response frame has
    /// arrived, since some transports read an early write-close as
    /// cancelling the call.
    pub fn rpc<M: Msg<S, Pattern = Rpc>>(&mut self, msg: M) -> (r: Result<
        <M as Msg<S>>::Response,
        RpcClientError<OE, SE, RE>,
    >)
        requires
            old(self).has_call(),
            old(self).next_response_determined(),
        ensures
            final(self).substreams() == old(self).substreams().drop_first(),
            r == rpc_outcome::<S, M, OE, SE, RE>(old(self).substreams()[0]),
    {
        match self.channel.open_bi() {
            Err(oe) => Err(RpcClientError::Open(oe)),
            Ok((mut send, mut recv)) => match send.send(msg.inject()) {
                Err(e) => Err(RpcClientError::Send(e)),
                Ok(()) => {
                    let out = match recv.next() {
                        None => Err(RpcClientError::EarlyClose),
                        Some(Err(e)) => Err(RpcClientError::RecvError(e)),
                        Some(Ok(res)) => match <<M as Msg<S>>::Response as Inject<
                            <S as Service>::Res,
                        >>::project(res) {
                            Some(resp) => Ok(resp),
                            None => Err(RpcClientError::DowncastError),
                        },
                    };
                    // keep the write half alive until the answer is here
                    drop_sink(send);
                    out
                },
            },
        }
    }

    /// A server-streaming call: open a substream, send the one request,
    /// and return the stream of projected responses, bundled with the
    /// write half to keep the call alive.
    pub fn server_streaming<M: Msg<S, Pattern = ServerStreaming>>(&mut self, msg: M) -> (r: Result<
        KeepaliveStream<S, M, SE, RE>,
        StreamingResponseError<OE, SE>,
    >)
        requires
            old(self).has_call(),
        ensures
            final(self).substreams() == old(self).substreams().drop_first(),
            match old(self).substreams()[0] {
                Err(oe) => r == Err::<KeepaliveStream<S, M, SE, RE>, _>(
                    StreamingResponseError::<OE, SE>::Open(oe),
                ),
                Ok((sink, recv)) => if !sink.accepts() {
                    r == Err::<KeepaliveStream<S, M, SE, RE>, _>(
                        StreamingResponseError::<OE, SE>::Send(refusal(sink)),
                    )
                } else {
                    r matches Ok(st) && st.frames() == recv.frames() && st.eos() == recv.eos()
                        && st.keepalive().sent() == sink.sent().push(msg.inject_spec())
                        && st.keepalive().fault() == fault_after_send(sink)
                },
            },
    {
        match self.channel.open_bi() {
            Err(oe) => Err(StreamingResponseError::Open(oe)),
            Ok((mut send, recv)) => match send.send(msg.inject()) {
                Err(e) => Err(StreamingResponseError::Send(e)),
                Ok(()) => Ok(KeepaliveStream { recv, keepalive: send, _m: PhantomData }),
            },
        }
    }

    /// A client-streaming call: open a substream, send the one request,
    /// and return the typed write half together with the pending single
    /// response.
    pub fn client_streaming<M: Msg<S, Pattern = ClientStreaming>>(&mut self, msg: M) -> (r: Result<
        (UpdateSink<S, M, SE>, ResponseFuture<S, M, RE>),
        ClientStreamingError<OE, SE>,
    >)
        requires
            old(self).has_call(),
        ensures
            final(self).substreams() == old(self).substreams().drop_first(),
            match old(self).substreams()[0] {
                Err(oe) => r == Err::<(UpdateSink<S, M, SE>, ResponseFuture<S, M, RE>), _>(
                    ClientStreamingError::<OE, SE>::Open(oe),
                ),
                Ok((sink, recv)) => if !sink.accepts() {
                    r == Err::<(UpdateSink<S, M, SE>, ResponseFuture<S, M, RE>), _>(
                        ClientStreamingError::<OE, SE>::Send(refusal(sink)),
                    )
                } else {
                    r matches Ok((us, fut)) && us.sent() == sink.sent().push(
                        msg.inject_spec(),
                    ) && us.fault() == fault_after_send(sink) && fut.frames() == recv.frames()
                        && fut.eos() == recv.eos()
                },
            },
    {
        match self.channel.open_bi() {
            Err(oe) => Err(ClientStreamingError::Open(oe)),
            Ok((mut send, recv)) => match send.send(msg.inject()) {
                Err(e) => Err(ClientStreamingError::Send(e)),
                Ok(()) => Ok(
                    (
                        UpdateSink { sink: send, _m: PhantomData },
                        ResponseFuture { recv, _m: PhantomData },
                    ),
                ),
            },
        }
    }

    /// A bidirectional call: open a substream, send the one request, and
    /// return the typed write half and the stream of projected responses.
    pub fn bidi<M: Msg<S, Pattern = BidiStreaming>>(&mut self, msg: M) -> (r: Result<
        (UpdateSink<S, M, SE>, ResponseStream<S, M, RE>),
        BidiError<OE, SE>,
    >)
        requires
            old(self).has_call(),
        ensures
            final(self).substreams() == old(self).substreams().drop_first(),
            match old(self).substreams()[0] {
                Err(oe) => r == Err::<(UpdateSink<S, M, SE>, ResponseStream<S, M, RE>), _>(
                    BidiError::<OE, SE>::Open(oe),
                ),
                Ok((sink, recv)) => if !sink.accepts() {
                    r == Err::<(UpdateSink<S, M, SE>, ResponseStream<S, M, RE>), _>(
                        BidiError::<OE, SE>::Send(refusal(sink)),
                    )
                } else {
                    r matches Ok((us, st)) && us.sent() == sink.sent().push(
                        msg.inject_spec(),
                    ) && us.fault() == fault_after_send(sink) && st.frames() == recv.frames()
                        && st.eos() == recv.eos()
                },
            },
    {
        match self.channel.open_bi() {
            Err(oe) => Err(BidiError::Open(oe)),
            Ok((mut send, recv)) => match send.send(msg.inject()) {
                Err(e) => Err(BidiError::Send(e)),
                Ok(()) => Ok(
                    (
                        UpdateSink { sink: send, _m: PhantomData },
                        ResponseStream { recv, _m: PhantomData },
                    ),
                ),
            },
        }
    }
}

/// Give a write half up, closing the client's sending side of the call.
fn drop_sink<T, E>(sink: SendSink<T, E>) {
    let _ = sink;
}

} // verus!
