//! Conversion laws on concrete values, every error variant from the input
//! that causes it, and the update adapter's one-shot discipline.

use typed_rpc::Channel;
use typed_rpc::ClientChannel;
use typed_rpc::ClientStreaming;
use typed_rpc::ClientStreamingItemError;
use typed_rpc::Inject;
use typed_rpc::Msg;
use typed_rpc::RecvStream;
use typed_rpc::RpcClientError;
use typed_rpc::RpcMsg;
use typed_rpc::RpcServerError;
use typed_rpc::SendSink;
use typed_rpc::ServerChannel;
use typed_rpc::Service;
use typed_rpc::UpdateError;
use typed_rpc::UpdatePoll;
use typed_rpc::UpdateStream;
use typed_rpc::UpdatesEnd;
use typed_rpc::project_request;

pub struct TallyService;

#[derive(Clone, Copy, PartialEq, Eq, Debug)]
pub enum TallyRequest {
    Ping(u64),
    Tally,
    TallyUpdate(u64),
}

#[derive(Clone, Copy, PartialEq, Eq, Debug)]
pub enum TallyResponse {
    Pong(u64),
    TallyTotal(u64),
}

impl Service for TallyService {
    type Req = TallyRequest;
    type Res = TallyResponse;
}

#[derive(Clone, Copy, PartialEq, Eq, Debug)]
pub struct Ping(pub u64);

#[derive(Clone, Copy, PartialEq, Eq, Debug)]
pub struct Pong(pub u64);

#[derive(Clone, Copy, PartialEq, Eq, Debug)]
pub struct Tally;

#[derive(Clone, Copy, PartialEq, Eq, Debug)]
pub struct TallyUpdate(pub u64);

#[derive(Clone, Copy, PartialEq, Eq, Debug)]
pub struct TallyTotal(pub u64);

impl Inject<TallyRequest> for Ping {
    fn inject(self) -> TallyRequest {
        TallyRequest::Ping(self.0)
    }
    fn project(w: TallyRequest) -> Option<Self> {
        match w {
            TallyRequest::Ping(x) => Some(Ping(x)),
            _ => None,
        }
    }
    fn inject_spec(self) -> TallyRequest {
        self.inject()
    }
    fn project_spec(w: TallyRequest) -> Option<Self> {
        Self::project(w)
    }
    fn lemma_project_inject(self) {}
    fn lemma_inject_project(_w: TallyRequest) {}
}

impl Inject<TallyResponse> for Pong {
    fn inject(self) -> TallyResponse {
        TallyResponse::Pong(self.0)
    }
    fn project(w: TallyResponse) -> Option<Self> {
        match w {
            TallyResponse::Pong(x) => Some(Pong(x)),
            _ => None,
        }
    }
    fn inject_spec(self) -> TallyResponse {
        self.inject()
    }
    fn project_spec(w: TallyResponse) -> Option<Self> {
        Self::project(w)
    }
    fn lemma_project_inject(self) {}
    fn lemma_inject_project(_w: TallyResponse) {}
}

impl Inject<TallyRequest> for Tally {
    fn inject(self) -> TallyRequest {
        TallyRequest::Tally
    }
    fn project(w: TallyRequest) -> Option<Self> {
        match w {
            TallyRequest::Tally => Some(Tally),
            _ => None,
        }
    }
    fn inject_spec(self) -> TallyRequest {
        self.inject()
    }
    fn project_spec(w: TallyRequest) -> Option<Self> {
        Self::project(w)
    }
    fn lemma_project_inject(self) {}
    fn lemma_inject_project(_w: TallyRequest) {}
}

impl Inject<TallyRequest> for TallyUpdate {
    fn inject(self) -> TallyRequest {
        TallyRequest::TallyUpdate(self.0)
    }
    fn project(w: TallyRequest) -> Option<Self> {
        match w {
            TallyRequest::TallyUpdate(x) => Some(TallyUpdate(x)),
            _ => None,
        }
    }
    fn inject_spec(self) -> TallyRequest {
        self.inject()
    }
    fn project_spec(w: TallyRequest) -> Option<Self> {
        Self::project(w)
    }
    fn lemma_project_inject(self) {}
    fn lemma_inject_project(_w: TallyRequest) {}
}

impl Inject<TallyResponse> for TallyTotal {
    fn inject(self) -> TallyResponse {
        TallyResponse::TallyTotal(self.0)
    }
    fn project(w: TallyResponse) -> Option<Self> {
        match w {
            TallyResponse::TallyTotal(x) => Some(TallyTotal(x)),
            _ => None,
        }
    }
    fn inject_spec(self) -> TallyResponse {
        self.inject()
    }
    fn project_spec(w: TallyResponse) -> Option<Self> {
        Self::project(w)
    }
    fn lemma_project_inject(self) {}
    fn lemma_inject_project(_w: TallyResponse) {}
}

impl RpcMsg<TallyService> for Ping {
    type Response = Pong;
}

impl Msg<TallyService> for Tally {
    type Update = TallyUpdate;
    type Response = TallyTotal;
    type Pattern = ClientStreaming;
}

type Sub = Result<(SendSink<TallyResponse, u8>, RecvStream<TallyRequest, u8>), u8>;
type ClientSub = Result<(SendSink<TallyRequest, u8>, RecvStream<TallyResponse, u8>), u8>;

fn client_of(subs: Vec<ClientSub>) -> ClientChannel<TallyService, u8, u8, u8> {
    ClientChannel::new(Channel::new(subs))
}

fn server_of(subs: Vec<Sub>) -> ServerChannel<TallyService, u8, u8, u8> {
    ServerChannel::new(Channel::new(subs))
}

#[test]
fn round_trip_conversions() {
    assert_eq!(Ping::project(Ping(7).inject()), Some(Ping(7)));
    assert_eq!(Pong::project(Pong(9).inject()), Some(Pong(9)));
    assert_eq!(Tally::project(Tally.inject()), Some(Tally));
    assert_eq!(TallyUpdate::project(TallyUpdate(3).inject()), Some(TallyUpdate(3)));
    assert_eq!(TallyTotal::project(TallyTotal(12).inject()), Some(TallyTotal(12)));
}

#[test]
fn foreign_values_rejected() {
    // a request no injection of the message produced fails to project
    assert_eq!(Ping::project(TallyRequest::Tally), None);
    assert_eq!(Tally::project(TallyRequest::Ping(1)), None);
    assert_eq!(TallyUpdate::project(TallyRequest::Ping(1)), None);
    assert_eq!(Pong::project(TallyResponse::TallyTotal(2)), None);
    // at dispatch selection it becomes an unexpected start message
    let r: Result<Tally, RpcServerError<u8, u8, u8>> =
        project_request::<TallyService, Tally, u8, u8, u8>(TallyRequest::Ping(1));
    assert!(matches!(r, Err(RpcServerError::UnexpectedStartMessage)));
}

#[test]
fn client_open_error() {
    let mut client = client_of(vec![Err(42)]);
    let r = client.rpc(Ping(1));
    assert!(matches!(r, Err(RpcClientError::Open(42))));
}

#[test]
fn client_send_error() {
    let recv = RecvStream::new(vec![], true);
    let mut client = client_of(vec![Ok((SendSink::failing_after(0, 9), recv))]);
    let r = client.rpc(Ping(1));
    assert!(matches!(r, Err(RpcClientError::Send(9))));
}

#[test]
fn client_early_close() {
    let recv = RecvStream::new(vec![], true);
    let mut client = client_of(vec![Ok((SendSink::new(), recv))]);
    let r = client.rpc(Ping(1));
    assert!(matches!(r, Err(RpcClientError::EarlyClose)));
}

#[test]
fn client_recv_error() {
    let recv = RecvStream::new(vec![Err(3)], true);
    let mut client = client_of(vec![Ok((SendSink::new(), recv))]);
    let r = client.rpc(Ping(1));
    assert!(matches!(r, Err(RpcClientError::RecvError(3))));
}

#[test]
fn client_downcast_error() {
    // the server answered with a frame of the wrong response type
    let recv = RecvStream::new(vec![Ok(TallyResponse::TallyTotal(5))], true);
    let mut client = client_of(vec![Ok((SendSink::new(), recv))]);
    let r = client.rpc(Ping(1));
    assert!(matches!(r, Err(RpcClientError::DowncastError)));
}

#[test]
fn client_streaming_early_close() {
    let recv = RecvStream::new(vec![], true);
    let mut client = client_of(vec![Ok((SendSink::new(), recv))]);
    let (_sink, fut) = client.client_streaming(Tally).unwrap();
    assert!(matches!(fut.response(), Err(ClientStreamingItemError::EarlyClose)));
}

#[test]
fn server_accept_error() {
    let mut server = server_of(vec![Err(5)]);
    let r = server.accept_one();
    assert!(matches!(r, Err(RpcServerError::AcceptBiError(5))));
}

#[test]
fn server_early_close() {
    let recv = RecvStream::new(vec![], true);
    let mut server = server_of(vec![Ok((SendSink::new(), recv))]);
    let r = server.accept_one();
    assert!(matches!(r, Err(RpcServerError::EarlyClose)));
}

#[test]
fn server_first_frame_recv_error() {
    let recv = RecvStream::new(vec![Err(3)], true);
    let mut server = server_of(vec![Ok((SendSink::new(), recv))]);
    let r = server.accept_one();
    assert!(matches!(r, Err(RpcServerError::RecvError(3))));
}

#[test]
fn server_send_error_is_terminal() {
    let recv = RecvStream::new(vec![Ok(TallyRequest::Ping(4))], false);
    let mut server = server_of(vec![Ok((SendSink::failing_after(0, 8), recv))]);
    let (req, (mut send, recv)) = server.accept_one().unwrap();
    let m: Ping = project_request::<TallyService, Ping, u8, u8, u8>(req).unwrap();
    let out = server.rpc(m, &mut send, recv, (), |_t: (), m: Ping| Pong(m.0));
    assert!(matches!(out, Err(RpcServerError::SendError(8))));
    assert_eq!(send.into_sent(), vec![]);
}

#[test]
fn unary_cancelled_by_client_drop() {
    // the client's handles are gone before the handler answers: the next
    // read completes with end of stream and the race cancels the call
    let recv = RecvStream::new(vec![Ok(TallyRequest::Ping(4))], true);
    let mut server = server_of(vec![Ok((SendSink::new(), recv))]);
    let (req, (mut send, recv)) = server.accept_one().unwrap();
    let m: Ping = project_request::<TallyService, Ping, u8, u8, u8>(req).unwrap();
    let out = server.rpc(m, &mut send, recv, (), |_t: (), m: Ping| Pong(m.0));
    assert!(matches!(out, Err(RpcServerError::UnexpectedUpdateMessage)));
    assert_eq!(send.into_sent(), vec![]);
}

#[test]
fn streaming_handler_sees_end_of_stream_on_drop() {
    // dropping the client-side handles closes the inbound half; the
    // update sequence ends cleanly and the handler runs on what arrived
    let recv = RecvStream::new(
        vec![Ok(TallyRequest::Tally), Ok(TallyRequest::TallyUpdate(2))],
        true,
    );
    let mut server = server_of(vec![Ok((SendSink::new(), recv))]);
    let (req, (mut send, recv)) = server.accept_one().unwrap();
    let m: Tally = project_request::<TallyService, Tally, u8, u8, u8>(req).unwrap();
    server
        .client_streaming(m, &mut send, recv, (), |_t: (), _m: Tally, ups: Vec<TallyUpdate>| {
            TallyTotal(ups.iter().map(|u| u.0).sum())
        })
        .unwrap();
    assert_eq!(send.into_sent(), vec![TallyResponse::TallyTotal(2)]);
}

#[test]
fn streaming_handler_cancelled_by_recv_error() {
    // a receive error on the inbound half cancels the handler: it never
    // runs, and the error is reported once
    let recv = RecvStream::new(
        vec![
            Ok(TallyRequest::Tally),
            Ok(TallyRequest::TallyUpdate(1)),
            Err(7),
        ],
        false,
    );
    let mut server = server_of(vec![Ok((SendSink::new(), recv))]);
    let (req, (mut send, recv)) = server.accept_one().unwrap();
    let m: Tally = project_request::<TallyService, Tally, u8, u8, u8>(req).unwrap();
    let out = server.client_streaming(
        m,
        &mut send,
        recv,
        (),
        |_t: (), _m: Tally, _ups: Vec<TallyUpdate>| -> TallyTotal {
            panic!("handler ran although the call was cancelled")
        },
    );
    assert!(matches!(out, Err(RpcServerError::RecvError(7))));
    assert_eq!(send.into_sent(), vec![]);
}

#[test]
fn streaming_handler_cancelled_by_wrong_update() {
    // a frame that is no update of this message cancels the handler
    let recv = RecvStream::new(
        vec![Ok(TallyRequest::Tally), Ok(TallyRequest::Ping(1))],
        true,
    );
    let mut server = server_of(vec![Ok((SendSink::new(), recv))]);
    let (req, (mut send, recv)) = server.accept_one().unwrap();
    let m: Tally = project_request::<TallyService, Tally, u8, u8, u8>(req).unwrap();
    let out = server.client_streaming(
        m,
        &mut send,
        recv,
        (),
        |_t: (), _m: Tally, _ups: Vec<TallyUpdate>| -> TallyTotal {
            panic!("handler ran although the call was cancelled")
        },
    );
    assert!(matches!(out, Err(RpcServerError::UnexpectedUpdateMessage)));
    assert_eq!(send.into_sent(), vec![]);
}

#[test]
fn update_stream_yields_and_ends() {
    let recv: RecvStream<TallyRequest, u8> = RecvStream::new(
        vec![
            Ok(TallyRequest::TallyUpdate(1)),
            Ok(TallyRequest::TallyUpdate(2)),
        ],
        true,
    );
    let mut ups = UpdateStream::<TallyService, Tally, u8>::new(recv);
    assert!(matches!(ups.poll_next(), UpdatePoll::Item(TallyUpdate(1))));
    assert!(matches!(ups.poll_next(), UpdatePoll::Item(TallyUpdate(2))));
    assert!(matches!(ups.poll_next(), UpdatePoll::End));
}

#[test]
fn update_stream_posts_once_and_pends_forever() {
    // a frame that does not project posts the error on the one-shot and
    // the stream never yields and never ends afterwards; reading the
    // one-shot a second time is a benign no-op
    let recv: RecvStream<TallyRequest, u8> = RecvStream::new(
        vec![
            Ok(TallyRequest::Ping(1)),
            Ok(TallyRequest::TallyUpdate(2)),
        ],
        true,
    );
    let mut ups = UpdateStream::<TallyService, Tally, u8>::new(recv);
    assert!(matches!(ups.poll_next(), UpdatePoll::Pending));
    assert!(matches!(ups.poll_next(), UpdatePoll::Pending));
    assert!(matches!(
        ups.take_error(),
        Some(UpdateError::UnexpectedUpdateMessage)
    ));
    assert!(matches!(ups.take_error(), None));
    assert!(matches!(ups.poll_next(), UpdatePoll::Pending));
}

#[test]
fn update_stream_posts_recv_error() {
    let recv: RecvStream<TallyRequest, u8> = RecvStream::new(vec![Err(7)], true);
    let mut ups = UpdateStream::<TallyService, Tally, u8>::new(recv);
    assert!(matches!(ups.poll_next(), UpdatePoll::Pending));
    assert!(matches!(ups.take_error(), Some(UpdateError::RecvError(7))));
}

#[test]
fn update_stream_drain() {
    let recv: RecvStream<TallyRequest, u8> = RecvStream::new(
        vec![
            Ok(TallyRequest::TallyUpdate(4)),
            Ok(TallyRequest::TallyUpdate(5)),
        ],
        true,
    );
    let mut ups = UpdateStream::<TallyService, Tally, u8>::new(recv);
    let (got, end) = ups.drain();
    assert_eq!(got, vec![TallyUpdate(4), TallyUpdate(5)]);
    assert!(matches!(end, UpdatesEnd::Ended));
}

#[test]
fn unexpected_errors_have_distinct_representations() {
    // the start-message and update-message protocol errors must not read
    // the same
    let start = format!("{:?}", RpcServerError::<u8, u8, u8>::UnexpectedStartMessage);
    let update = format!("{:?}", RpcServerError::<u8, u8, u8>::UnexpectedUpdateMessage);
    assert_ne!(start, update);
}
