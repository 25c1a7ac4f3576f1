//! A typed, transport-agnostic RPC core.
//!
//! A *service* pairs a request sum type with a response sum type; each
//! *message* of the service declares its update type, its response type and
//! one of four interaction patterns (unary, client-streaming,
//! server-streaming, bidirectional). On top of an abstract bidirectional
//! channel, the crate provides a typed client facade, a server dispatcher
//! that drives one handler per accepted call, and an adapter that downcasts
//! inbound frames to a message's update type.

mod chan;
mod client;
mod errors;
mod laws;
mod msg;
mod server;
mod update;

pub use chan::Channel;
pub use chan::RecvPoll;
pub use chan::RecvStream;
pub use chan::SendSink;
pub use chan::fault_after_send;
pub use chan::refusal;
pub use chan::send_transition;
pub use client::ClientChannel;
pub use client::KeepaliveStream;
pub use client::ResponseFuture;
pub use client::ResponseStream;
pub use client::UpdateSink;
pub use client::bidi_item;
pub use client::client_streaming_response;
pub use client::response_item;
pub use client::rpc_outcome;
pub use client::unary_response;
pub use errors::BidiError;
pub use errors::BidiItemError;
pub use errors::ClientStreamingError;
pub use errors::ClientStreamingItemError;
pub use errors::RpcClientError;
pub use errors::RpcServerError;
pub use errors::StreamingResponseError;
pub use errors::StreamingResponseItemError;
pub use laws::delivered_responses;
pub use laws::lemma_closed_inbound_resolves;
pub use laws::lemma_foreign_value_rejected;
pub use laws::lemma_msg_round_trip;
pub use laws::lemma_response_round_trip;
pub use laws::lemma_responses_agree;
pub use laws::lemma_update_round_trip;
pub use laws::lemma_updates_agree;
pub use laws::update_frames;
pub use msg::BidiStreaming;
pub use msg::ClientStreaming;
pub use msg::Inject;
pub use msg::InteractionPattern;
pub use msg::Msg;
pub use msg::Rpc;
pub use msg::RpcMsg;
pub use msg::ServerStreaming;
pub use msg::Service;
pub use server::AcceptedCall;
pub use server::ServerChannel;
pub use server::project_request;
pub use server::respond_all_transition;
pub use server::respond_transition;
pub use server::response_frames;
pub use update::UpdateError;
pub use update::UpdatePoll;
pub use update::UpdateStream;
pub use update::UpdatesEnd;
pub use update::updates_end_of;
pub use update::updates_of;
