//! The error taxonomy.
//!
//! Client-side errors are grouped by phase: opening the substream, sending
//! the request, and receiving responses; each pattern's error type carries
//! only the kinds that can occur for it. The server side reports all its
//! failures as [`RpcServerError`]. Errors are surfaced, never retried; an
//! error on send is terminal for the substream but not for the channel.
//!
//! The type parameters are the transport's error types: `OE` for open,
//! `AE` for accept, `SE` for send and `RE` for receive.

use vstd::prelude::*;

verus! {

/// Error of a unary call.
#[derive(Debug)]
pub enum RpcClientError<OE, SE, RE> {
    /// Unable to open a substream to the server.
    Open(OE),
    /// Unable to send the request to the server.
    Send(SE),
    /// The server closed the substream before sending a response.
    EarlyClose,
    /// Unable to receive the response from the server.
    RecvError(RE),
    /// The response did not project to the message's response type.
    DowncastError,
}

/// Error opening a bidirectional-streaming call.
#[derive(Debug)]
pub enum BidiError<OE, SE> {
    /// Unable to open a substream to the server.
    Open(OE),
    /// Unable to send the request to the server.
    Send(SE),
}

/// Error on one response item of a bidirectional-streaming call.
#[derive(Debug)]
pub enum BidiItemError<RE> {
    /// Unable to receive the response from the server.
    RecvError(RE),
    /// The response did not project to the message's response type.
    DowncastError,
}

/// Error opening a client-streaming call.
#[derive(Debug)]
pub enum ClientStreamingError<OE, SE> {
    /// Unable to open a substream to the server.
    Open(OE),
    /// Unable to send the request to the server.
    Send(SE),
}

/// Error awaiting the single response of a client-streaming call.
#[derive(Debug)]
pub enum ClientStreamingItemError<RE> {
    /// The server closed the substream before sending a response.
    EarlyClose,
    /// Unable to receive the response from the server.
    RecvError(RE),
    /// The response did not project to the message's response type.
    DowncastError,
}

/// Error opening a server-streaming call.
#[derive(Debug)]
pub enum StreamingResponseError<OE, SE> {
    /// Unable to open a substream to the server.
    Open(OE),
    /// Unable to send the request to the server.
    Send(SE),
}

/// Error on one response item of a server-streaming call.
#[derive(Debug)]
pub enum StreamingResponseItemError<RE> {
    /// Unable to receive the response from the server.
    RecvError(RE),
    /// The response did not project to the message's response type.
    DowncastError,
}

/// Everything that can go wrong on the server side.
#[derive(Debug)]
pub enum RpcServerError<AE, SE, RE> {
    /// Unable to accept a substream.
    AcceptBiError(AE),
    /// The substream ended before the first message arrived.
    EarlyClose,
    /// The first message did not project to the expected request type.
    UnexpectedStartMessage,
    /// Error receiving a message.
    RecvError(RE),
    /// Error sending a response.
    SendError(SE),
    /// A mid-call message did not project to the declared update type.
    UnexpectedUpdateMessage,
}

} // verus!
