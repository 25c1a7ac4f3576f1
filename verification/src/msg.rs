//! Service and message typing.
//!
//! A [`Service`] binds a request sum type to a response sum type. A message
//! type is a variant of the request sum; its updates are further request
//! variants and its responses are variants of the response sum. The
//! [`Inject`] trait captures one such variant: a total injection into the
//! sum type and a partial projection back, with the two laws that make the
//! pair an embedding.

use vstd::prelude::*;

verus! {

/// A value type embedded as one variant of a wire sum type `W`.
///
/// `inject` is total; `project` succeeds exactly on the values that
/// `inject` produces, and then returns the value that was injected.
pub trait Inject<W>: Sized {
    /// What [`Self::inject`] returns.
    spec fn inject_spec(self) -> W;

    /// What [`Self::project`] returns.
    spec fn project_spec(w: W) -> Option<Self>;

    /// Projection inverts injection: a value injected into the sum type
    /// projects back to itself.
    proof fn lemma_project_inject(self)
        ensures
            Self::project_spec(self.inject_spec()) == Some(self),
    ;

    /// Projection succeeds only on injected values: any wire value that
    /// projects to `m` is exactly `m` injected.
    proof fn lemma_inject_project(w: W)
        ensures
            Self::project_spec(w) matches Some(m) ==> m.inject_spec() == w,
    ;

    /// Embed the value into the wire sum type.
    fn inject(self) -> (w: W)
        ensures
            w == self.inject_spec(),
    ;

    /// Try to recover the value from a wire sum value.
    fn project(w: W) -> (r: Option<Self>)
        ensures
            r == Self::project_spec(w),
    ;
}

/// A service: a request sum type and a response sum type.
pub trait Service: Sized {
    /// The request sum type carried from client to server.
    type Req;

    /// The response sum type carried from server to client.
    type Res;
}

/// One of the four interaction shapes a message can declare.
pub trait InteractionPattern {
}

/// Single request, single response.
pub struct Rpc;

impl InteractionPattern for Rpc {
}

/// The client streams updates, the server sends a single response.
pub struct ClientStreaming;

impl InteractionPattern for ClientStreaming {
}

/// Single request, the server streams responses.
pub struct ServerStreaming;

impl InteractionPattern for ServerStreaming {
}

/// Both sides stream.
pub struct BidiStreaming;

impl InteractionPattern for BidiStreaming {
}

/// A message for a service.
///
/// For each service and each message, only one interaction pattern can be
/// declared.
pub trait Msg<S: Service>: Inject<S::Req> {
    /// The type of the updates the client may stream after the request.
    type Update: Inject<S::Req>;

    /// The type of the responses the server sends back.
    type Response: Inject<S::Res>;

    /// The interaction pattern of the message.
    type Pattern: InteractionPattern;
}

/// A message with the unary pattern: no updates, a single response.
///
/// Declaring [`RpcMsg`] gives the message the [`Rpc`] pattern, with the
/// message itself standing in as its (never sent) update type.
pub trait RpcMsg<S: Service>: Inject<S::Req> {
    /// The type of the single response.
    type Response: Inject<S::Res>;
}

impl<S: Service, T: RpcMsg<S>> Msg<S> for T {
    type Update = Self;

    type Response = <T as RpcMsg<S>>::Response;

    type Pattern = Rpc;
}

} // verus!
