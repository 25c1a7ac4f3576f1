//! The laws the typed layer lives by.
//!
//! Every contract in this crate speaks through a message's injections and
//! projections; these proof functions state once, for every service and
//! message, what that machinery guarantees: projections invert injections,
//! a wire value no injection produced is rejected, the typed halves on the
//! two sides of an error-free substream observe the same values, and a
//! closed inbound half always resolves the update adapter, so a handler
//! whose client is gone observes the end or an error after finitely many
//! polls.

use vstd::prelude::*;

use crate::client::response_item;
use crate::errors::StreamingResponseItemError;
use crate::msg::Inject;
use crate::msg::Msg;
use crate::msg::Service;
use crate::server::response_frames;
use crate::update::UpdatesEnd;
use crate::update::updates_end_of;
use crate::update::updates_of;

verus! {

/// A message projects back from its own injection: for every service `S`,
/// message `M` and `m: M`, projecting `m`'s request frame yields `m`.
pub proof fn lemma_msg_round_trip<S: Service, M: Msg<S>>(m: M)
    ensures
        <M as Inject<<S as Service>::Req>>::project_spec(m.inject_spec()) == Some(m),
{
    m.lemma_project_inject();
}

/// As [`lemma_msg_round_trip`], for a message's update type.
pub proof fn lemma_update_round_trip<S: Service, M: Msg<S>>(u: <M as Msg<S>>::Update)
    ensures
        <<M as Msg<S>>::Update as Inject<<S as Service>::Req>>::project_spec(u.inject_spec())
            == Some(u),
{
    u.lemma_project_inject();
}

/// As [`lemma_msg_round_trip`], for a message's response type.
pub proof fn lemma_response_round_trip<S: Service, M: Msg<S>>(resp: <M as Msg<S>>::Response)
    ensures
        <<M as Msg<S>>::Response as Inject<<S as Service>::Res>>::project_spec(resp.inject_spec())
            == Some(resp),
{
    resp.lemma_project_inject();
}

/// A wire value that no injection of `M` produced fails to project to `M`:
/// together with the dispatcher's contract, the server then reports an
/// unexpected start message at dispatch selection, or an unexpected update
/// message mid-call when the value arrives as an update.
pub proof fn lemma_foreign_value_rejected<W, T: Inject<W>>(w: W)
    requires
        forall|t: T| w != #[trigger] t.inject_spec(),
    ensures
        <T as Inject<W>>::project_spec(w) is None,
{
    <T as Inject<W>>::lemma_inject_project(w);
    if <T as Inject<W>>::project_spec(w) is Some {
        let t = <T as Inject<W>>::project_spec(w)->Some_0;
        assert(w != t.inject_spec());
        assert(false);
    }
}

/// The inbound frames a client that sends the updates `ups` in order over
/// an error-free substream delivers to the server.
pub open spec fn update_frames<S: Service, M: Msg<S>, RE>(
    ups: Seq<<M as Msg<S>>::Update>,
) -> Seq<Result<<S as Service>::Req, RE>> {
    ups.map_values(
        |u: <M as Msg<S>>::Update|
            Ok(<<M as Msg<S>>::Update as Inject<<S as Service>::Req>>::inject_spec(u)),
    )
}

/// The halves agree, client to server: if the substream delivers, in
/// order and without error, exactly the frames of the updates a client
/// sent, the server's update adapter yields exactly those updates, ending
/// cleanly when the client closed and starving otherwise.
pub proof fn lemma_updates_agree<S: Service, M: Msg<S>, RE>(
    ups: Seq<<M as Msg<S>>::Update>,
    eos: bool,
)
    ensures
        updates_of::<S, M, RE>(update_frames::<S, M, RE>(ups)) == ups,
        updates_end_of::<S, M, RE>(update_frames::<S, M, RE>(ups), eos) == if eos {
            UpdatesEnd::<RE>::Ended
        } else {
            UpdatesEnd::<RE>::Starved
        },
    decreases ups.len(),
{
    let frames = update_frames::<S, M, RE>(ups);
    if ups.len() == 0 {
        assert(frames.len() == 0);
        assert(updates_of::<S, M, RE>(frames) =~= ups);
    } else {
        let u = ups[0];
        u.lemma_project_inject();
        assert(frames[0] == Ok::<<S as Service>::Req, RE>(u.inject_spec()));
        lemma_updates_agree::<S, M, RE>(ups.drop_first(), eos);
        assert(frames.drop_first() =~= update_frames::<S, M, RE>(ups.drop_first()));
        assert(updates_of::<S, M, RE>(frames) == seq![u] + updates_of::<S, M, RE>(
            frames.drop_first(),
        ));
        assert(seq![u] + ups.drop_first() =~= ups);
    }
}

/// The response frames a server that sends the responses `resps` in order
/// over an error-free substream delivers to the client.
pub open spec fn delivered_responses<S: Service, M: Msg<S>, RE>(
    resps: Seq<<M as Msg<S>>::Response>,
) -> Seq<Result<<S as Service>::Res, RE>> {
    response_frames::<S, M>(resps).map_values(|w: <S as Service>::Res| Ok(w))
}

/// The halves agree, server to client: if the substream delivers, in
/// order and without error, exactly the frames of the responses a server
/// sent, the client's typed read half projects every one of them back to
/// the response that was sent.
pub proof fn lemma_responses_agree<S: Service, M: Msg<S>, RE>(resps: Seq<<M as Msg<S>>::Response>)
    ensures
        delivered_responses::<S, M, RE>(resps).len() == resps.len(),
        forall|i: int|
            0 <= i < resps.len() ==> response_item::<S, M, RE>(
                #[trigger] delivered_responses::<S, M, RE>(resps)[i],
            ) == Ok::<<M as Msg<S>>::Response, StreamingResponseItemError<RE>>(
                resps[i],
            ),
{
    assert forall|i: int| 0 <= i < resps.len() implies response_item::<S, M, RE>(
        #[trigger] delivered_responses::<S, M, RE>(resps)[i],
    ) == Ok::<<M as Msg<S>>::Response, StreamingResponseItemError<RE>>(
        resps[i],
    ) by {
        assert(delivered_responses::<S, M, RE>(resps)[i] == Ok::<<S as Service>::Res, RE>(
            resps[i].inject_spec(),
        ));
        resps[i].lemma_project_inject();
    }
}

/// A closed inbound half resolves the update adapter: once the client's
/// handles are gone, reading the updates ends cleanly or posts an error
/// within one poll per remaining frame — it never starves. With the
/// dispatcher's contract, the handler of such a call observes end of
/// stream or is cancelled by a receive or protocol error.
pub proof fn lemma_closed_inbound_resolves<S: Service, M: Msg<S>, RE>(
    frames: Seq<Result<<S as Service>::Req, RE>>,
)
    ensures
        !(updates_end_of::<S, M, RE>(frames, true) is Starved),
    decreases frames.len(),
{
    if frames.len() > 0 {
        match frames[0] {
            Ok(req) => {
                if <<M as Msg<S>>::Update as Inject<<S as Service>::Req>>::project_spec(
                    req,
                ) is Some {
                    lemma_closed_inbound_resolves::<S, M, RE>(frames.drop_first());
                }
            },
            Err(_) => {
            },
        }
    }
}

} // verus!
