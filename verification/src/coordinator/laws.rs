//! What holds of a coordinator in every phase and after every run of requests.

use crate::coordinator::{effect_of, next_phase, Effect, Phase, Request};
use vstd::prelude::*;

verus! {

/// The phase that a coordinator reaches from `phase` after `requests`, in
/// their order.
pub open spec fn phase_after(phase: Phase, requests: Seq<Request>) -> Phase
    decreases requests.len(),
{
    if requests.len() == 0 {
        phase
    } else {
        phase_after(next_phase(phase, requests[0]), requests.drop_first())
    }
}

/// How many of `requests`, taken in their order from `phase`, ask the owner
/// for anything.
pub open spec fn effects_asked(phase: Phase, requests: Seq<Request>) -> nat
    decreases requests.len(),
{
    if requests.len() == 0 {
        0
    } else {
        let first: nat = if effect_of(phase, requests[0]) == Effect::Nothing {
            0
        } else {
            1
        };
        first + effects_asked(next_phase(phase, requests[0]), requests.drop_first())
    }
}

/// Closing is idempotent: a second close changes nothing and asks for
/// nothing, whether or not a signal came first, and no close ever notifies.
pub proof fn law_close_is_idempotent(phase: Phase)
    ensures
        next_phase(next_phase(phase, Request::Close), Request::Close) == next_phase(
            phase,
            Request::Close,
        ),
        effect_of(next_phase(phase, Request::Close), Request::Close) == Effect::Nothing,
        !(effect_of(phase, Request::Close) is Notify),
        phase == Phase::Signaled ==> next_phase(phase, Request::Close) == phase && effect_of(
            phase,
            Request::Close,
        ) == Effect::Nothing,
{
}

/// Once the signal has arrived the coordinator stays signaled, whatever
/// follows.
pub proof fn law_done_is_permanent(requests: Seq<Request>)
    ensures
        phase_after(Phase::Signaled, requests) == Phase::Signaled,
    decreases requests.len(),
{
    if requests.len() > 0 {
        law_done_is_permanent(requests.drop_first());
    }
}

/// Over any run of requests the owner is asked to act at most once: to notify
/// the subscribers or to release the listener, never both and never twice.
/// A coordinator that no longer listens asks for nothing.
pub proof fn law_acts_at_most_once(phase: Phase, requests: Seq<Request>)
    ensures
        effects_asked(phase, requests) <= 1,
        phase != Phase::Listening ==> effects_asked(phase, requests) == 0,
    decreases requests.len(),
{
    if requests.len() > 0 {
        law_acts_at_most_once(next_phase(phase, requests[0]), requests.drop_first());
    }
}

} // verus!
