//! What holds of every run, whatever is observed and in whatever order.

use crate::orchestration::{forwarded, next, Directive, Event, RunError, Stage, INTERRUPTED};
use vstd::prelude::*;

verus! {

/// The stage that a run reaches from `stage` after `events`, in their order.
pub open spec fn stage_after<S, E>(stage: Stage<E>, events: Seq<Event<S, E>>) -> Stage<E>
    decreases events.len(),
{
    if events.len() == 0 {
        stage
    } else {
        stage_after(next(stage, events[0]).0, events.drop_first())
    }
}

/// The directives that `events` get, in their order, from `stage` on.
pub open spec fn directives<S, E>(stage: Stage<E>, events: Seq<Event<S, E>>) -> Seq<
    Directive<S, E>,
>
    decreases events.len(),
{
    if events.len() == 0 {
        Seq::empty()
    } else {
        seq![next(stage, events[0]).1] + directives(
            next(stage, events[0]).0,
            events.drop_first(),
        )
    }
}

/// How many of `directives` end the run.
pub open spec fn exits<S, E>(directives: Seq<Directive<S, E>>) -> nat
    decreases directives.len(),
{
    if directives.len() == 0 {
        0
    } else {
        let first: nat = if directives[0] is Exit {
            1
        } else {
            0
        };
        first + exits(directives.drop_first())
    }
}

/// A signal that has fired wins the race, whether or not the pipeline has
/// finished too: the run exits as interrupted, and its coordinator is not
/// closed first.
pub proof fn law_signal_wins<S, E>(finished: Option<Result<i32, E>>)
    ensures
        next::<S, E>(Stage::Racing, Event::Polled { signal_fired: true, finished }) == (
            Stage::<E>::Done,
            Directive::<S, E>::Exit(Ok(INTERRUPTED)),
        ),
{
}

/// A pipeline that finishes with no signal fired has its own result go out,
/// after the coordinator was closed and not before.
pub proof fn law_pipeline_result_goes_out<S, E>(result: Result<i32, E>)
    ensures
        next::<S, E>(Stage::Racing, Event::Polled { signal_fired: false, finished: Some(result) })
            == (Stage::Closing(result), Directive::<S, E>::CloseCoordinator),
        next::<S, E>(Stage::Closing(result), Event::CoordinatorClosed) == (
            Stage::<E>::Done,
            Directive::Exit(forwarded::<S, E>(result)),
        ),
        result matches Ok(code) ==> forwarded::<S, E>(result) == Ok::<i32, RunError<S, E>>(code),
{
}

/// While neither side has finished the race goes on.
pub proof fn law_race_goes_on<S, E>()
    ensures
        next::<S, E>(Stage::Racing, Event::Polled { signal_fired: false, finished: None }) == (
            Stage::<E>::Racing,
            Directive::<S, E>::Race,
        ),
{
}

/// Where the listener cannot be installed the run ends with that failure, and
/// nothing that follows starts a pipeline or a race.
pub proof fn law_setup_failure_ends_run<S, E>(cause: S, events: Seq<Event<S, E>>)
    ensures
        next::<S, E>(Stage::Setup, Event::ListenerFailed(cause)) == (
            Stage::<E>::Done,
            Directive::<S, E>::Exit(Err(RunError::SignalSetup(cause))),
        ),
        forall|i: int|
            0 <= i < events.len() ==> #[trigger] directives(Stage::<E>::Done, events)[i]
                == Directive::<S, E>::Nothing,
{
    lemma_done_is_final::<S, E>(events);
}

/// A run exits at most once, and a run that has exited gives no other
/// directive.
pub proof fn law_exits_at_most_once<S, E>(stage: Stage<E>, events: Seq<Event<S, E>>)
    ensures
        exits(directives(stage, events)) <= 1,
        directives(stage, events).len() == events.len(),
        stage is Done ==> exits(directives(stage, events)) == 0,
    decreases events.len(),
{
    if events.len() > 0 {
        let (following, directive) = next(stage, events[0]);
        let rest = directives(following, events.drop_first());
        law_exits_at_most_once(following, events.drop_first());
        assert(directives(stage, events).drop_first() =~= rest);
        assert(directive is Exit ==> following is Done);
    }
}

/// A race is only ever started by a run whose listener was installed and
/// whose pipeline has started.
pub proof fn law_race_needs_both<S, E>(stage: Stage<E>, event: Event<S, E>)
    ensures
        next(stage, event).1 is Race ==> (stage is Ready && event is PipelineStarted) || (stage
            is Racing),
        next(stage, event).1 is StartPipeline ==> stage is Setup && event is ListenerInstalled,
        next(stage, event).1 is CloseCoordinator ==> stage is Racing,
{
}

/// From `Done` every event is answered with `Nothing`, and the run stays
/// done.
pub proof fn lemma_done_is_final<S, E>(events: Seq<Event<S, E>>)
    ensures
        stage_after(Stage::<E>::Done, events) == Stage::<E>::Done,
        directives(Stage::<E>::Done, events).len() == events.len(),
        forall|i: int|
            0 <= i < events.len() ==> #[trigger] directives(Stage::<E>::Done, events)[i]
                == Directive::<S, E>::Nothing,
    decreases events.len(),
{
    if events.len() > 0 {
        lemma_done_is_final::<S, E>(events.drop_first());
        let rest = directives(Stage::<E>::Done, events.drop_first());
        assert(directives(Stage::<E>::Done, events) =~= seq![Directive::<S, E>::Nothing] + rest);
    }
}

} // verus!
