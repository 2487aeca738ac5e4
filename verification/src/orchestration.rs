//! The decisions of one run: when it starts racing, who wins the race, and
//! what it exits with.
//!
//! The code that installs the listener, starts the pipeline and waits for
//! either side does no deciding. It reports each thing that happened as an
//! `Event` and carries out the `Directive` that `step` answers with.

use vstd::prelude::*;

pub mod laws;

verus! {

/// The exit code of a run that an operator interrupted.
pub const INTERRUPTED: i32 = 1;

/// Why a run ended without an exit code.
#[derive(Debug, PartialEq, Eq)]
pub enum RunError<S, E> {
    /// The signal listener could not be installed.
    SignalSetup(S),
    /// The pipeline failed, to be built or while it ran.
    Pipeline(E),
}

/// The side that a look at both has found finished first.
#[derive(Debug, PartialEq, Eq)]
pub enum Winner<T> {
    /// The termination signal. It also wins where both have finished.
    Signal,
    /// The pipeline, with what it produced.
    Run(T),
}

/// How far a run has come.
#[derive(Debug, PartialEq, Eq)]
pub enum Stage<E> {
    /// The signal listener is being installed.
    Setup,
    /// The listener is installed and the pipeline is being built.
    Ready,
    /// The pipeline runs, raced against the termination signal.
    Racing,
    /// The pipeline has finished first: the coordinator is being closed
    /// before its result goes out.
    Closing(Result<i32, E>),
    /// The run has exited.
    Done,
}

/// What was observed since the last directive.
#[derive(Debug, PartialEq, Eq)]
pub enum Event<S, E> {
    /// The signal listener was installed.
    ListenerInstalled,
    /// The signal listener could not be installed.
    ListenerFailed(S),
    /// The pipeline was built and has started.
    PipelineStarted,
    /// The pipeline could not be built.
    PipelineFailed(E),
    /// One look at both sides of the race.
    Polled {
        /// Whether the termination signal has fired.
        signal_fired: bool,
        /// What the pipeline produced, if it has finished.
        finished: Option<Result<i32, E>>,
    },
    /// The coordinator was closed and its listener released.
    CoordinatorClosed,
}

/// What to do next.
#[derive(Debug, PartialEq, Eq)]
pub enum Directive<S, E> {
    /// Build and start the pipeline.
    StartPipeline,
    /// Wait until either side can make progress, then look at both.
    Race,
    /// Close the coordinator.
    CloseCoordinator,
    /// End the run with this outcome.
    Exit(Result<i32, RunError<S, E>>),
    /// The event changes nothing.
    Nothing,
}

/// The winner that one look at both sides shows: the signal if it has fired,
/// whatever the pipeline has done; else the pipeline if it has finished.
pub open spec fn winner_of<T>(signal_fired: bool, finished: Option<T>) -> Option<Winner<T>> {
    if signal_fired {
        Some(Winner::Signal)
    } else {
        match finished {
            Some(output) => Some(Winner::Run(output)),
            None => None,
        }
    }
}

/// The outcome that a pipeline's own result becomes.
pub open spec fn forwarded<S, E>(result: Result<i32, E>) -> Result<i32, RunError<S, E>> {
    match result {
        Ok(code) => Ok(code),
        Err(cause) => Err(RunError::Pipeline(cause)),
    }
}

/// The stage and the directive that follow `event` in `stage`. An event that
/// the stage does not wait for changes nothing.
pub open spec fn next<S, E>(stage: Stage<E>, event: Event<S, E>) -> (Stage<E>, Directive<S, E>) {
    match (stage, event) {
        (Stage::Setup, Event::ListenerInstalled) => (Stage::Ready, Directive::StartPipeline),
        (Stage::Setup, Event::ListenerFailed(cause)) => (
            Stage::Done,
            Directive::Exit(Err(RunError::SignalSetup(cause))),
        ),
        (Stage::Ready, Event::PipelineStarted) => (Stage::Racing, Directive::Race),
        (Stage::Ready, Event::PipelineFailed(cause)) => (
            Stage::Done,
            Directive::Exit(Err(RunError::Pipeline(cause))),
        ),
        (Stage::Racing, Event::Polled { signal_fired, finished }) => match winner_of(
            signal_fired,
            finished,
        ) {
            Some(Winner::Signal) => (Stage::Done, Directive::Exit(Ok(INTERRUPTED))),
            Some(Winner::Run(result)) => (Stage::Closing(result), Directive::CloseCoordinator),
            None => (Stage::Racing, Directive::Race),
        },
        (Stage::Closing(result), Event::CoordinatorClosed) => (
            Stage::Done,
            Directive::Exit(forwarded(result)),
        ),
        (stage, _) => (stage, Directive::Nothing),
    }
}

/// Picks the winner of a race from one look at both sides. The signal wins
/// every tie.
pub fn arbitrate<T>(signal_fired: bool, finished: Option<T>) -> (winner: Option<Winner<T>>)
    ensures
        winner == winner_of(signal_fired, finished),
{
    if signal_fired {
        Some(Winner::Signal)
    } else {
        match finished {
            Some(output) => Some(Winner::Run(output)),
            None => None,
        }
    }
}

/// Turns the result of a pipeline that finished first into the outcome of the
/// run: an exit code as it is, a failure as a pipeline failure.
pub fn forward<S, E>(result: Result<i32, E>) -> (outcome: Result<i32, RunError<S, E>>)
    ensures
        outcome == forwarded::<S, E>(result),
{
    match result {
        Ok(code) => Ok(code),
        Err(cause) => Err(RunError::Pipeline(cause)),
    }
}

/// Takes the run one step further: from the stage it is in and the event
/// that was observed to the stage that follows and the directive to carry
/// out.
pub fn step<S, E>(stage: Stage<E>, event: Event<S, E>) -> (r: (Stage<E>, Directive<S, E>))
    ensures
        r == next(stage, event),
{
    match (stage, event) {
        (Stage::Setup, Event::ListenerInstalled) => (Stage::Ready, Directive::StartPipeline),
        (Stage::Setup, Event::ListenerFailed(cause)) => (
            Stage::Done,
            Directive::Exit(Err(RunError::SignalSetup(cause))),
        ),
        (Stage::Ready, Event::PipelineStarted) => (Stage::Racing, Directive::Race),
        (Stage::Ready, Event::PipelineFailed(cause)) => (
            Stage::Done,
            Directive::Exit(Err(RunError::Pipeline(cause))),
        ),
        (Stage::Racing, Event::Polled { signal_fired, finished }) => {
            match arbitrate(signal_fired, finished) {
                Some(Winner::Signal) => (Stage::Done, Directive::Exit(Ok(INTERRUPTED))),
                Some(Winner::Run(result)) => (Stage::Closing(result), Directive::CloseCoordinator),
                None => (Stage::Racing, Directive::Race),
            }
        },
        (Stage::Closing(result), Event::CoordinatorClosed) => (
            Stage::Done,
            Directive::Exit(forward(result)),
        ),
        (stage, _) => (stage, Directive::Nothing),
    }
}

} // verus!
