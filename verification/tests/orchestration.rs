use turbo_run::coordinator::{Coordinator, Effect, Phase, Signal};
use turbo_run::orchestration::{
    arbitrate, forward, step, Directive, Event, RunError, Stage, Winner, INTERRUPTED,
};

type TestStage = Stage<String>;
type TestEvent = Event<String, String>;
type TestDirective = Directive<String, String>;

fn polled(signal_fired: bool, finished: Option<Result<i32, String>>) -> TestEvent {
    Event::Polled { signal_fired, finished }
}

fn racing() -> TestStage {
    let (stage, directive) = step(Stage::Setup, TestEvent::ListenerInstalled);
    assert_eq!(directive, Directive::StartPipeline);
    assert_eq!(stage, Stage::Ready);
    let (stage, directive) = step(stage, TestEvent::PipelineStarted);
    assert_eq!(directive, Directive::Race);
    assert_eq!(stage, Stage::Racing);
    stage
}

#[test]
fn a_pipeline_that_finishes_first_gives_its_own_exit_code() {
    let mut coordinator = Coordinator::new();
    let (stage, directive) = step(racing(), polled(false, Some(Ok(0))));
    assert_eq!(directive, Directive::CloseCoordinator);
    assert_eq!(stage, Stage::Closing(Ok(0)));
    assert_eq!(coordinator.close(), Effect::Release);
    assert_eq!(coordinator.phase(), Phase::Closed);
    let (stage, directive) = step(stage, TestEvent::CoordinatorClosed);
    assert_eq!(directive, Directive::Exit(Ok(0)));
    assert_eq!(stage, Stage::Done);
}

#[test]
fn a_pipeline_exit_code_goes_out_unchanged() {
    for code in [0, 1, 2, 42, -1, i32::MAX, i32::MIN] {
        let (stage, directive) = step(racing(), polled(false, Some(Ok(code))));
        assert_eq!(directive, Directive::CloseCoordinator);
        let (_, directive) = step(stage, TestEvent::CoordinatorClosed);
        assert_eq!(directive, Directive::Exit(Ok(code)));
    }
}

#[test]
fn a_signal_that_fires_first_exits_as_interrupted() {
    let mut coordinator = Coordinator::new();
    assert_eq!(coordinator.signal(Signal::Interrupt), Effect::Notify(Signal::Interrupt));
    let (stage, directive) = step(racing(), polled(coordinator.done(), None));
    assert_eq!(directive, Directive::Exit(Ok(1)));
    assert_eq!(INTERRUPTED, 1);
    assert_eq!(stage, Stage::Done);
}

#[test]
fn a_signal_wins_a_tie() {
    let (stage, directive) = step(racing(), polled(true, Some(Ok(0))));
    assert_eq!(directive, Directive::Exit(Ok(1)));
    assert_eq!(stage, Stage::Done);
    let (stage, directive) = step(racing(), polled(true, Some(Err("failed".to_string()))));
    assert_eq!(directive, Directive::Exit(Ok(1)));
    assert_eq!(stage, Stage::Done);
}

#[test]
fn the_race_goes_on_while_neither_side_has_finished() {
    let mut stage = racing();
    for _ in 0..3 {
        let (following, directive) = step(stage, polled(false, None));
        assert_eq!(directive, Directive::Race);
        assert_eq!(following, Stage::Racing);
        stage = following;
    }
    let (_, directive) = step(stage, polled(true, None));
    assert_eq!(directive, Directive::Exit(Ok(1)));
}

#[test]
fn a_listener_that_cannot_be_installed_ends_the_run() {
    let (stage, directive) = step(
        TestStage::Setup,
        TestEvent::ListenerFailed("no more handlers".to_string()),
    );
    assert_eq!(
        directive,
        Directive::Exit(Err(RunError::SignalSetup("no more handlers".to_string())))
    );
    assert_eq!(stage, Stage::Done);
    // Nothing that is reported afterwards starts a pipeline or a race.
    let later = [
        TestEvent::ListenerInstalled,
        TestEvent::PipelineStarted,
        polled(false, Some(Ok(0))),
        polled(true, None),
        TestEvent::CoordinatorClosed,
    ];
    let mut stage = stage;
    for event in later {
        let (following, directive) = step(stage, event);
        assert_eq!(directive, Directive::Nothing);
        assert_eq!(following, Stage::Done);
        stage = following;
    }
}

#[test]
fn a_pipeline_that_cannot_be_built_ends_the_run() {
    let (stage, directive) = step(TestStage::Setup, TestEvent::ListenerInstalled);
    assert_eq!(directive, Directive::StartPipeline);
    let (stage, directive) = step(stage, TestEvent::PipelineFailed("no client".to_string()));
    assert_eq!(directive, Directive::Exit(Err(RunError::Pipeline("no client".to_string()))));
    assert_eq!(stage, Stage::Done);
}

#[test]
fn a_pipeline_failure_goes_out_after_the_close() {
    let (stage, directive) = step(racing(), polled(false, Some(Err("task failed".to_string()))));
    assert_eq!(directive, Directive::CloseCoordinator);
    assert_eq!(stage, Stage::Closing(Err("task failed".to_string())));
    let (stage, directive) = step(stage, TestEvent::CoordinatorClosed);
    assert_eq!(directive, Directive::Exit(Err(RunError::Pipeline("task failed".to_string()))));
    assert_eq!(stage, Stage::Done);
}

#[test]
fn an_event_out_of_turn_changes_nothing() {
    let cases: Vec<(TestStage, TestEvent)> = vec![
        (Stage::Setup, TestEvent::PipelineStarted),
        (Stage::Setup, polled(true, None)),
        (Stage::Setup, TestEvent::CoordinatorClosed),
        (Stage::Ready, TestEvent::ListenerInstalled),
        (Stage::Ready, polled(false, Some(Ok(0)))),
        (Stage::Racing, TestEvent::ListenerFailed("late".to_string())),
        (Stage::Racing, TestEvent::PipelineFailed("late".to_string())),
        (Stage::Racing, TestEvent::CoordinatorClosed),
        (Stage::Closing(Ok(3)), polled(true, None)),
        (Stage::Closing(Ok(3)), TestEvent::PipelineStarted),
        (Stage::Done, TestEvent::CoordinatorClosed),
    ];
    for (stage, event) in cases {
        let before = format!("{:?}", stage);
        let (following, directive): (TestStage, TestDirective) = step(stage, event);
        assert_eq!(directive, Directive::Nothing);
        assert_eq!(format!("{:?}", following), before);
    }
}

#[test]
fn a_run_exits_once() {
    let events = vec![
        TestEvent::ListenerInstalled,
        TestEvent::PipelineStarted,
        polled(false, None),
        polled(false, Some(Ok(7))),
        polled(true, None),
        TestEvent::CoordinatorClosed,
        TestEvent::CoordinatorClosed,
        polled(true, Some(Ok(0))),
    ];
    let mut stage = TestStage::Setup;
    let mut exits = Vec::new();
    for event in events {
        let (following, directive) = step(stage, event);
        if let Directive::Exit(outcome) = directive {
            exits.push(outcome);
        }
        stage = following;
    }
    assert_eq!(exits, vec![Ok(7)]);
    assert_eq!(stage, Stage::Done);
}

#[test]
fn arbitrate_prefers_the_signal() {
    assert_eq!(arbitrate(true, Some(5)), Some(Winner::Signal));
    assert_eq!(arbitrate::<i32>(true, None), Some(Winner::Signal));
    assert_eq!(arbitrate(false, Some(5)), Some(Winner::Run(5)));
    assert_eq!(arbitrate::<i32>(false, None), None);
}

#[test]
fn forward_keeps_codes_and_wraps_failures() {
    assert_eq!(forward::<String, String>(Ok(0)), Ok(0));
    assert_eq!(forward::<String, String>(Ok(17)), Ok(17));
    assert_eq!(
        forward::<String, String>(Err("boom".to_string())),
        Err(RunError::Pipeline("boom".to_string()))
    );
}
