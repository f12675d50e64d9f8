use procfan::engine::EngineAction;
use procfan::engine::EngineState;
use procfan::engine::PolicyEngine;
use procfan::engine::RestartOptions;
use procfan::message::OutputMessagePayload;

#[test]
fn kill_policy_cancels_on_first_termination() {
    let mut engine = PolicyEngine::new(RestartOptions::Kill, 3);
    assert_eq!(engine.state(), EngineState::Active);

    // One worker exits immediately with a nonzero code: the others must be
    // told to stop.
    let action = engine.on_message(0, &OutputMessagePayload::Done(Some(1)));
    assert_eq!(action, EngineAction::Cancel);
    assert_eq!(engine.state(), EngineState::Cancelling);

    // The cancelled workers' terminal messages are observed; the run
    // completes and a join would return.
    assert_eq!(
        engine.on_message(1, &OutputMessagePayload::Done(None)),
        EngineAction::Nothing
    );
    assert_eq!(engine.state(), EngineState::Cancelling);
    assert_eq!(
        engine.on_message(2, &OutputMessagePayload::Done(Some(0))),
        EngineAction::Nothing
    );
    assert_eq!(engine.state(), EngineState::Complete);
}

#[test]
fn continue_policy_leaves_others_running() {
    let mut engine = PolicyEngine::new(RestartOptions::Continue, 2);
    let action = engine.on_message(0, &OutputMessagePayload::Done(Some(1)));
    assert_eq!(action, EngineAction::Nothing);
    assert_eq!(engine.state(), EngineState::Active);
    engine.on_message(1, &OutputMessagePayload::Done(Some(0)));
    assert_eq!(engine.state(), EngineState::Complete);
}

#[test]
fn restart_policy_relaunches_terminated_worker() {
    let mut engine = PolicyEngine::new(RestartOptions::Restart, 2);
    let action = engine.on_message(0, &OutputMessagePayload::Done(Some(1)));
    assert_eq!(action, EngineAction::Restart);
    assert_eq!(engine.state(), EngineState::Active);

    // Once cancellation is in progress, terminations count down instead.
    engine.cancel();
    assert_eq!(engine.state(), EngineState::Cancelling);
    engine.on_message(0, &OutputMessagePayload::Done(None));
    engine.on_message(1, &OutputMessagePayload::Done(None));
    assert_eq!(engine.state(), EngineState::Complete);
}

#[test]
fn non_terminal_messages_change_nothing() {
    let mut engine = PolicyEngine::new(RestartOptions::Kill, 1);
    assert_eq!(
        engine.on_message(0, &OutputMessagePayload::Start),
        EngineAction::Nothing
    );
    assert_eq!(
        engine.on_message(
            0,
            &OutputMessagePayload::Stdout(procfan::LineEnding::Newline, b"x".to_vec())
        ),
        EngineAction::Nothing
    );
    assert_eq!(engine.state(), EngineState::Active);
}

#[test]
fn duplicate_terminal_for_one_worker_is_ignored() {
    let mut engine = PolicyEngine::new(RestartOptions::Continue, 2);
    engine.on_message(0, &OutputMessagePayload::Done(Some(0)));
    // A second terminal-kind message from the same worker must not complete
    // the run while another worker is still out there.
    engine.on_message(0, &OutputMessagePayload::Error("stream broke".to_string()));
    assert_eq!(engine.state(), EngineState::Active);
    engine.on_message(1, &OutputMessagePayload::Done(Some(0)));
    assert_eq!(engine.state(), EngineState::Complete);
}

#[test]
fn cancel_twice_has_no_further_effect() {
    let mut engine = PolicyEngine::new(RestartOptions::Kill, 2);
    engine.cancel();
    assert_eq!(engine.state(), EngineState::Cancelling);
    engine.cancel();
    assert_eq!(engine.state(), EngineState::Cancelling);
}

#[test]
fn cancel_after_completion_is_a_no_op() {
    let mut engine = PolicyEngine::new(RestartOptions::Continue, 1);
    engine.on_message(0, &OutputMessagePayload::Done(Some(0)));
    assert_eq!(engine.state(), EngineState::Complete);
    engine.cancel();
    assert_eq!(engine.state(), EngineState::Complete);
    engine.cancel();
    assert_eq!(engine.state(), EngineState::Complete);
}

#[test]
fn spawn_failure_counts_and_others_complete() {
    let mut engine = PolicyEngine::new(RestartOptions::Continue, 3);
    // One worker never starts: its error is its terminal message and must
    // not prevent the other workers' normal completion.
    let action = engine.on_message(1, &OutputMessagePayload::Error("no such program".to_string()));
    assert_eq!(action, EngineAction::Nothing);
    assert_eq!(engine.state(), EngineState::Active);
    engine.on_message(0, &OutputMessagePayload::Done(Some(0)));
    engine.on_message(2, &OutputMessagePayload::Done(Some(0)));
    assert_eq!(engine.state(), EngineState::Complete);
}
