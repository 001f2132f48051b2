use zephir::pipeline::{step, PipelineAction, PipelineEvent, PipelineState, RunOutcome};

fn expect_cleanup(action: Option<PipelineAction>, want: &str) {
    match action {
        Some(PipelineAction::RunCleanup { sandbox }) => assert_eq!(sandbox, want),
        other => panic!("expected a cleanup action, got {:?}", other),
    }
}

#[test]
fn successful_run_cleans_up_once() {
    let (s, a) = step(PipelineState::Start, PipelineEvent::Launch);
    assert!(matches!(a, Some(PipelineAction::RunUnpack)));
    let (s, a) = step(
        s,
        PipelineEvent::UnpackSucceeded { sandbox: "zephir-sandbox/1".to_string() },
    );
    match a {
        Some(PipelineAction::RunEnforce { sandbox }) => assert_eq!(sandbox, "zephir-sandbox/1"),
        other => panic!("expected an enforce action, got {:?}", other),
    }
    let (s, a) = step(s, PipelineEvent::EnforceSucceeded);
    match a {
        Some(PipelineAction::RunInvoke { sandbox }) => assert_eq!(sandbox, "zephir-sandbox/1"),
        other => panic!("expected an invoke action, got {:?}", other),
    }
    let (s, a) = step(s, PipelineEvent::InvokeSucceeded);
    expect_cleanup(a, "zephir-sandbox/1");
    let (s, a) = step(s, PipelineEvent::CleanupDone);
    assert!(a.is_none());
    match s {
        PipelineState::Done { outcome, sandbox } => {
            assert_eq!(outcome, RunOutcome::Success);
            assert_eq!(sandbox.as_deref(), Some("zephir-sandbox/1"));
        },
        other => panic!("expected a terminated run, got {:?}", other),
    }
}

#[test]
fn failed_invocation_still_cleans_up() {
    let (s, _) = step(PipelineState::Start, PipelineEvent::Launch);
    let (s, _) = step(s, PipelineEvent::UnpackSucceeded { sandbox: "sb/2".to_string() });
    let (s, _) = step(s, PipelineEvent::EnforceSucceeded);
    let (s, a) = step(s, PipelineEvent::InvokeFailed);
    expect_cleanup(a, "sb/2");
    let (s, _) = step(s, PipelineEvent::CleanupDone);
    match s {
        PipelineState::Done { outcome, sandbox } => {
            assert_eq!(outcome, RunOutcome::Failure);
            assert_eq!(sandbox.as_deref(), Some("sb/2"));
        },
        other => panic!("expected a terminated run, got {:?}", other),
    }
}

#[test]
fn cancellation_mid_invocation_cleans_up() {
    let (s, _) = step(PipelineState::Start, PipelineEvent::Launch);
    let (s, _) = step(s, PipelineEvent::UnpackSucceeded { sandbox: "sb/3".to_string() });
    let (s, _) = step(s, PipelineEvent::EnforceSucceeded);
    let (s, a) = step(s, PipelineEvent::Cancelled);
    expect_cleanup(a, "sb/3");
    let (s, _) = step(s, PipelineEvent::CleanupDone);
    match s {
        PipelineState::Done { outcome, sandbox } => {
            assert_eq!(outcome, RunOutcome::Cancelled);
            assert_eq!(sandbox.as_deref(), Some("sb/3"));
        },
        other => panic!("expected a terminated run, got {:?}", other),
    }
}

#[test]
fn unpack_failure_skips_cleanup() {
    let (s, _) = step(PipelineState::Start, PipelineEvent::Launch);
    let (s, a) = step(s, PipelineEvent::UnpackFailed);
    assert!(a.is_none());
    match s {
        PipelineState::Done { outcome, sandbox } => {
            assert_eq!(outcome, RunOutcome::Failure);
            assert!(sandbox.is_none());
        },
        other => panic!("expected a terminated run, got {:?}", other),
    }
}

#[test]
fn cancellation_before_any_sandbox_skips_cleanup() {
    let (s, a) = step(PipelineState::Start, PipelineEvent::Cancelled);
    assert!(a.is_none());
    match s {
        PipelineState::Done { outcome, sandbox } => {
            assert_eq!(outcome, RunOutcome::Cancelled);
            assert!(sandbox.is_none());
        },
        other => panic!("expected a terminated run, got {:?}", other),
    }
    let (s, _) = step(PipelineState::Start, PipelineEvent::Launch);
    let (s, a) = step(s, PipelineEvent::Cancelled);
    assert!(a.is_none());
    assert!(matches!(s, PipelineState::Done { sandbox: None, .. }));
}

#[test]
fn stray_events_change_nothing() {
    let (s, a) = step(PipelineState::Start, PipelineEvent::InvokeSucceeded);
    assert!(a.is_none());
    assert!(matches!(s, PipelineState::Start));
    let (s, _) = step(PipelineState::Start, PipelineEvent::Launch);
    let (s, a) = step(s, PipelineEvent::CleanupDone);
    assert!(a.is_none());
    assert!(matches!(s, PipelineState::Unpacking));
}
