use psqlx::gate::{GateAction, GateState, InitGate};

#[test]
fn only_first_caller_runs_the_pass() {
    let mut g = InitGate::new();
    assert_eq!(g.state(), GateState::Uninitialized);
    assert_eq!(g.outcome(), None);
    let answers: Vec<GateAction> = (0..8).map(|_| g.arrive()).collect();
    assert_eq!(answers.iter().filter(|a| **a == GateAction::RunPass).count(), 1);
    assert_eq!(answers[0], GateAction::RunPass);
    assert!(answers[1..].iter().all(|a| *a == GateAction::Wait));
    g.report(true);
    assert_eq!(g.arrive(), GateAction::Done(true));
    assert_eq!(g.outcome(), Some(true));
}

#[test]
fn failure_is_cached_and_never_retried() {
    let mut g = InitGate::new();
    assert_eq!(g.arrive(), GateAction::RunPass);
    g.report(false);
    for _ in 0..5 {
        assert_eq!(g.arrive(), GateAction::Done(false));
    }
    g.report(true);
    assert_eq!(g.state(), GateState::Ready(false));
}

#[test]
fn report_without_pass_changes_nothing() {
    let mut g = InitGate::new();
    g.report(true);
    assert_eq!(g.state(), GateState::Uninitialized);
}
