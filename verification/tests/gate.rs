use rights_guard::gate::{GatePhase, VerificationGate, WaitOutcome};

#[test]
fn a_new_latch_is_reset() {
    let gate = VerificationGate::new();
    assert_eq!(gate.phase, GatePhase::Reset);
    assert!(!gate.is_completed());
}

#[test]
fn the_phases_follow_one_another() {
    let mut gate = VerificationGate::new();
    gate.mark_waiting();
    assert_eq!(gate.phase, GatePhase::WaitingForHuman);
    gate.signal_complete();
    assert_eq!(gate.phase, GatePhase::Completed);
    assert!(gate.is_completed());
    gate.mark_waiting();
    assert_eq!(gate.phase, GatePhase::Completed);
}

#[test]
fn signalling_twice_is_signalling_once() {
    let mut once = VerificationGate::new();
    once.signal_complete();
    let mut twice = VerificationGate::new();
    twice.signal_complete();
    twice.signal_complete();
    assert_eq!(once, twice);
}

#[test]
fn reset_clears_a_completed_latch() {
    let mut gate = VerificationGate::new();
    gate.signal_complete();
    gate.reset();
    assert_eq!(gate.phase, GatePhase::Reset);
    assert_eq!(gate.wait_outcome(0, 600), WaitOutcome::KeepWaiting);
}

#[test]
fn a_wait_goes_on_until_the_signal_or_the_limit() {
    let mut gate = VerificationGate::new();
    gate.mark_waiting();
    assert_eq!(gate.wait_outcome(0, 600), WaitOutcome::KeepWaiting);
    assert_eq!(gate.wait_outcome(599, 600), WaitOutcome::KeepWaiting);
    assert_eq!(gate.wait_outcome(600, 600), WaitOutcome::TimedOut);
    assert_eq!(gate.wait_outcome(u64::MAX, 600), WaitOutcome::TimedOut);
    gate.signal_complete();
    assert_eq!(gate.wait_outcome(0, 600), WaitOutcome::Proceed);
    assert_eq!(gate.wait_outcome(10_000, 600), WaitOutcome::Proceed);
}

#[test]
fn the_markers_have_their_names() {
    assert_eq!(rights_guard::gate::WAITING_MARKER, "waiting_for_verification.txt");
    assert_eq!(rights_guard::gate::COMPLETED_MARKER, "verification_completed.txt");
    assert_eq!(rights_guard::gate::COMPLETED_TOKEN, "completed");
}
