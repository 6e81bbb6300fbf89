use portreaper::kill::KillOutcome;
use portreaper::kill::ProbeOutcome;
use portreaper::kill::ResponseScript;
use portreaper::kill::SendOutcome;
use portreaper::kill::WaitOutcome;
use portreaper::kill::classify_timeout;
use portreaper::kill::decide_initial_probe;
use portreaper::kill::decide_send;
use portreaper::kill::terminate_pid;
use portreaper::kill::terminate_scripted;
use portreaper::kill::wait_scripted;
use portreaper::kill::FORCED_POLLS;
use portreaper::kill::GRACEFUL_POLLS;

fn script(
    initial_probe: ProbeOutcome,
    graceful_send: SendOutcome,
    graceful_polls: Vec<ProbeOutcome>,
    forced_send: SendOutcome,
    forced_polls: Vec<ProbeOutcome>,
) -> ResponseScript {
    ResponseScript { initial_probe, graceful_send, graceful_polls, forced_send, forced_polls }
}

#[test]
fn already_exited_sends_nothing() {
    // the target is gone at the first probe: whatever the sends would have
    // answered is never consulted
    for send in [SendOutcome::Delivered, SendOutcome::Denied, SendOutcome::Error(13)] {
        let s = script(ProbeOutcome::Gone, send, vec![], send, vec![]);
        assert_eq!(terminate_scripted(&s), KillOutcome::AlreadyExited);
    }
}

#[test]
fn probe_error_is_failed() {
    let s = script(
        ProbeOutcome::Error(22),
        SendOutcome::Delivered,
        vec![],
        SendOutcome::Delivered,
        vec![],
    );
    assert_eq!(terminate_scripted(&s), KillOutcome::Failed(22));
}

#[test]
fn graceful_exit_is_success() {
    // alive at probe, exits at the second poll of the graceful grace period
    let s = script(
        ProbeOutcome::Alive,
        SendOutcome::Delivered,
        vec![ProbeOutcome::Alive, ProbeOutcome::Gone],
        SendOutcome::Delivered,
        vec![],
    );
    assert_eq!(terminate_scripted(&s), KillOutcome::Success);
}

#[test]
fn exit_in_signal_race_is_success() {
    // gone between probe and graceful signal: ESRCH from the send is success
    let s = script(
        ProbeOutcome::Alive,
        SendOutcome::NoSuchProcess,
        vec![],
        SendOutcome::Delivered,
        vec![],
    );
    assert_eq!(terminate_scripted(&s), KillOutcome::Success);
}

#[test]
fn forced_exit_is_success() {
    // survives the whole graceful grace period, dies at the first forced poll
    let graceful_polls = vec![ProbeOutcome::Alive; (GRACEFUL_POLLS + 1) as usize];
    let s = script(
        ProbeOutcome::Alive,
        SendOutcome::Delivered,
        graceful_polls,
        SendOutcome::Delivered,
        vec![ProbeOutcome::Gone],
    );
    assert_eq!(terminate_scripted(&s), KillOutcome::Success);
}

#[test]
fn sigterm_ignorer_killed_by_sigkill() {
    // a target that ignores the graceful signal but honors the forced one:
    // all 10 polls of the 2 s graceful grace period find it alive, the
    // forced signal lands at about t = 2 s, and the first 200 ms poll after
    // it confirms the exit
    let graceful_polls = vec![ProbeOutcome::Alive; (GRACEFUL_POLLS + 1) as usize];
    let s = script(
        ProbeOutcome::Alive,
        SendOutcome::Delivered,
        graceful_polls,
        SendOutcome::Delivered,
        vec![ProbeOutcome::Alive, ProbeOutcome::Gone],
    );
    assert_eq!(terminate_scripted(&s), KillOutcome::Success);
}

#[test]
fn denied_everywhere_still_running_is_permission_denied() {
    let s = script(
        ProbeOutcome::Alive,
        SendOutcome::Denied,
        vec![ProbeOutcome::Alive; (GRACEFUL_POLLS + 1) as usize],
        SendOutcome::Denied,
        vec![ProbeOutcome::Alive; (FORCED_POLLS + 1) as usize],
    );
    assert_eq!(terminate_scripted(&s), KillOutcome::PermissionDenied);
}

#[test]
fn denied_once_is_sticky() {
    // denied only at the graceful stage, delivered at the forced one: the
    // flag is sticky and still decides the outcome
    let s = script(
        ProbeOutcome::Alive,
        SendOutcome::Denied,
        vec![ProbeOutcome::Alive; (GRACEFUL_POLLS + 1) as usize],
        SendOutcome::Delivered,
        vec![ProbeOutcome::Alive; (FORCED_POLLS + 1) as usize],
    );
    assert_eq!(terminate_scripted(&s), KillOutcome::PermissionDenied);
}

#[test]
fn denied_then_gone_is_success() {
    // a permission error followed by the target disappearing anyway is
    // superseded by success
    let s = script(
        ProbeOutcome::Alive,
        SendOutcome::Denied,
        vec![ProbeOutcome::Alive, ProbeOutcome::Gone],
        SendOutcome::Delivered,
        vec![],
    );
    assert_eq!(terminate_scripted(&s), KillOutcome::Success);
}

#[test]
fn no_denial_still_running_is_timed_out() {
    let s = script(
        ProbeOutcome::Alive,
        SendOutcome::Delivered,
        vec![ProbeOutcome::Alive; (GRACEFUL_POLLS + 1) as usize],
        SendOutcome::Delivered,
        vec![ProbeOutcome::Alive; (FORCED_POLLS + 1) as usize],
    );
    assert_eq!(terminate_scripted(&s), KillOutcome::TimedOut);
}

#[test]
fn send_error_is_failed() {
    let s = script(
        ProbeOutcome::Alive,
        SendOutcome::Error(22),
        vec![],
        SendOutcome::Delivered,
        vec![],
    );
    assert_eq!(terminate_scripted(&s), KillOutcome::Failed(22));
}

#[test]
fn poll_error_is_failed() {
    let s = script(
        ProbeOutcome::Alive,
        SendOutcome::Delivered,
        vec![ProbeOutcome::Alive, ProbeOutcome::Error(5)],
        SendOutcome::Delivered,
        vec![],
    );
    assert_eq!(terminate_scripted(&s), KillOutcome::Failed(5));
}

#[test]
fn wait_scripted_classifies() {
    assert_eq!(wait_scripted(&vec![]), WaitOutcome::StillAlive);
    assert_eq!(wait_scripted(&vec![ProbeOutcome::Alive]), WaitOutcome::StillAlive);
    assert_eq!(
        wait_scripted(&vec![ProbeOutcome::Alive, ProbeOutcome::Gone]),
        WaitOutcome::Exited
    );
    assert_eq!(
        wait_scripted(&vec![ProbeOutcome::Gone, ProbeOutcome::Error(1)]),
        WaitOutcome::Exited
    );
    assert_eq!(
        wait_scripted(&vec![ProbeOutcome::Error(1), ProbeOutcome::Gone]),
        WaitOutcome::Fail(1)
    );
}

#[test]
fn decisions_match_the_model() {
    assert_eq!(decide_initial_probe(ProbeOutcome::Gone), Some(KillOutcome::AlreadyExited));
    assert_eq!(decide_initial_probe(ProbeOutcome::Error(9)), Some(KillOutcome::Failed(9)));
    assert_eq!(decide_initial_probe(ProbeOutcome::Alive), None);
    assert_eq!(decide_send(SendOutcome::Delivered), (None, false));
    assert_eq!(decide_send(SendOutcome::Denied), (None, true));
    assert_eq!(decide_send(SendOutcome::NoSuchProcess), (Some(KillOutcome::Success), false));
    assert_eq!(decide_send(SendOutcome::Error(7)), (Some(KillOutcome::Failed(7)), false));
    assert_eq!(classify_timeout(true), KillOutcome::PermissionDenied);
    assert_eq!(classify_timeout(false), KillOutcome::TimedOut);
}

#[test]
fn terminate_pid_on_vacant_identifier() {
    // far above any real pid on this machine: the existence probe reports
    // "no such process" and no signal is sent
    assert_eq!(terminate_pid(i32::MAX), KillOutcome::AlreadyExited);
}

#[test]
fn terminate_pid_is_idempotent_on_vacant_identifier() {
    let first = terminate_pid(i32::MAX - 1);
    let second = terminate_pid(i32::MAX - 1);
    assert_eq!(first, KillOutcome::AlreadyExited);
    assert_eq!(second, KillOutcome::AlreadyExited);
}
