//! The termination engine: drive one process identifier through a bounded
//! graceful-then-forced escalation and classify the end state.
//!
//! The machine is specified by `terminate_model`, a function of everything
//! the engine observed from the OS during one run. `terminate_scripted` is
//! the machine run against a prerecorded script of responses and is verified
//! to agree with the model on every script; `terminate_pid` is the same
//! machine run against the live OS through trusted signal wrappers, and its
//! outcome is the model's verdict on the responses the OS actually gave.

use vstd::prelude::*;

verus! {

/// What one non-destructive liveness probe of a process identifier reported.
#[derive(Clone, Copy, Debug, PartialEq, Eq, Structural)]
pub enum ProbeOutcome {
    /// The identifier names a running process.
    Alive,
    /// The OS reported "no such process".
    Gone,
    /// The OS reported some other error; the payload is the raw errno value.
    Error(i32),
}

/// What one signal send reported.
#[derive(Clone, Copy, Debug, PartialEq, Eq, Structural)]
pub enum SendOutcome {
    /// The signal was delivered.
    Delivered,
    /// The OS reported "no such process": the target is already gone.
    NoSuchProcess,
    /// The OS reported "permission denied".
    Denied,
    /// Any other error; the payload is the raw errno value.
    Error(i32),
}

/// How one bounded wait for process exit ended.
#[derive(Clone, Copy, Debug, PartialEq, Eq, Structural)]
pub enum WaitOutcome {
    /// A probe confirmed the target gone before the budget ran out.
    Exited,
    /// Every probe in the budget found the target still running.
    StillAlive,
    /// A probe failed with an error other than "no such process".
    Fail(i32),
}

/// The terminal result of one termination attempt. Exactly one variant is
/// produced per invocation.
#[derive(Clone, Copy, Debug, PartialEq, Eq, Structural)]
pub enum KillOutcome {
    /// The target was not running at the first liveness check.
    AlreadyExited,
    /// The target was running and is confirmed gone after escalation.
    Success,
    /// The target survived both grace periods with no permission error seen.
    TimedOut,
    /// At least one signal send was refused for lack of rights and the target
    /// was still observed running after both grace periods.
    PermissionDenied,
    /// An OS call reported an error other than "no such process" or
    /// "permission denied"; the payload is the raw errno value.
    Failed(i32),
}

/// Which stage of the escalation a signal belongs to.
#[derive(Clone, Copy, Debug, PartialEq, Eq, Structural)]
pub enum SignalKind {
    /// A termination request the target may handle (SIGTERM).
    Graceful,
    /// An unconditional termination request (SIGKILL).
    Forced,
}

/// Poll intervals in the graceful grace period: 10 x 200 ms = 2 s.
pub const GRACEFUL_POLLS: u32 = 10;

/// Poll intervals in the forced grace period: 5 x 200 ms = 1 s.
pub const FORCED_POLLS: u32 = 5;

/// Everything one run of the engine observed from the OS: the initial probe,
/// the response to each of the two signal sends, and the probes made while
/// waiting after each send. A run that ends early leaves the later fields
/// unconsumed; `terminate_model` then does not depend on them.
pub ghost struct ObservedRun {
    pub initial_probe: ProbeOutcome,
    pub graceful_send: SendOutcome,
    pub graceful_polls: Seq<ProbeOutcome>,
    pub forced_send: SendOutcome,
    pub forced_polls: Seq<ProbeOutcome>,
}

/// How a bounded wait ends, given the probes observed at each poll: the first
/// probe that reports the target gone ends it in `Exited`, the first that
/// fails ends it in `Fail`, and if every probe finds the target alive the
/// wait ends in `StillAlive`.
pub open spec fn wait_model(polls: Seq<ProbeOutcome>) -> WaitOutcome
    decreases polls.len(),
{
    if polls.len() == 0 {
        WaitOutcome::StillAlive
    } else {
        match polls[0] {
            ProbeOutcome::Gone => WaitOutcome::Exited,
            ProbeOutcome::Error(e) => WaitOutcome::Fail(e),
            ProbeOutcome::Alive => wait_model(polls.subrange(1, polls.len() as int)),
        }
    }
}

/// The sticky permission flag: set once either signal send is refused for
/// lack of rights, and never cleared.
pub open spec fn sticky_denied(run: ObservedRun) -> bool {
    run.graceful_send is Denied || run.forced_send is Denied
}

/// The escalation state machine as a function of what one run observed.
///
/// Probe: "no such process" is terminal `AlreadyExited`, any other probe
/// error is terminal `Failed`. Each signal send: "no such process" is
/// terminal `Success` (the target exited in the race between probe and
/// signal), "permission denied" only sets the sticky flag and the run goes
/// on, any other error is terminal `Failed`. Each wait: a probe confirming
/// exit is terminal `Success`, a probe error is terminal `Failed`. A target
/// still running after both grace periods is `PermissionDenied` if the sticky
/// flag was ever set, else `TimedOut`.
pub open spec fn terminate_model(run: ObservedRun) -> KillOutcome {
    match run.initial_probe {
        ProbeOutcome::Gone => KillOutcome::AlreadyExited,
        ProbeOutcome::Error(e) => KillOutcome::Failed(e),
        ProbeOutcome::Alive => match run.graceful_send {
            SendOutcome::NoSuchProcess => KillOutcome::Success,
            SendOutcome::Error(e) => KillOutcome::Failed(e),
            _ => match wait_model(run.graceful_polls) {
                WaitOutcome::Exited => KillOutcome::Success,
                WaitOutcome::Fail(e) => KillOutcome::Failed(e),
                WaitOutcome::StillAlive => match run.forced_send {
                    SendOutcome::NoSuchProcess => KillOutcome::Success,
                    SendOutcome::Error(e) => KillOutcome::Failed(e),
                    _ => match wait_model(run.forced_polls) {
                        WaitOutcome::Exited => KillOutcome::Success,
                        WaitOutcome::Fail(e) => KillOutcome::Failed(e),
                        WaitOutcome::StillAlive => if sticky_denied(run) {
                            KillOutcome::PermissionDenied
                        } else {
                            KillOutcome::TimedOut
                        },
                    },
                },
            },
        },
    }
}

/// Classify the initial liveness probe: `None` means the target is alive and
/// the escalation proceeds, `Some` ends the run.
pub fn decide_initial_probe(r: ProbeOutcome) -> (d: Option<KillOutcome>)
    ensures
        d == (match r {
            ProbeOutcome::Gone => Some(KillOutcome::AlreadyExited),
            ProbeOutcome::Error(e) => Some(KillOutcome::Failed(e)),
            ProbeOutcome::Alive => None::<KillOutcome>,
        }),
{
    match r {
        ProbeOutcome::Gone => Some(KillOutcome::AlreadyExited),
        ProbeOutcome::Error(e) => Some(KillOutcome::Failed(e)),
        ProbeOutcome::Alive => None,
    }
}

/// Classify one signal send: `d.0` is the terminal outcome if the send ends
/// the run, and `d.1` says whether this send sets the sticky permission flag.
pub fn decide_send(r: SendOutcome) -> (d: (Option<KillOutcome>, bool))
    ensures
        d.0 == (match r {
            SendOutcome::NoSuchProcess => Some(KillOutcome::Success),
            SendOutcome::Error(e) => Some(KillOutcome::Failed(e)),
            _ => None::<KillOutcome>,
        }),
        d.1 == (r is Denied),
{
    match r {
        SendOutcome::NoSuchProcess => (Some(KillOutcome::Success), false),
        SendOutcome::Error(e) => (Some(KillOutcome::Failed(e)), false),
        SendOutcome::Delivered => (None, false),
        SendOutcome::Denied => (None, true),
    }
}

/// After both grace periods pass with the target still running, the sticky
/// permission flag decides between `PermissionDenied` and `TimedOut`.
pub fn classify_timeout(denied: bool) -> (o: KillOutcome)
    ensures
        o == (if denied {
            KillOutcome::PermissionDenied
        } else {
            KillOutcome::TimedOut
        }),
{
    if denied {
        KillOutcome::PermissionDenied
    } else {
        KillOutcome::TimedOut
    }
}

/// A wait whose first `i` probes all found the target alive ends exactly as
/// the wait on the remaining probes does.
proof fn lemma_wait_model_alive_prefix(polls: Seq<ProbeOutcome>, i: int)
    requires
        0 <= i <= polls.len(),
        forall|k: int| 0 <= k < i ==> polls[k] is Alive,
    ensures
        wait_model(polls) == wait_model(polls.subrange(i, polls.len() as int)),
    decreases i,
{
    if i > 0 {
        let tail = polls.subrange(1, polls.len() as int);
        assert forall|k: int| 0 <= k < i - 1 implies tail[k] is Alive by {
            assert(tail[k] == polls[k + 1]);
        }
        lemma_wait_model_alive_prefix(tail, i - 1);
        assert(tail.subrange(i - 1, tail.len() as int) =~= polls.subrange(
            i,
            polls.len() as int,
        ));
    } else {
        assert(polls.subrange(0, polls.len() as int) =~= polls);
    }
}

/// One bounded wait of the state machine, run against a prerecorded script
/// of probe responses: scan them in order and classify as `wait_model` does.
pub fn wait_scripted(polls: &Vec<ProbeOutcome>) -> (w: WaitOutcome)
    ensures
        w == wait_model(polls@),
{
    let n = polls.len();
    let mut i: usize = 0;
    while i < n
        invariant
            i <= n,
            n == polls@.len(),
            forall|k: int| 0 <= k < i ==> polls@[k] is Alive,
        decreases n - i,
    {
        let r = polls[i];
        match r {
            ProbeOutcome::Gone => {
                proof {
                    lemma_wait_model_alive_prefix(polls@, i as int);
                    assert(polls@.subrange(i as int, n as int)[0] == polls@[i as int]);
                }
                return WaitOutcome::Exited;
            },
            ProbeOutcome::Error(e) => {
                proof {
                    lemma_wait_model_alive_prefix(polls@, i as int);
                    assert(polls@.subrange(i as int, n as int)[0] == polls@[i as int]);
                }
                return WaitOutcome::Fail(e);
            },
            ProbeOutcome::Alive => {
                i += 1;
            },
        }
    }
    proof {
        lemma_wait_model_alive_prefix(polls@, n as int);
        assert(polls@.subrange(n as int, n as int).len() == 0);
    }
    WaitOutcome::StillAlive
}

/// A prerecorded script of OS responses: what the initial probe, each signal
/// send, and each poll during the two waits report. Unused entries (after
/// the probe that confirms exit, or past a terminal error) are ignored.
pub struct ResponseScript {
    pub initial_probe: ProbeOutcome,
    pub graceful_send: SendOutcome,
    pub graceful_polls: Vec<ProbeOutcome>,
    pub forced_send: SendOutcome,
    pub forced_polls: Vec<ProbeOutcome>,
}

impl View for ResponseScript {
    type V = ObservedRun;

    open spec fn view(&self) -> ObservedRun {
        ObservedRun {
            initial_probe: self.initial_probe,
            graceful_send: self.graceful_send,
            graceful_polls: self.graceful_polls@,
            forced_send: self.forced_send,
            forced_polls: self.forced_polls@,
        }
    }
}

/// The full escalation state machine, run against a prerecorded script of OS
/// responses; it returns the model's verdict on every script.
pub fn terminate_scripted(script: &ResponseScript) -> (o: KillOutcome)
    ensures
        o == terminate_model(script@),
{
    if let Some(o) = decide_initial_probe(script.initial_probe) {
        return o;
    }
    let (graceful_decision, denied_graceful) = decide_send(script.graceful_send);
    if let Some(o) = graceful_decision {
        return o;
    }
    match wait_scripted(&script.graceful_polls) {
        WaitOutcome::Exited => {
            return KillOutcome::Success;
        },
        WaitOutcome::Fail(e) => {
            return KillOutcome::Failed(e);
        },
        WaitOutcome::StillAlive => {},
    }
    let (forced_decision, denied_forced) = decide_send(script.forced_send);
    if let Some(o) = forced_decision {
        return o;
    }
    match wait_scripted(&script.forced_polls) {
        WaitOutcome::Exited => KillOutcome::Success,
        WaitOutcome::Fail(e) => KillOutcome::Failed(e),
        WaitOutcome::StillAlive => classify_timeout(denied_graceful || denied_forced),
    }
}

/// Relies on nix::sys::signal::kill with no signal (the signal-0 existence
/// check): Ok means the identifier names a running process, ESRCH that it
/// does not; any other errno is handed back raw. The result depends on the
/// live process table, so nothing is promised of it.
#[verifier::external_body]
fn probe_liveness(pid_raw: i32) -> ProbeOutcome {
    match nix::sys::signal::kill(nix::unistd::Pid::from_raw(pid_raw), None) {
        Ok(()) => ProbeOutcome::Alive,
        Err(nix::errno::Errno::ESRCH) => ProbeOutcome::Gone,
        Err(e) => ProbeOutcome::Error(e as i32),
    }
}

/// Relies on nix::sys::signal::kill: sends SIGTERM (graceful) or SIGKILL
/// (forced) to the one process named, never to a group. Ok means delivered,
/// ESRCH that the target is already gone, EPERM that the caller lacks the
/// right to signal it; any other errno is handed back raw. The result depends
/// on the live process table, so nothing is promised of it.
#[verifier::external_body]
fn send_signal(pid_raw: i32, kind: SignalKind) -> SendOutcome {
    let signal = match kind {
        SignalKind::Graceful => nix::sys::signal::Signal::SIGTERM,
        SignalKind::Forced => nix::sys::signal::Signal::SIGKILL,
    };
    match nix::sys::signal::kill(nix::unistd::Pid::from_raw(pid_raw), signal) {
        Ok(()) => SendOutcome::Delivered,
        Err(nix::errno::Errno::ESRCH) => SendOutcome::NoSuchProcess,
        Err(nix::errno::Errno::EPERM) => SendOutcome::Denied,
        Err(e) => SendOutcome::Error(e as i32),
    }
}

/// Relies on nix::time::clock_nanosleep on the monotonic clock: blocks the
/// calling thread for about one poll interval (200 ms). A sleep cut short by
/// a caught signal is not retried, so the wait stays bounded either way.
#[verifier::external_body]
fn sleep_poll_interval() {
    let request = nix::sys::time::TimeSpec::new(0, 200_000_000);
    let _ = nix::time::clock_nanosleep(
        nix::time::ClockId::CLOCK_MONOTONIC,
        nix::time::ClockNanosleepFlags::empty(),
        &request,
    );
}

/// One bounded wait against the live OS: probe the target, and while it is
/// still alive sleep one poll interval and probe again, at most `polls` more
/// times. The classification is `wait_model` on the probes actually observed,
/// which the second component hands back; at most `polls + 1` probes and
/// `polls` sleeps are made.
fn wait_for_exit(pid_raw: i32, polls: u32) -> (res: (WaitOutcome, Ghost<Seq<ProbeOutcome>>))
    ensures
        res.0 == wait_model(res.1@),
        res.1@.len() <= polls + 1,
{
    let ghost mut observed: Seq<ProbeOutcome> = Seq::empty();
    let mut remaining: u32 = polls;
    loop
        invariant
            remaining <= polls,
            observed.len() == polls - remaining,
            forall|k: int| 0 <= k < observed.len() ==> observed[k] is Alive,
        decreases remaining,
    {
        let r = probe_liveness(pid_raw);
        proof {
            observed = observed.push(r);
        }
        match r {
            ProbeOutcome::Gone => {
                proof {
                    lemma_wait_model_alive_prefix(observed, observed.len() - 1);
                    assert(observed.subrange(observed.len() - 1, observed.len() as int)[0] == r);
                }
                return (WaitOutcome::Exited, Ghost(observed));
            },
            ProbeOutcome::Error(e) => {
                proof {
                    lemma_wait_model_alive_prefix(observed, observed.len() - 1);
                    assert(observed.subrange(observed.len() - 1, observed.len() as int)[0] == r);
                }
                return (WaitOutcome::Fail(e), Ghost(observed));
            },
            ProbeOutcome::Alive => {},
        }
        if remaining == 0 {
            proof {
                lemma_wait_model_alive_prefix(observed, observed.len() as int);
                assert(observed.subrange(observed.len() as int, observed.len() as int).len()
                    == 0);
            }
            return (WaitOutcome::StillAlive, Ghost(observed));
        }
        sleep_poll_interval();
        remaining = remaining - 1;
    }
}

/// Drive one process identifier through the full escalation against the live
/// OS: probe its liveness, send the graceful signal, wait up to the graceful
/// grace period, send the forced signal, wait up to the forced grace period,
/// and classify. The outcome is exactly the state machine's verdict
/// (`terminate_model`) on some run whose waits respect the poll budgets —
/// namely the responses the OS actually gave.
pub fn terminate_pid(pid_raw: i32) -> (o: KillOutcome)
    ensures
        exists|run: ObservedRun|
            (#[trigger] terminate_model(run)) == o && run.graceful_polls.len() <= GRACEFUL_POLLS
                + 1 && run.forced_polls.len() <= FORCED_POLLS + 1,
{
    let initial = probe_liveness(pid_raw);
    if let Some(o) = decide_initial_probe(initial) {
        proof {
            let run = ObservedRun {
                initial_probe: initial,
                graceful_send: SendOutcome::Delivered,
                graceful_polls: Seq::empty(),
                forced_send: SendOutcome::Delivered,
                forced_polls: Seq::empty(),
            };
            assert(terminate_model(run) == o && run.graceful_polls.len() <= GRACEFUL_POLLS + 1
                && run.forced_polls.len() <= FORCED_POLLS + 1);
        }
        return o;
    }
    let graceful = send_signal(pid_raw, SignalKind::Graceful);
    let (graceful_decision, denied_graceful) = decide_send(graceful);
    if let Some(o) = graceful_decision {
        proof {
            let run = ObservedRun {
                initial_probe: initial,
                graceful_send: graceful,
                graceful_polls: Seq::empty(),
                forced_send: SendOutcome::Delivered,
                forced_polls: Seq::empty(),
            };
            assert(terminate_model(run) == o && run.graceful_polls.len() <= GRACEFUL_POLLS + 1
                && run.forced_polls.len() <= FORCED_POLLS + 1);
        }
        return o;
    }
    let (graceful_wait, graceful_observed) = wait_for_exit(pid_raw, GRACEFUL_POLLS);
    let ghost partial = ObservedRun {
        initial_probe: initial,
        graceful_send: graceful,
        graceful_polls: graceful_observed@,
        forced_send: SendOutcome::Delivered,
        forced_polls: Seq::empty(),
    };
    match graceful_wait {
        WaitOutcome::Exited => {
            proof {
                assert(terminate_model(partial) == KillOutcome::Success);
            }
            return KillOutcome::Success;
        },
        WaitOutcome::Fail(e) => {
            proof {
                assert(terminate_model(partial) == KillOutcome::Failed(e));
            }
            return KillOutcome::Failed(e);
        },
        WaitOutcome::StillAlive => {},
    }
    let forced = send_signal(pid_raw, SignalKind::Forced);
    let (forced_decision, denied_forced) = decide_send(forced);
    if let Some(o) = forced_decision {
        proof {
            let run = ObservedRun { forced_send: forced, ..partial };
            assert(terminate_model(run) == o && run.graceful_polls.len() <= GRACEFUL_POLLS + 1
                && run.forced_polls.len() <= FORCED_POLLS + 1);
        }
        return o;
    }
    let (forced_wait, forced_observed) = wait_for_exit(pid_raw, FORCED_POLLS);
    let ghost run = ObservedRun {
        forced_send: forced,
        forced_polls: forced_observed@,
        ..partial
    };
    match forced_wait {
        WaitOutcome::Exited => {
            proof {
                assert(terminate_model(run) == KillOutcome::Success);
            }
            KillOutcome::Success
        },
        WaitOutcome::Fail(e) => {
            proof {
                assert(terminate_model(run) == KillOutcome::Failed(e));
            }
            KillOutcome::Failed(e)
        },
        WaitOutcome::StillAlive => {
            let o = classify_timeout(denied_graceful || denied_forced);
            proof {
                assert(terminate_model(run) == o);
            }
            o
        },
    }
}

/// A target that is already gone at the first liveness probe is reported as
/// `AlreadyExited`, whatever the rest of the run would have observed — in
/// particular, no signal send influences the outcome.
pub proof fn lemma_already_exited(run: ObservedRun)
    requires
        run.initial_probe is Gone,
    ensures
        terminate_model(run) == KillOutcome::AlreadyExited,
{
}

/// Repeated calls on a target that each time is observed already gone all
/// report `AlreadyExited`: confirming exit is idempotent and consumes no
/// signal sends.
pub proof fn lemma_already_exited_idempotent(first: ObservedRun, second: ObservedRun)
    requires
        first.initial_probe is Gone,
        second.initial_probe is Gone,
    ensures
        terminate_model(first) == KillOutcome::AlreadyExited,
        terminate_model(second) == KillOutcome::AlreadyExited,
{
}

/// A live target that goes away during the graceful stage — either in the
/// race between probe and graceful signal, or at some poll within the
/// graceful grace period — is `Success`, and the forced stage is never
/// reached: the outcome is the same whatever the forced signal and the
/// forced-stage polls would have reported.
pub proof fn lemma_graceful_exit(run: ObservedRun)
    requires
        run.initial_probe is Alive,
        !(run.graceful_send is Error),
        run.graceful_send is NoSuchProcess || wait_model(run.graceful_polls) is Exited,
    ensures
        terminate_model(run) == KillOutcome::Success,
        forall|k: SendOutcome, fp: Seq<ProbeOutcome>|
            #[trigger] terminate_model(
                ObservedRun { forced_send: k, forced_polls: fp, ..run },
            ) == KillOutcome::Success,
{
}

/// A live target that survives the whole graceful grace period but goes away
/// during the forced stage — either in the race with the forced signal or at
/// some poll within the forced grace period — is `Success`; both signals were
/// sent by then.
pub proof fn lemma_forced_exit(run: ObservedRun)
    requires
        run.initial_probe is Alive,
        run.graceful_send is Delivered || run.graceful_send is Denied,
        wait_model(run.graceful_polls) is StillAlive,
        !(run.forced_send is Error),
        run.forced_send is NoSuchProcess || wait_model(run.forced_polls) is Exited,
    ensures
        terminate_model(run) == KillOutcome::Success,
{
}

/// A target still running after both grace periods, with at least one signal
/// send refused for lack of rights, is `PermissionDenied` — not `TimedOut`.
/// The flag is sticky: a denial at either stage suffices.
pub proof fn lemma_permission_denied(run: ObservedRun)
    requires
        run.initial_probe is Alive,
        run.graceful_send is Delivered || run.graceful_send is Denied,
        run.forced_send is Delivered || run.forced_send is Denied,
        run.graceful_send is Denied || run.forced_send is Denied,
        wait_model(run.graceful_polls) is StillAlive,
        wait_model(run.forced_polls) is StillAlive,
    ensures
        terminate_model(run) == KillOutcome::PermissionDenied,
{
}

/// The outcomes keep their meanings apart, on every run: `AlreadyExited` is
/// reported exactly when the target was gone at the first probe, a
/// permission problem is reported only when one was observed, and a plain
/// timeout only when none was.
pub proof fn lemma_outcomes_are_distinct_verdicts(run: ObservedRun)
    ensures
        terminate_model(run) is AlreadyExited <==> run.initial_probe is Gone,
        terminate_model(run) is PermissionDenied ==> sticky_denied(run),
        terminate_model(run) is TimedOut ==> !sticky_denied(run),
{
}

/// A target still running after both grace periods, with both signal sends
/// delivered without a permission error, is `TimedOut`.
pub proof fn lemma_timed_out(run: ObservedRun)
    requires
        run.initial_probe is Alive,
        run.graceful_send is Delivered,
        run.forced_send is Delivered,
        wait_model(run.graceful_polls) is StillAlive,
        wait_model(run.forced_polls) is StillAlive,
    ensures
        terminate_model(run) == KillOutcome::TimedOut,
{
}

} // verus!
