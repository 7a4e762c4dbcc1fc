use vstd::prelude::*;

verus! {

/// How many connection attempts the startup sequence makes before it
/// gives up.
pub const CONNECT_ATTEMPTS: usize = 5;

/// The fixed pause, in seconds, after every failed connection attempt.
pub const RETRY_PAUSE_SECONDS: u64 = 2;

/// Where the startup sequence stands: still trying to reach the data
/// store, connected (terminal success), or out of attempts (terminal,
/// fatal: the process must not begin accepting requests).
#[derive(Clone, Copy, Debug, PartialEq, Eq, Structural)]
pub enum BootPhase {
    Connecting,
    Connected,
    Failed,
}

/// What to do after a failed attempt: pause for the fixed interval and
/// try again, or pause and then give up, reporting the last underlying
/// connection error.
#[derive(Clone, Copy, Debug, PartialEq, Eq, Structural)]
pub enum RetryAction {
    PauseThenRetry,
    GiveUp,
}

/// The bounded-retry startup sequencer. It owns no connection itself: the
/// caller performs each attempt and reports the outcome, and the
/// sequencer decides whether to retry, stop in success, or stop in
/// failure.
pub struct Bootstrapper {
    phase: BootPhase,
    attempts_left: usize,
}

impl Bootstrapper {
    /// The phase the sequencer is in.
    pub closed spec fn spec_phase(&self) -> BootPhase {
        self.phase
    }

    /// How many connection attempts remain.
    pub closed spec fn spec_attempts_left(&self) -> usize {
        self.attempts_left
    }

    /// The sequencer never holds more than the full budget, and keeps
    /// trying only while attempts remain.
    pub open spec fn wf(&self) -> bool {
        &&& self.spec_attempts_left() <= CONNECT_ATTEMPTS
        &&& self.spec_phase() is Connecting ==> self.spec_attempts_left() >= 1
    }

    /// A fresh sequencer: disconnected, with the full attempt budget.
    pub fn new() -> (s: Self)
        ensures
            s.wf(),
            s.spec_phase() is Connecting,
            s.spec_attempts_left() == CONNECT_ATTEMPTS,
    {
        Bootstrapper { phase: BootPhase::Connecting, attempts_left: CONNECT_ATTEMPTS }
    }

    /// Whether another connection attempt should be made.
    pub fn should_attempt(&self) -> (b: bool)
        ensures
            b == (self.spec_phase() is Connecting),
    {
        matches!(self.phase, BootPhase::Connecting)
    }

    /// The attempt reached the store: the sequencer is done and the pool
    /// can be handed to the rest of the process.
    pub fn on_success(&mut self)
        requires
            old(self).wf(),
            old(self).spec_phase() is Connecting,
        ensures
            final(self).wf(),
            final(self).spec_phase() is Connected,
    {
        self.phase = BootPhase::Connected;
    }

    /// The attempt failed: one attempt is spent, and after the fixed
    /// pause the caller either retries or, with the budget exhausted,
    /// gives up and reports the last connection error.
    pub fn on_failure(&mut self) -> (a: RetryAction)
        requires
            old(self).wf(),
            old(self).spec_phase() is Connecting,
        ensures
            final(self).wf(),
            final(self).spec_attempts_left() == old(self).spec_attempts_left() - 1,
            final(self).spec_attempts_left() > 0 ==> final(self).spec_phase() is Connecting && a
                == RetryAction::PauseThenRetry,
            final(self).spec_attempts_left() == 0 ==> final(self).spec_phase() is Failed && a
                == RetryAction::GiveUp,
    {
        self.attempts_left = self.attempts_left - 1;
        if self.attempts_left > 0 {
            RetryAction::PauseThenRetry
        } else {
            self.phase = BootPhase::Failed;
            RetryAction::GiveUp
        }
    }
}

/// Every attempt strictly before `i` failed.
pub open spec fn all_fail_before(results: Seq<bool>, i: int) -> bool {
    forall|j: int| 0 <= j < i ==> !results[j]
}

/// Drive the startup sequence over the outcome each connection attempt
/// would have. The first component is the index of the attempt that
/// reached the store, when one of the first five did; the second is how
/// many failed attempts were made, each of which is followed by the fixed
/// pause. These two clauses pin the run down: success goes to the first
/// reachable attempt, and a run that gives up saw the whole budget fail.
pub fn run_bootstrap(attempt_results: &Vec<bool>) -> (r: (Option<usize>, usize))
    requires
        attempt_results@.len() >= CONNECT_ATTEMPTS,
    ensures
        r.0 matches Some(i) ==> i < CONNECT_ATTEMPTS && attempt_results@[i as int]
            && all_fail_before(attempt_results@, i as int) && r.1 == i,
        r.0 is None ==> all_fail_before(attempt_results@, CONNECT_ATTEMPTS as int) && r.1
            == CONNECT_ATTEMPTS,
{
    let mut boot = Bootstrapper::new();
    let mut i: usize = 0;
    while boot.should_attempt()
        invariant
            boot.wf(),
            attempt_results@.len() >= CONNECT_ATTEMPTS,
            i + boot.spec_attempts_left() == CONNECT_ATTEMPTS,
            all_fail_before(attempt_results@, i as int),
            boot.spec_phase() is Connecting || boot.spec_phase() is Failed,
            boot.spec_phase() is Failed ==> boot.spec_attempts_left() == 0,
        decreases boot.spec_attempts_left(),
    {
        if attempt_results[i] {
            boot.on_success();
            return (Some(i), i);
        }
        let _action = boot.on_failure();
        i = i + 1;
    }
    (None, i)
}

/// Anything that meets the bootstrap run's contract terminates the
/// process when all five attempts fail, and proceeds from the third
/// attempt when the first two fail and the third succeeds.
pub proof fn lemma_bootstrap_decides(results: Seq<bool>, r: Option<int>)
    requires
        results.len() >= CONNECT_ATTEMPTS,
        r matches Some(i) ==> 0 <= i < CONNECT_ATTEMPTS && results[i] && all_fail_before(
            results,
            i,
        ),
        r is None ==> all_fail_before(results, CONNECT_ATTEMPTS as int),
    ensures
        all_fail_before(results, CONNECT_ATTEMPTS as int) ==> r is None,
        (!results[0] && !results[1] && results[2]) ==> r == Some(2int),
{
    if !results[0] && !results[1] && results[2] {
        assert(!all_fail_before(results, CONNECT_ATTEMPTS as int));
        match r {
            Some(i) => {
                if i < 2 {
                    assert(!results[i]);
                }
                if i > 2 {
                    assert(!results[2]);
                }
                assert(i == 2);
            },
            None => {},
        }
    }
}

} // verus!
