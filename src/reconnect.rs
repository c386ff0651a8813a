use vstd::prelude::*;

verus! {

/// Consecutive failed reconnect attempts after which the agent gives up.
pub const MAX_RECONNECT_ATTEMPTS: u32 = 120;

/// Pause between two reconnect attempts, in seconds.
pub const RETRY_DELAY_SECS: u64 = 10;

/// Exit status when the reconnect attempts are exhausted.
pub const EXIT_RECONNECT_EXHAUSTED: i32 = 2;

/// What the reconnect loop hears from the program that runs it.
#[derive(PartialEq, Eq, Structural, Clone, Copy, Debug)]
pub enum ReconnectEvent {
    /// Top of an iteration: whether shutdown was signalled, whether the link
    /// is already up.
    Check { stopping: bool, connected: bool },
    /// The reconnect call failed.
    AttemptFailed,
    /// The reconnect call succeeded.
    AttemptSucceeded,
}

/// What the program is to do next.
#[derive(PartialEq, Eq, Structural, Clone, Copy, Debug)]
pub enum ReconnectStep {
    /// Make one reconnect call and report how it went.
    Attempt,
    /// Sleep this many seconds, then report a `Check`.
    Sleep(u64),
    /// Publish the online message; the loop ends with success.
    Announce,
    /// Shutdown is under way; the loop ends without retrying.
    Abort,
    /// Report a fatal error and end the process with this status.
    Exit(i32),
}

/// How a reconnect loop ended, for the router.
#[derive(PartialEq, Eq, Structural, Clone, Copy, Debug)]
pub enum ReconnectOutcome {
    Success,
    Aborted,
}

/// One reconnect episode: the failures so far. A fresh episode starts at zero.
#[derive(PartialEq, Eq, Structural, Clone, Copy, Debug)]
pub struct ReconnectPolicy {
    pub failures: u32,
}

/// The reconnect policy as a function from state and event to the next state
/// and step.
pub open spec fn reconnect_spec(p: ReconnectPolicy, e: ReconnectEvent) -> (ReconnectPolicy, ReconnectStep) {
    match e {
        ReconnectEvent::Check { stopping, connected } => {
            if stopping {
                (p, ReconnectStep::Abort)
            } else if connected {
                (p, ReconnectStep::Announce)
            } else {
                (p, ReconnectStep::Attempt)
            }
        },
        ReconnectEvent::AttemptFailed => {
            if p.failures + 1 >= MAX_RECONNECT_ATTEMPTS {
                (ReconnectPolicy { failures: MAX_RECONNECT_ATTEMPTS }, ReconnectStep::Exit(EXIT_RECONNECT_EXHAUSTED))
            } else {
                (ReconnectPolicy { failures: (p.failures + 1) as u32 }, ReconnectStep::Sleep(RETRY_DELAY_SECS))
            }
        },
        ReconnectEvent::AttemptSucceeded => (p, ReconnectStep::Announce),
    }
}

/// The steps that a sequence of events yields, and the state after them.
pub open spec fn run_reconnect(p: ReconnectPolicy, evs: Seq<ReconnectEvent>) -> (ReconnectPolicy, Seq<ReconnectStep>)
    decreases evs.len(),
{
    if evs.len() == 0 {
        (p, Seq::empty())
    } else {
        let (q, s) = reconnect_spec(p, evs[0]);
        let (r, rest) = run_reconnect(q, evs.drop_first());
        (r, seq![s] + rest)
    }
}

/// An iteration on a link that is down while no shutdown is signalled.
pub open spec fn link_down() -> ReconnectEvent {
    ReconnectEvent::Check { stopping: false, connected: false }
}

/// `k` failed attempts in a row, then one that succeeds.
pub open spec fn failures_then_success(k: nat) -> Seq<ReconnectEvent>
    decreases k,
{
    if k == 0 {
        seq![link_down(), ReconnectEvent::AttemptSucceeded]
    } else {
        seq![link_down(), ReconnectEvent::AttemptFailed] + failures_then_success((k - 1) as nat)
    }
}

/// `k` failed attempts in a row.
pub open spec fn failures_only(k: nat) -> Seq<ReconnectEvent>
    decreases k,
{
    if k == 0 {
        Seq::empty()
    } else {
        seq![link_down(), ReconnectEvent::AttemptFailed] + failures_only((k - 1) as nat)
    }
}

/// How many steps are sleeps.
pub open spec fn count_sleeps(s: Seq<ReconnectStep>) -> nat
    decreases s.len(),
{
    if s.len() == 0 {
        0
    } else {
        (if s[0] is Sleep { 1nat } else { 0nat }) + count_sleeps(s.drop_first())
    }
}

/// How many steps publish the online message.
pub open spec fn count_announces(s: Seq<ReconnectStep>) -> nat
    decreases s.len(),
{
    if s.len() == 0 {
        0
    } else {
        (if s[0] is Announce { 1nat } else { 0nat }) + count_announces(s.drop_first())
    }
}

/// How many steps end the process.
pub open spec fn count_exits(s: Seq<ReconnectStep>) -> nat
    decreases s.len(),
{
    if s.len() == 0 {
        0
    } else {
        (if s[0] is Exit { 1nat } else { 0nat }) + count_exits(s.drop_first())
    }
}

impl ReconnectPolicy {
    /// A fresh episode: no failures yet.
    pub fn new() -> (r: ReconnectPolicy)
        ensures
            r.failures == 0,
    {
        ReconnectPolicy { failures: 0 }
    }

    /// Takes one event and says what to do next.
    pub fn on_event(&mut self, e: ReconnectEvent) -> (r: ReconnectStep)
        ensures
            (*final(self), r) == reconnect_spec(*old(self), e),
    {
        match e {
            ReconnectEvent::Check { stopping, connected } => {
                if stopping {
                    ReconnectStep::Abort
                } else if connected {
                    ReconnectStep::Announce
                } else {
                    ReconnectStep::Attempt
                }
            },
            ReconnectEvent::AttemptFailed => {
                if self.failures >= MAX_RECONNECT_ATTEMPTS - 1 {
                    self.failures = MAX_RECONNECT_ATTEMPTS;
                    ReconnectStep::Exit(EXIT_RECONNECT_EXHAUSTED)
                } else {
                    self.failures = self.failures + 1;
                    ReconnectStep::Sleep(RETRY_DELAY_SECS)
                }
            },
            ReconnectEvent::AttemptSucceeded => ReconnectStep::Announce,
        }
    }
}

/// Running two events in front of a sequence.
proof fn lemma_run_two(p: ReconnectPolicy, a: ReconnectEvent, b: ReconnectEvent, rest: Seq<ReconnectEvent>)
    ensures
        ({
            let (q, s1) = reconnect_spec(p, a);
            let (r, s2) = reconnect_spec(q, b);
            let (z, tail) = run_reconnect(r, rest);
            run_reconnect(p, seq![a, b] + rest) == (z, seq![s1, s2] + tail)
        }),
{
    let evs = seq![a, b] + rest;
    assert(evs[0] == a);
    assert(evs.drop_first() =~= seq![b] + rest);
    assert((seq![b] + rest)[0] == b);
    assert((seq![b] + rest).drop_first() =~= rest);
    let (q, s1) = reconnect_spec(p, a);
    let (r, s2) = reconnect_spec(q, b);
    let (z, tail) = run_reconnect(r, rest);
    let t = seq![b] + rest;
    assert(run_reconnect(q, t) == (z, seq![s2] + tail));
    assert(run_reconnect(p, evs) == (z, seq![s1] + (seq![s2] + tail)));
    assert(seq![s1] + (seq![s2] + tail) =~= seq![s1, s2] + tail);
}

/// Counting over two leading steps.
proof fn lemma_count_two(s1: ReconnectStep, s2: ReconnectStep, tail: Seq<ReconnectStep>)
    ensures
        count_sleeps(seq![s1, s2] + tail) == (if s1 is Sleep { 1nat } else { 0nat }) + (if s2 is Sleep { 1nat } else { 0nat }) + count_sleeps(tail),
        count_announces(seq![s1, s2] + tail) == (if s1 is Announce { 1nat } else { 0nat }) + (if s2 is Announce { 1nat } else { 0nat }) + count_announces(tail),
        count_exits(seq![s1, s2] + tail) == (if s1 is Exit { 1nat } else { 0nat }) + (if s2 is Exit { 1nat } else { 0nat }) + count_exits(tail),
{
    let s = seq![s1, s2] + tail;
    assert(s[0] == s1);
    assert(s.drop_first() =~= seq![s2] + tail);
    assert((seq![s2] + tail)[0] == s2);
    let t = seq![s2] + tail;
    assert(t.drop_first() =~= tail);
    assert(count_sleeps(t) == (if s2 is Sleep { 1nat } else { 0nat }) + count_sleeps(tail));
    assert(count_announces(t) == (if s2 is Announce { 1nat } else { 0nat }) + count_announces(tail));
    assert(count_exits(t) == (if s2 is Exit { 1nat } else { 0nat }) + count_exits(tail));
    assert(count_sleeps(s) == (if s1 is Sleep { 1nat } else { 0nat }) + count_sleeps(t));
    assert(count_announces(s) == (if s1 is Announce { 1nat } else { 0nat }) + count_announces(t));
    assert(count_exits(s) == (if s1 is Exit { 1nat } else { 0nat }) + count_exits(t));
}

/// From `f` failures so far, `k` more failures and a success.
proof fn lemma_failures_then_success(f: nat, k: nat)
    requires
        f + k < MAX_RECONNECT_ATTEMPTS,
    ensures
        ({
            let (z, steps) = run_reconnect(ReconnectPolicy { failures: f as u32 }, failures_then_success(k));
            &&& count_sleeps(steps) == k
            &&& count_announces(steps) == 1
            &&& count_exits(steps) == 0
            &&& steps.len() > 0
            &&& steps.last() == ReconnectStep::Announce
        }),
    decreases k,
{
    let p = ReconnectPolicy { failures: f as u32 };
    if k == 0 {
        lemma_run_two(p, link_down(), ReconnectEvent::AttemptSucceeded, Seq::empty());
        assert(failures_then_success(0) =~= seq![link_down(), ReconnectEvent::AttemptSucceeded] + Seq::empty());
        let (z, steps) = run_reconnect(p, failures_then_success(0));
        assert(steps =~= seq![ReconnectStep::Attempt, ReconnectStep::Announce] + Seq::<ReconnectStep>::empty());
        lemma_count_two(ReconnectStep::Attempt, ReconnectStep::Announce, Seq::empty());
    } else {
        let rest = failures_then_success((k - 1) as nat);
        lemma_run_two(p, link_down(), ReconnectEvent::AttemptFailed, rest);
        let q = ReconnectPolicy { failures: (f + 1) as u32 };
        lemma_failures_then_success(f + 1, (k - 1) as nat);
        let (z, tail) = run_reconnect(q, rest);
        let steps = seq![ReconnectStep::Attempt, ReconnectStep::Sleep(RETRY_DELAY_SECS)] + tail;
        lemma_count_two(ReconnectStep::Attempt, ReconnectStep::Sleep(RETRY_DELAY_SECS), tail);
        assert(steps.last() == tail.last());
    }
}

/// From `f` failures so far, `k` more failures, with the budget not yet spent.
proof fn lemma_failures_only(f: nat, k: nat)
    requires
        f + k <= MAX_RECONNECT_ATTEMPTS,
    ensures
        ({
            let (z, steps) = run_reconnect(ReconnectPolicy { failures: f as u32 }, failures_only(k));
            &&& count_announces(steps) == 0
            &&& k > 0 ==> steps.len() > 0
            &&& (k > 0 && f + k == MAX_RECONNECT_ATTEMPTS) ==> steps.last() == ReconnectStep::Exit(EXIT_RECONNECT_EXHAUSTED)
            &&& (k > 0 && f + k == MAX_RECONNECT_ATTEMPTS) ==> count_exits(steps) == 1
            &&& f + k < MAX_RECONNECT_ATTEMPTS ==> count_exits(steps) == 0
            &&& f + k < MAX_RECONNECT_ATTEMPTS ==> z.failures == f + k
        }),
    decreases k,
{
    let p = ReconnectPolicy { failures: f as u32 };
    if k > 0 {
        let rest = failures_only((k - 1) as nat);
        lemma_run_two(p, link_down(), ReconnectEvent::AttemptFailed, rest);
        if f + 1 >= MAX_RECONNECT_ATTEMPTS {
            assert(k == 1);
            assert(rest =~= Seq::<ReconnectEvent>::empty());
            let steps = seq![ReconnectStep::Attempt, ReconnectStep::Exit(EXIT_RECONNECT_EXHAUSTED)] + Seq::<ReconnectStep>::empty();
            lemma_count_two(ReconnectStep::Attempt, ReconnectStep::Exit(EXIT_RECONNECT_EXHAUSTED), Seq::empty());
        } else {
            let q = ReconnectPolicy { failures: (f + 1) as u32 };
            lemma_failures_only(f + 1, (k - 1) as nat);
            let (z, tail) = run_reconnect(q, rest);
            let steps = seq![ReconnectStep::Attempt, ReconnectStep::Sleep(RETRY_DELAY_SECS)] + tail;
            lemma_count_two(ReconnectStep::Attempt, ReconnectStep::Sleep(RETRY_DELAY_SECS), tail);
            if k > 1 {
                assert(steps.last() == tail.last());
            }
        }
    }
}

/// A fresh episode with `k` failures, `k` under the budget, then a success:
/// exactly `k` sleeps, the online message published once and last, and the
/// process never ended.
pub proof fn reconnect_recovers(k: nat)
    requires
        k < MAX_RECONNECT_ATTEMPTS,
    ensures
        ({
            let (z, steps) = run_reconnect(ReconnectPolicy { failures: 0 }, failures_then_success(k));
            &&& count_sleeps(steps) == k
            &&& count_announces(steps) == 1
            &&& count_exits(steps) == 0
            &&& steps.last() == ReconnectStep::Announce
        }),
{
    lemma_failures_then_success(0, k);
}

/// A fresh episode with as many failures as the budget: the last step ends
/// the process with the exhausted status, and the online message is never
/// published.
pub proof fn reconnect_gives_up()
    ensures
        ({
            let (z, steps) = run_reconnect(ReconnectPolicy { failures: 0 }, failures_only(MAX_RECONNECT_ATTEMPTS as nat));
            &&& count_announces(steps) == 0
            &&& count_exits(steps) == 1
            &&& steps.last() == ReconnectStep::Exit(EXIT_RECONNECT_EXHAUSTED)
        }),
{
    lemma_failures_only(0, MAX_RECONNECT_ATTEMPTS as nat);
}

} // verus!
