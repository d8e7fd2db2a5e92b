//! The change watcher: collapses bursts of filesystem notifications into one
//! check cycle after a quiet period, and serializes check cycles.
use vstd::prelude::*;

verus! {

/// Quiet period, in milliseconds, after the last notification before a check runs.
pub const DEBOUNCE_MS: u64 = 2000;

/// What the watcher is doing.
#[derive(Clone, Copy, Debug, PartialEq, Eq, Structural)]
pub enum WatchPhase {
    /// Nothing pending.
    Idle,
    /// A notification arrived at `last_change`; waiting for the quiet period to pass.
    Debouncing { last_change: u64 },
    /// A check cycle is running; `rearm` holds the time of a notification that
    /// arrived meanwhile, if any.
    Checking { rearm: Option<u64> },
}

/// An input to the watcher.
#[derive(Clone, Copy, Debug, PartialEq, Eq, Structural)]
pub enum Signal {
    /// A filesystem notification at the given time (milliseconds).
    Changed(u64),
    /// The clock reads the given time (milliseconds).
    Tick(u64),
    /// The running check cycle has finished.
    CheckFinished,
}

/// The debouncing state machine. `apply` returns `true` exactly when a check
/// cycle must start now.
#[derive(Clone, Copy, Debug)]
pub struct ChangeWatcher {
    pub delay: u64,
    pub phase: WatchPhase,
}

/// Whether `now` lies at least `delay` after `since`.
pub open spec fn quiet_since(delay: u64, since: u64, now: u64) -> bool {
    now as int >= since as int + delay as int
}

/// One transition: the next phase and whether a check cycle starts.
pub open spec fn step(delay: u64, phase: WatchPhase, s: Signal) -> (WatchPhase, bool) {
    match s {
        Signal::Changed(t) => match phase {
            WatchPhase::Checking { .. } => (WatchPhase::Checking { rearm: Some(t) }, false),
            _ => (WatchPhase::Debouncing { last_change: t }, false),
        },
        Signal::Tick(t) => match phase {
            WatchPhase::Debouncing { last_change } =>
                if quiet_since(delay, last_change, t) {
                    (WatchPhase::Checking { rearm: None }, true)
                } else {
                    (phase, false)
                },
            _ => (phase, false),
        },
        Signal::CheckFinished => match phase {
            WatchPhase::Checking { rearm } => match rearm {
                Some(t) => (WatchPhase::Debouncing { last_change: t }, false),
                None => (WatchPhase::Idle, false),
            },
            _ => (phase, false),
        },
    }
}

/// The phase after a whole trace, and how many check cycles it started.
pub open spec fn run(delay: u64, phase: WatchPhase, trace: Seq<Signal>) -> (WatchPhase, nat)
    decreases trace.len(),
{
    if trace.len() == 0 {
        (phase, 0)
    } else {
        let (p, n) = run(delay, phase, trace.drop_last());
        let (q, fired) = step(delay, p, trace.last());
        (q, if fired { n + 1 } else { n })
    }
}

/// The time of the latest notification in a trace, if any.
pub open spec fn last_change(trace: Seq<Signal>) -> Option<u64>
    decreases trace.len(),
{
    if trace.len() == 0 {
        None
    } else {
        match trace.last() {
            Signal::Changed(t) => Some(t),
            _ => last_change(trace.drop_last()),
        }
    }
}

/// A burst: notifications and clock readings that start with a notification,
/// where every later signal comes before the quiet period after the latest
/// notification preceding it has passed.
pub open spec fn is_burst(delay: u64, trace: Seq<Signal>) -> bool {
    &&& trace.len() > 0
    &&& trace[0] is Changed
    &&& forall|i: int|
        1 <= i < trace.len() ==> match #[trigger] trace[i] {
            Signal::Changed(t) | Signal::Tick(t) => !quiet_since(
                delay,
                last_change(trace.take(i)).unwrap(),
                t,
            ),
            Signal::CheckFinished => false,
        }
}

impl ChangeWatcher {
    pub fn new() -> (r: ChangeWatcher)
        ensures
            r.delay == DEBOUNCE_MS,
            r.phase == WatchPhase::Idle,
    {
        ChangeWatcher { delay: DEBOUNCE_MS, phase: WatchPhase::Idle }
    }

    pub fn with_delay(delay: u64) -> (r: ChangeWatcher)
        ensures
            r.delay == delay,
            r.phase == WatchPhase::Idle,
    {
        ChangeWatcher { delay, phase: WatchPhase::Idle }
    }

    /// Feeds one signal; returns `true` when a check cycle must start now.
    pub fn apply(&mut self, s: Signal) -> (fire: bool)
        ensures
            final(self).delay == old(self).delay,
            (final(self).phase, fire) == step(old(self).delay, old(self).phase, s),
    {
        match s {
            Signal::Changed(t) => {
                match self.phase {
                    WatchPhase::Checking { .. } => {
                        self.phase = WatchPhase::Checking { rearm: Some(t) };
                    },
                    _ => {
                        self.phase = WatchPhase::Debouncing { last_change: t };
                    },
                }
                false
            },
            Signal::Tick(t) => {
                match self.phase {
                    WatchPhase::Debouncing { last_change } => {
                        if t >= last_change && t - last_change >= self.delay {
                            self.phase = WatchPhase::Checking { rearm: None };
                            true
                        } else {
                            false
                        }
                    },
                    _ => false,
                }
            },
            Signal::CheckFinished => {
                match self.phase {
                    WatchPhase::Checking { rearm } => {
                        match rearm {
                            Some(t) => {
                                self.phase = WatchPhase::Debouncing { last_change: t };
                            },
                            None => {
                                self.phase = WatchPhase::Idle;
                            },
                        }
                    },
                    _ => {},
                }
                false
            },
        }
    }

    /// Feeds a whole trace of signals; returns how many check cycles it started.
    pub fn apply_all(&mut self, trace: &Vec<Signal>) -> (fired: u64)
        requires
            trace@.len() < u64::MAX,
        ensures
            final(self).delay == old(self).delay,
            (final(self).phase, fired as nat) == run(old(self).delay, old(self).phase, trace@),
    {
        let mut fired: u64 = 0;
        let mut i: usize = 0;
        while i < trace.len()
            invariant
                i <= trace@.len(),
                trace@.len() < u64::MAX,
                fired <= i,
                self.delay == old(self).delay,
                (self.phase, fired as nat) == run(
                    old(self).delay,
                    old(self).phase,
                    trace@.take(i as int),
                ),
            decreases trace@.len() - i,
        {
            proof {
                assert(trace@.take(i as int + 1).drop_last() == trace@.take(i as int));
            }
            if self.apply(trace[i]) {
                fired = fired + 1;
            }
            i = i + 1;
        }
        proof {
            assert(trace@.take(i as int) == trace@);
        }
        fired
    }
}

/// Every signal inside a burst leaves the watcher debouncing on the latest
/// notification, without starting a check.
proof fn lemma_burst_prefix(delay: u64, trace: Seq<Signal>, k: int)
    requires
        is_burst(delay, trace),
        1 <= k <= trace.len(),
    ensures
        last_change(trace.take(k)) is Some,
        run(delay, WatchPhase::Idle, trace.take(k)) == (
            WatchPhase::Debouncing { last_change: last_change(trace.take(k)).unwrap() },
            0nat,
        ),
    decreases k,
{
    let pre = trace.take(k);
    assert(pre.drop_last() == trace.take(k - 1));
    assert(pre.last() == trace[k - 1]);
    if k == 1 {
        assert(trace.take(0).len() == 0);
        assert(trace[0] is Changed);
    } else {
        lemma_burst_prefix(delay, trace, k - 1);
        let s = trace[k - 1];
        assert(s !is CheckFinished);
        match s {
            Signal::Changed(t) => {},
            Signal::Tick(t) => {
                assert(!quiet_since(delay, last_change(trace.take(k - 1)).unwrap(), t));
            },
            Signal::CheckFinished => {},
        }
    }
}

/// A burst of notifications within the debounce window, followed by one clock
/// reading after the quiet period, starts exactly one check cycle.
pub proof fn burst_triggers_one_check(delay: u64, trace: Seq<Signal>, t: u64)
    requires
        is_burst(delay, trace),
        quiet_since(delay, last_change(trace).unwrap(), t),
    ensures
        run(delay, WatchPhase::Idle, trace.push(Signal::Tick(t))) == (
            WatchPhase::Checking { rearm: None },
            1nat,
        ),
{
    lemma_burst_prefix(delay, trace, trace.len() as int);
    assert(trace.take(trace.len() as int) == trace);
    assert(trace.push(Signal::Tick(t)).drop_last() == trace);
}

} // verus!
