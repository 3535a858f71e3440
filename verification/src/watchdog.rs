//! Watching over the state machine: one that stays busy for too long is stuck and is reset.
//!
//! The host looks at the state machine from time to time, without waiting for it.

use crate::state::StateTag;
use vstd::prelude::*;

verus! {

/// How often the state machine is looked at, in seconds.
pub const CHECK_INTERVAL_SECS: u64 = 10;

/// How long the state machine may be busy, in seconds.
pub const STUCK_AFTER_SECS: u64 = 30;

/// What is done after a look at the state machine.
#[derive(Debug, Clone, Copy, PartialEq, Eq, Structural)]
pub enum WatchdogStep {
    /// Nothing.
    Leave,
    /// Everything returns to idle, and the windows are hidden.
    Reset,
    /// The recording of record-only mode is brought to an end.
    RecoverRecordOnly,
}

/// What the watchdog remembers.
pub struct Watchdog {
    /// When the state machine was first seen busy, on the clock of the host in milliseconds; none
    /// while it is idle.
    pub busy_since: Option<u64>,
}

/// Whether a machine that has been busy since a moment is stuck.
pub open spec fn stuck(since: u64, now: u64) -> bool {
    now - since > STUCK_AFTER_SECS * 1000
}

impl Watchdog {
    pub fn new() -> (w: Self)
        ensures
            w.busy_since is None,
    {
        Watchdog { busy_since: None }
    }

    /// Look at the state machine: one that has been busy for more than the limit is recovered, and
    /// the watch begins anew.
    pub fn check(&mut self, tag: StateTag, now: u64) -> (step: WatchdogStep)
        ensures
            tag == StateTag::Idle ==> {
                &&& step == WatchdogStep::Leave
                &&& final(self).busy_since is None
            },
            tag != StateTag::Idle ==> {
                let since = match old(self).busy_since {
                    Some(t) => t,
                    None => now,
                };
                if stuck(since, now) {
                    &&& step == (if tag == StateTag::RecordOnly {
                        WatchdogStep::RecoverRecordOnly
                    } else {
                        WatchdogStep::Reset
                    })
                    &&& final(self).busy_since is None
                } else {
                    &&& step == WatchdogStep::Leave
                    &&& final(self).busy_since == Some(since)
                }
            },
    {
        if tag == StateTag::Idle {
            self.busy_since = None;
            return WatchdogStep::Leave;
        }
        let since: u64 = match self.busy_since {
            Some(t) => t,
            None => now,
        };
        if now > since && now - since > STUCK_AFTER_SECS * 1000 {
            self.busy_since = None;
            if tag == StateTag::RecordOnly {
                WatchdogStep::RecoverRecordOnly
            } else {
                WatchdogStep::Reset
            }
        } else {
            self.busy_since = Some(since);
            WatchdogStep::Leave
        }
    }
}

impl Default for Watchdog {
    fn default() -> (w: Self)
        ensures
            w.busy_since is None,
    {
        Self::new()
    }
}

/// The state machine is recovered soon after the limit: if it was busy at every look and no two
/// looks are further apart than the interval, a look that finds it stuck comes before the limit and
/// the interval have passed.
pub proof fn recovery_is_not_late(since: u64, last: u64, now: u64)
    requires
        since <= last <= now,
        now - last <= CHECK_INTERVAL_SECS * 1000,
        !stuck(since, last),
    ensures
        now - since <= (STUCK_AFTER_SECS + CHECK_INTERVAL_SECS) * 1000,
{
}

/// A state machine that is busy for more than thirty seconds is recovered, and not before; the watch
/// begins when it is first seen busy, goes on while it is, and ends with it.
pub proof fn what_is_stuck_is_recovered(
    w: &mut Watchdog,
    tag: StateTag,
    now: u64,
    step: WatchdogStep,
)
    requires
        call_ensures(Watchdog::check, (w, tag, now), step),
    ensures
        tag is Idle ==> step is Leave && final(w).busy_since is None,
        !(tag is Idle) && old(w).busy_since is None ==> step is Leave && final(w).busy_since == Some(
            now,
        ),
        !(tag is Idle) && old(w).busy_since is Some ==> {
            let over = now - old(w).busy_since->0 > 30_000;
            &&& step is Leave <==> !over
            &&& over && tag is RecordOnly ==> step is RecoverRecordOnly
            &&& over && !(tag is RecordOnly) ==> step is Reset
            &&& final(w).busy_since == (if over {
                None
            } else {
                old(w).busy_since
            })
        },
{
}

} // verus!
