//! Startup deduplication: when enabled, the highest slot already persisted
//! before this process attached (the baseline) is read once at start-up, and
//! account writes replayed at or below it are dropped without a store write
//! until the end-of-startup marker arrives. Purely an optimization: the
//! compare-and-set upsert discipline alone guarantees correctness.

use vstd::prelude::*;

verus! {

/// Tracks the startup baseline and the replay window. Shared by workers in
/// concept; each instance is owned by one worker here, which is sound because
/// dropping a replayed record is idempotent across workers.
pub struct StartupDedupTracker {
    /// Whether skipping already-persisted accounts at startup is enabled.
    pub enabled: bool,
    /// Highest slot durably persisted before this process attached, if it
    /// could be determined.
    pub baseline: Option<u64>,
    /// Set when the end-of-startup marker has arrived; from then on the
    /// tracker never affects any record.
    pub startup_done: bool,
    /// Slots whose replayed writes were suppressed within the current replay
    /// window, kept only to avoid duplicate bookkeeping work.
    pub slots_at_startup: Vec<u64>,
}

impl StartupDedupTracker {
    /// The suppressed-slot set holds no duplicates, so its size is bounded by
    /// the number of distinct replayed slots.
    pub open spec fn wf(&self) -> bool {
        forall|i: int, j: int|
            0 <= i < j < self.slots_at_startup@.len()
                ==> self.slots_at_startup@[i] != self.slots_at_startup@[j]
    }

    /// The slots suppressed so far, as a set.
    pub open spec fn replay_set(&self) -> Set<u64> {
        self.slots_at_startup@.to_set()
    }

    /// An account write at `slot` must be persisted unless it is a startup
    /// replay, the marker has not arrived, deduplication is enabled, and the
    /// slot does not exceed the baseline.
    pub open spec fn spec_should_persist(&self, slot: u64, is_startup: bool) -> bool {
        !(is_startup && !self.startup_done && self.enabled && match self.baseline {
            Some(b) => slot <= b,
            None => false,
        })
    }

    /// A fresh tracker: replay window open, nothing suppressed yet.
    pub fn new(enabled: bool, baseline: Option<u64>) -> (r: StartupDedupTracker)
        ensures
            r.wf(),
            r.enabled == enabled,
            r.baseline == baseline,
            !r.startup_done,
            r.replay_set() == Set::<u64>::empty(),
    {
        let r = StartupDedupTracker { enabled, baseline, startup_done: false, slots_at_startup: Vec::new() };
        proof {
            assert(r.replay_set() =~= Set::<u64>::empty());
        }
        r
    }

    /// True when `slot` was already suppressed in this replay window.
    pub fn saw_replay_slot(&self, slot: u64) -> (r: bool)
        ensures
            r == self.replay_set().contains(slot),
    {
        let mut i: usize = 0;
        while i < self.slots_at_startup.len()
            invariant
                0 <= i <= self.slots_at_startup@.len(),
                forall|j: int| 0 <= j < i ==> self.slots_at_startup@[j] != slot,
            decreases self.slots_at_startup@.len() - i,
        {
            if self.slots_at_startup[i] == slot {
                proof {
                    assert(self.replay_set().contains(slot));
                }
                return true;
            }
            i = i + 1;
        }
        proof {
            assert(!self.slots_at_startup@.contains(slot));
        }
        false
    }

    /// Decides whether an account write at `slot` goes to the store. When it
    /// is suppressed, the slot is recorded in the replay set; nothing else
    /// about the tracker changes.
    pub fn should_persist_account(&mut self, slot: u64, is_startup: bool) -> (persist: bool)
        requires
            old(self).wf(),
        ensures
            final(self).wf(),
            persist == old(self).spec_should_persist(slot, is_startup),
            final(self).enabled == old(self).enabled,
            final(self).baseline == old(self).baseline,
            final(self).startup_done == old(self).startup_done,
            persist ==> final(self).replay_set() == old(self).replay_set(),
            !persist ==> final(self).replay_set() == old(self).replay_set().insert(slot),
    {
        let persist = match self.baseline {
            Some(b) => !(is_startup && !self.startup_done && self.enabled && slot <= b),
            None => true,
        };
        if !persist {
            if !self.saw_replay_slot(slot) {
                self.slots_at_startup.push(slot);
                proof {
                    let s_old = old(self).slots_at_startup@;
                    let s_new = self.slots_at_startup@;
                    assert forall|y: u64|
                        s_new.contains(y) == (s_old.contains(y) || y == slot) by {
                        if s_new.contains(y) {
                            let i = choose|i: int| 0 <= i < s_new.len() && s_new[i] == y;
                            if i < s_old.len() {
                                assert(s_old[i] == y);
                            }
                        }
                        if s_old.contains(y) {
                            let i = choose|i: int| 0 <= i < s_old.len() && s_old[i] == y;
                            assert(s_new[i] == y);
                        }
                        if y == slot {
                            assert(s_new[s_old.len() as int] == y);
                        }
                    }
                    assert(self.replay_set() =~= old(self).replay_set().insert(slot));
                }
            } else {
                proof {
                    assert(self.replay_set() =~= old(self).replay_set().insert(slot));
                }
            }
        }
        persist
    }

    /// Retires the tracker when the end-of-startup marker arrives: from here
    /// on every account write is persisted, and the replay set is released.
    pub fn end_of_startup(&mut self)
        ensures
            final(self).wf(),
            final(self).startup_done,
            final(self).enabled == old(self).enabled,
            final(self).baseline == old(self).baseline,
            final(self).replay_set() == Set::<u64>::empty(),
            forall|slot: u64, is_startup: bool| final(self).spec_should_persist(slot, is_startup),
    {
        self.startup_done = true;
        self.slots_at_startup = Vec::new();
        proof {
            assert(self.replay_set() =~= Set::<u64>::empty());
        }
    }
}

} // verus!
