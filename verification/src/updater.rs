//! The periodic worker that refreshes the store.

use vstd::prelude::*;
use crate::config::RunConfig;
use crate::monitor::MonitorView;
use crate::store::is_tick;
use crate::store::MonitorStore;

verus! {

/// The updater: its settings, and whether it has observed the cancellation
/// signal and returned.
#[derive(Clone, Copy, Debug)]
pub struct Updater {
    pub config: RunConfig,
    pub returned: bool,
}

impl Updater {
    /// What a tick of this updater makes of the store: nothing once it has
    /// returned, and otherwise a refresh of every monitor.
    pub open spec fn effect(self, before: Seq<MonitorView>, after: Seq<MonitorView>) -> bool {
        if self.returned {
            after == before
        } else {
            is_tick(before, after, self.config@.value_bound)
        }
    }

    /// The seconds to sleep after a tick: none once the updater has
    /// returned, and otherwise the update interval.
    pub open spec fn pause(self) -> int {
        if self.returned {
            0
        } else {
            self.config@.update_interval_secs
        }
    }

    /// The updater after its check of the cancellation signal: it has
    /// returned if it had before or if the signal is raised.
    pub open spec fn after_check(self, cancelled: bool) -> Updater {
        Updater { config: self.config, returned: self.returned || cancelled }
    }

    /// An updater that has not run yet.
    pub fn new(config: RunConfig) -> (updater: Updater)
        ensures
            updater == (Updater { config: config, returned: false }),
    {
        Updater { config, returned: false }
    }

    /// The check that precedes every tick. Where the cancellation signal is
    /// raised the updater returns for good; the answer says whether another
    /// tick is to be performed.
    pub fn observe_cancel(&mut self, cancelled: bool) -> (proceed: bool)
        ensures
            *final(self) == old(self).after_check(cancelled),
            proceed == !final(self).returned,
    {
        if cancelled {
            self.returned = true;
        }
        !self.returned
    }

    /// One tick: refreshes every monitor of the store and answers the
    /// seconds to sleep before the next check. An updater that has returned
    /// leaves the store as it is.
    pub fn tick(&self, store: &mut MonitorStore) -> (sleep_secs: u64)
        ensures
            self.effect(old(store)@, final(store)@),
            sleep_secs == self.pause(),
    {
        if self.returned {
            0
        } else {
            store.update_monitors(&self.config);
            self.config.update_interval_secs()
        }
    }
}

/// An updater that has returned stays returned whatever the signal shows
/// at a later check, and its ticks change nothing: once the cancellation
/// signal has been observed, the store is not mutated again.
pub proof fn lemma_returned_updater_changes_nothing(
    updater: Updater,
    cancelled: bool,
    before: Seq<MonitorView>,
    after: Seq<MonitorView>,
)
    requires
        updater.returned,
        updater.after_check(cancelled).effect(before, after),
    ensures
        updater.after_check(cancelled).returned,
        after == before,
{
}

/// A check that finds the cancellation signal raised makes the updater
/// return, so that no tick follows it.
pub proof fn lemma_raised_signal_stops_updater(
    updater: Updater,
    before: Seq<MonitorView>,
    after: Seq<MonitorView>,
)
    requires
        updater.after_check(true).effect(before, after),
    ensures
        updater.after_check(true).returned,
        after == before,
{
}

} // verus!
