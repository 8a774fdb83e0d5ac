//! The settings of a run: the two worker periods, the run duration and the
//! bound on measured values.

use vstd::prelude::*;

verus! {

/// The period of the updater unless configured otherwise, in seconds.
pub const DEFAULT_UPDATE_INTERVAL_SECS: u64 = 30;

/// The poll period of the snapshot writer unless configured otherwise, in
/// seconds.
pub const DEFAULT_POLL_INTERVAL_SECS: u64 = 60;

/// The duration of a run unless configured otherwise, in seconds.
pub const DEFAULT_RUN_DURATION_SECS: u64 = 300;

/// The exclusive upper bound of measured values unless configured
/// otherwise.
pub const DEFAULT_VALUE_BOUND: i32 = 100;

/// The settings of a run as mathematical integers.
pub struct ConfigView {
    pub update_interval_secs: int,
    pub poll_interval_secs: int,
    pub run_duration_secs: int,
    pub value_bound: int,
}

impl ConfigView {
    /// The settings that apply where nothing is configured.
    pub open spec fn standard() -> ConfigView {
        ConfigView {
            update_interval_secs: DEFAULT_UPDATE_INTERVAL_SECS as int,
            poll_interval_secs: DEFAULT_POLL_INTERVAL_SECS as int,
            run_duration_secs: DEFAULT_RUN_DURATION_SECS as int,
            value_bound: DEFAULT_VALUE_BOUND as int,
        }
    }
}

/// The settings of a run. They are fixed once made, and the value bound of
/// every configuration is positive.
#[derive(Clone, Copy, Debug, PartialEq, Eq)]
pub struct RunConfig {
    update_interval_secs: u64,
    poll_interval_secs: u64,
    run_duration_secs: u64,
    value_bound: i32,
}

impl View for RunConfig {
    type V = ConfigView;

    closed spec fn view(&self) -> ConfigView {
        ConfigView {
            update_interval_secs: self.update_interval_secs as int,
            poll_interval_secs: self.poll_interval_secs as int,
            run_duration_secs: self.run_duration_secs as int,
            value_bound: self.value_bound as int,
        }
    }
}

impl RunConfig {
    #[verifier::type_invariant]
    pub closed spec fn well_formed(self) -> bool {
        self.value_bound > 0
    }

    /// The configuration with these settings, or `None` where the value
    /// bound is not positive: no value lies in an empty range.
    pub fn new(
        update_interval_secs: u64,
        poll_interval_secs: u64,
        run_duration_secs: u64,
        value_bound: i32,
    ) -> (config: Option<RunConfig>)
        ensures
            config is Some <==> value_bound > 0,
            config matches Some(c) ==> c@ == (ConfigView {
                update_interval_secs: update_interval_secs as int,
                poll_interval_secs: poll_interval_secs as int,
                run_duration_secs: run_duration_secs as int,
                value_bound: value_bound as int,
            }),
    {
        if value_bound > 0 {
            Some(
                RunConfig {
                    update_interval_secs,
                    poll_interval_secs,
                    run_duration_secs,
                    value_bound,
                },
            )
        } else {
            None
        }
    }

    /// The seconds between two update ticks.
    pub fn update_interval_secs(&self) -> (secs: u64)
        ensures
            secs == self@.update_interval_secs,
    {
        self.update_interval_secs
    }

    /// The seconds between two polls of the snapshot writer.
    pub fn poll_interval_secs(&self) -> (secs: u64)
        ensures
            secs == self@.poll_interval_secs,
    {
        self.poll_interval_secs
    }

    /// The seconds for which the workers run.
    pub fn run_duration_secs(&self) -> (secs: u64)
        ensures
            secs == self@.run_duration_secs,
    {
        self.run_duration_secs
    }

    /// The exclusive upper bound of measured values, always positive.
    pub fn value_bound(&self) -> (bound: i32)
        ensures
            bound == self@.value_bound,
            bound > 0,
    {
        proof {
            use_type_invariant(self);
        }
        self.value_bound
    }
}

impl Default for RunConfig {
    fn default() -> (config: RunConfig)
        ensures
            config@ == ConfigView::standard(),
    {
        RunConfig {
            update_interval_secs: DEFAULT_UPDATE_INTERVAL_SECS,
            poll_interval_secs: DEFAULT_POLL_INTERVAL_SECS,
            run_duration_secs: DEFAULT_RUN_DURATION_SECS,
            value_bound: DEFAULT_VALUE_BOUND,
        }
    }
}

} // verus!
