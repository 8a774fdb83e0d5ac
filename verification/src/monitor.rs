//! The monitor entity and the measurement it carries.

use vstd::prelude::*;
use vstd::arithmetic::div_mod::lemma_fundamental_div_mod;
use vstd::arithmetic::div_mod::lemma_fundamental_div_mod_converse_mod;
use crate::config::RunConfig;

verus! {

/// One measurement of a monitor: a value and the epoch second at which it
/// was taken.
#[derive(Clone, Copy, Debug, PartialEq, Eq)]
pub struct MonitorResult {
    pub value: Option<i32>,
    pub processed_at: Option<i64>,
}

impl MonitorResult {
    /// Both fields are present together.
    pub open spec fn is_complete(self) -> bool {
        self.value is Some && self.processed_at is Some
    }

    /// The value, where present, lies in `[0, bound)`.
    pub open spec fn within(self, bound: int) -> bool {
        self.value matches Some(v) ==> 0 <= v < bound
    }
}

/// The measurement that a raw number taken at `now` stands for: the raw
/// number reduced into `[0, bound)` and the time it was taken at.
pub open spec fn measured(raw: i32, now: i64, bound: int) -> MonitorResult {
    MonitorResult { value: Some(((raw as int) % bound) as i32), processed_at: Some(now) }
}

/// A negative number's remainder, read off the remainder of its opposite:
/// zero where that is zero, and otherwise what is missing to the bound.
proof fn lemma_remainder_of_negative(raw: int, bound: int)
    requires
        raw < 0,
        bound > 0,
    ensures
        raw % bound == if (-raw) % bound == 0 {
            0
        } else {
            bound - (-raw) % bound
        },
{
    let q = (-raw) / bound;
    let r = (-raw) % bound;
    lemma_fundamental_div_mod(-raw, bound);
    if r == 0 {
        assert(raw == (-q) * bound + 0) by (nonlinear_arith)
            requires
                -raw == bound * q + r,
                r == 0,
        ;
        lemma_fundamental_div_mod_converse_mod(raw, bound, -q, 0);
    } else {
        assert(raw == (-q - 1) * bound + (bound - r)) by (nonlinear_arith)
            requires
                -raw == bound * q + r,
        ;
        lemma_fundamental_div_mod_converse_mod(raw, bound, -q - 1, bound - r);
    }
}

/// Makes a measurement of a raw number taken at the epoch second `now`. The
/// value is the raw number's remainder by the configured bound, never
/// negative.
pub fn measure(raw: i32, now: i64, config: &RunConfig) -> (result: MonitorResult)
    ensures
        result == measured(raw, now, config@.value_bound),
        result.is_complete(),
        result.within(config@.value_bound),
{
    let bound = config.value_bound();
    let remainder: i32 = raw % bound;
    proof {
        if raw < 0 {
            lemma_remainder_of_negative(raw as int, bound as int);
        }
    }
    let value: i32 = if remainder < 0 {
        remainder + bound
    } else {
        remainder
    };
    MonitorResult { value: Some(value), processed_at: Some(now) }
}

/// A named unit whose measurement result is periodically refreshed.
#[derive(Debug, PartialEq, Eq)]
pub struct Monitor {
    pub monitor_id: Option<u32>,
    pub name: String,
    pub script: Option<String>,
    pub monitor_type: Option<String>,
    pub result: Option<MonitorResult>,
    pub code: String,
}

/// The mathematical value of a [`Monitor`]: its strings as character
/// sequences.
pub struct MonitorView {
    pub monitor_id: Option<u32>,
    pub name: Seq<char>,
    pub script: Option<Seq<char>>,
    pub monitor_type: Option<Seq<char>>,
    pub result: Option<MonitorResult>,
    pub code: Seq<char>,
}

/// The view of an optional string.
pub open spec fn text_of(s: Option<String>) -> Option<Seq<char>> {
    match s {
        Some(t) => Some(t@),
        None => None,
    }
}

impl View for Monitor {
    type V = MonitorView;

    open spec fn view(&self) -> MonitorView {
        MonitorView {
            monitor_id: self.monitor_id,
            name: self.name@,
            script: text_of(self.script),
            monitor_type: text_of(self.monitor_type),
            result: self.result,
            code: self.code@,
        }
    }
}

impl MonitorView {
    /// The same monitor carrying `result` in place of its current result.
    pub open spec fn with_result(self, result: Option<MonitorResult>) -> MonitorView {
        MonitorView { result: result, ..self }
    }

    /// The monitor has been updated: its result is present and complete.
    pub open spec fn is_measured(self) -> bool {
        self.result matches Some(r) && r.is_complete()
    }

    /// This monitor is `before` with its result replaced by a complete
    /// measurement whose value lies in `[0, bound)`.
    pub open spec fn is_refresh_of(self, before: MonitorView, bound: int) -> bool {
        &&& self == before.with_result(self.result)
        &&& self.is_measured()
        &&& self.result->0.within(bound)
    }
}

fn clone_text(s: &Option<String>) -> (copy: Option<String>)
    ensures
        text_of(copy) == text_of(*s),
{
    match s {
        Some(t) => Some(t.clone()),
        None => None,
    }
}

impl Monitor {
    /// A monitor that has a name and a code and nothing else yet.
    pub fn new(name: String, code: String) -> (m: Monitor)
        ensures
            m@ == (MonitorView {
                monitor_id: None,
                name: name@,
                script: None,
                monitor_type: None,
                result: None,
                code: code@,
            }),
    {
        Monitor { monitor_id: None, name, script: None, monitor_type: None, result: None, code }
    }

    /// Replaces the result by the measurement of `raw` taken at `now` and
    /// leaves every other field as it was.
    pub fn refresh(&mut self, raw: i32, now: i64, config: &RunConfig)
        ensures
            final(self)@ == old(self)@.with_result(
                Some(measured(raw, now, config@.value_bound)),
            ),
            final(self)@.is_refresh_of(old(self)@, config@.value_bound),
    {
        self.result = Some(measure(raw, now, config));
    }
}

impl Clone for Monitor {
    fn clone(&self) -> (copy: Monitor)
        ensures
            copy@ == self@,
    {
        Monitor {
            monitor_id: self.monitor_id,
            name: self.name.clone(),
            script: clone_text(&self.script),
            monitor_type: clone_text(&self.monitor_type),
            result: self.result,
            code: self.code.clone(),
        }
    }
}

/// The time of a monitor's result never goes back from one update to the
/// next, as long as the clock that the updates read does not: a monitor
/// refreshed at `earlier` and then at `later` carries `later`, which is no
/// less than the `earlier` that it carried before.
pub proof fn lemma_processed_at_never_goes_back(
    monitor: MonitorView,
    first_raw: i32,
    earlier: i64,
    second_raw: i32,
    later: i64,
    bound: int,
)
    requires
        earlier <= later,
    ensures
        ({
            let once = monitor.with_result(Some(measured(first_raw, earlier, bound)));
            let twice = once.with_result(Some(measured(second_raw, later, bound)));
            &&& once.result->0.processed_at == Some(earlier)
            &&& twice.result->0.processed_at == Some(later)
            &&& twice.result->0.processed_at->0 >= once.result->0.processed_at->0
        }),
{
}

} // verus!
