//! The monitor collection and the one operation that changes it.

use vstd::prelude::*;
use crate::clock::read_epoch_seconds;
use crate::config::RunConfig;
use crate::monitor::measured;
use crate::monitor::Monitor;
use crate::monitor::MonitorView;

verus! {

/// The values of a sequence of monitors, in the same order.
pub open spec fn views_of(monitors: Seq<Monitor>) -> Seq<MonitorView> {
    monitors.map_values(|m: Monitor| m@)
}

/// `after` is what one update tick makes of `before`: the same monitors in
/// the same order, each of them refreshed.
pub open spec fn is_tick(before: Seq<MonitorView>, after: Seq<MonitorView>, bound: int) -> bool {
    &&& after.len() == before.len()
    &&& forall|i: int|
        0 <= i < before.len() ==> (#[trigger] after[i]).is_refresh_of(before[i], bound)
}

/// What a tick over `draws` makes of `before`: the monitor at each place
/// carries the measurement of the draw at that place, a raw number and the
/// epoch second at which it was drawn, and is otherwise what it was.
pub open spec fn refreshed_by(
    before: Seq<MonitorView>,
    draws: Seq<(i32, i64)>,
    bound: int,
) -> Seq<MonitorView> {
    Seq::new(
        before.len(),
        |i: int| before[i].with_result(Some(measured(draws[i].0, draws[i].1, bound))),
    )
}

/// Draws a number with rand's `random`, which samples the whole range of
/// `i32` from the thread's generator. Nothing is claimed of the number.
/// rand panics where the operating system gives the generator no seed.
#[verifier::external_body]
fn random_number() -> (raw: i32) {
    rand::random::<i32>()
}

/// An ordered collection of monitors whose length never changes.
#[derive(Debug)]
pub struct MonitorStore {
    monitors: Vec<Monitor>,
}

impl View for MonitorStore {
    type V = Seq<MonitorView>;

    closed spec fn view(&self) -> Seq<MonitorView> {
        views_of(self.monitors@)
    }
}

impl MonitorStore {
    /// The store of these monitors, in this order.
    pub fn new(monitors: Vec<Monitor>) -> (store: MonitorStore)
        ensures
            store@ == views_of(monitors@),
    {
        MonitorStore { monitors }
    }

    /// The number of monitors.
    pub fn len(&self) -> (n: usize)
        ensures
            n == self@.len(),
    {
        self.monitors.len()
    }

    /// Read access to the monitors.
    pub fn monitors(&self) -> (monitors: &Vec<Monitor>)
        ensures
            views_of(monitors@) == self@,
    {
        &self.monitors
    }

    /// A copy of the collection as it stands at this moment.
    pub fn snapshot(&self) -> (image: Vec<Monitor>)
        ensures
            views_of(image@) == self@,
    {
        let mut image: Vec<Monitor> = Vec::new();
        let mut i: usize = 0;
        while i < self.monitors.len()
            invariant
                i <= self.monitors.len(),
                image.len() == i,
                forall|j: int| 0 <= j < i ==> image[j]@ == self.monitors[j]@,
            decreases self.monitors.len() - i,
        {
            image.push(self.monitors[i].clone());
            i = i + 1;
        }
        image
    }

    /// Gives the monitors back, in their final state.
    pub fn into_monitors(self) -> (monitors: Vec<Monitor>)
        ensures
            views_of(monitors@) == self@,
    {
        self.monitors
    }

    /// The tick over given draws: the monitor at each place gets the
    /// measurement of the draw at that place. Where the draws are not one
    /// for each monitor nothing is changed, and the answer says so.
    pub fn refresh_all(&mut self, draws: &Vec<(i32, i64)>, config: &RunConfig) -> (done: bool)
        ensures
            done <==> draws@.len() == old(self)@.len(),
            !done ==> final(self)@ == old(self)@,
            done ==> final(self)@ == refreshed_by(old(self)@, draws@, config@.value_bound),
            done ==> is_tick(old(self)@, final(self)@, config@.value_bound),
    {
        let ghost before = self@;
        let n = self.monitors.len();
        if draws.len() != n {
            return false;
        }
        let mut i: usize = 0;
        while i < n
            invariant
                n == before.len(),
                n == draws@.len(),
                i <= n,
                self@.len() == n,
                forall|j: int|
                    0 <= j < i ==> #[trigger] self@[j] == before[j].with_result(
                        Some(measured(draws@[j].0, draws@[j].1, config@.value_bound)),
                    ),
                forall|j: int|
                    0 <= j < i ==> (#[trigger] self@[j]).is_refresh_of(
                        before[j],
                        config@.value_bound,
                    ),
                forall|j: int| i <= j < n ==> #[trigger] self@[j] == before[j],
            decreases n - i,
        {
            let (raw, now) = draws[i];
            let ghost earlier = self@;
            self.monitors[i].refresh(raw, now, config);
            assert(forall|j: int| 0 <= j < n && j != i ==> #[trigger] self@[j] == earlier[j]);
            assert(earlier[i as int] == before[i as int]);
            i = i + 1;
        }
        assert(self@ =~= refreshed_by(before, draws@, config@.value_bound));
        true
    }

    /// One update tick: for every monitor, in order, the epoch second is
    /// read and a random number is drawn, and every monitor's result is
    /// then replaced by the measurement of its draw.
    pub fn update_monitors(&mut self, config: &RunConfig)
        ensures
            is_tick(old(self)@, final(self)@, config@.value_bound),
            exists|draws: Seq<(i32, i64)>|
                draws.len() == old(self)@.len() && final(self)@ == #[trigger] refreshed_by(
                    old(self)@,
                    draws,
                    config@.value_bound,
                ),
    {
        let n = self.monitors.len();
        let mut draws: Vec<(i32, i64)> = Vec::new();
        let mut i: usize = 0;
        while i < n
            invariant
                i <= n,
                draws@.len() == i,
            decreases n - i,
        {
            let now = read_epoch_seconds();
            let raw = random_number();
            draws.push((raw, now));
            i = i + 1;
        }
        self.refresh_all(&draws, config);
    }
}

/// After a tick every monitor has a result, and both fields of that result
/// are present.
pub proof fn lemma_tick_completes_every_result(
    before: Seq<MonitorView>,
    after: Seq<MonitorView>,
    bound: int,
)
    requires
        is_tick(before, after, bound),
    ensures
        forall|i: int|
            0 <= i < after.len() ==> (#[trigger] after[i]).result is Some
                && after[i].result->0.value is Some && after[i].result->0.processed_at is Some,
{
}

/// After a tick every value lies in `[0, bound)`.
pub proof fn lemma_tick_bounds_every_value(
    before: Seq<MonitorView>,
    after: Seq<MonitorView>,
    bound: int,
)
    requires
        is_tick(before, after, bound),
    ensures
        forall|i: int|
            0 <= i < after.len() ==> 0 <= (#[trigger] after[i]).result->0.value->0 < bound,
{
}

/// A tick keeps the length of the collection, the place of every monitor,
/// and all of a monitor's fields but the result.
pub proof fn lemma_tick_keeps_the_collection(
    before: Seq<MonitorView>,
    after: Seq<MonitorView>,
    bound: int,
)
    requires
        is_tick(before, after, bound),
    ensures
        after.len() == before.len(),
        forall|i: int|
            0 <= i < before.len() ==> (#[trigger] after[i]).with_result(None)
                == before[i].with_result(None),
{
}

/// The time of a result never goes back at a tick whose clock has not gone
/// back: a monitor whose result carries a time that is no later than the
/// time of its draw carries, after the tick, the time of its draw, which
/// is no earlier than the time it carried before.
pub proof fn lemma_tick_keeps_times_in_order(
    before: Seq<MonitorView>,
    draws: Seq<(i32, i64)>,
    bound: int,
    i: int,
)
    requires
        draws.len() == before.len(),
        0 <= i < before.len(),
        before[i].result matches Some(r) && r.processed_at matches Some(t) && t <= draws[i].1,
    ensures
        refreshed_by(before, draws, bound)[i].result->0.processed_at == Some(draws[i].1),
        refreshed_by(before, draws, bound)[i].result->0.processed_at->0
            >= before[i].result->0.processed_at->0,
{
}

/// Across two ticks that follow each other the time of every result is
/// non-decreasing, as long as no monitor's second draw is earlier than its
/// first.
pub proof fn lemma_times_in_order_across_ticks(
    before: Seq<MonitorView>,
    first: Seq<(i32, i64)>,
    second: Seq<(i32, i64)>,
    bound: int,
)
    requires
        first.len() == before.len(),
        second.len() == before.len(),
        forall|i: int| 0 <= i < before.len() ==> first[i].1 <= second[i].1,
    ensures
        forall|i: int|
            0 <= i < before.len() ==> (#[trigger] refreshed_by(
                refreshed_by(before, first, bound),
                second,
                bound,
            )[i]).result->0.processed_at->0 >= refreshed_by(
                before,
                first,
                bound,
            )[i].result->0.processed_at->0,
{
}

} // verus!
