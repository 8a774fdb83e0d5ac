//! The periodic worker that decides when a snapshot file is written.

use vstd::prelude::*;
use crate::clock::local_time;
use crate::clock::ClockTime;
use crate::clock::ClockView;
use crate::config::RunConfig;
use vstd::seq_lib::seq_to_set_is_finite;
use vstd::set_lib::lemma_len_subset;
use crate::naming::file_name_text;
use crate::naming::lemma_names_tell_times_apart;
use crate::naming::snapshot_file_name;
use crate::naming::SNAPSHOT_SUFFIX;

verus! {

/// A snapshot is due at `minute` unless that minute is the one last
/// written. With nothing written yet, every minute is due.
pub open spec fn is_due(last_written_minute: Option<u32>, minute: int) -> bool {
    match last_written_minute {
        Some(last) => last != minute,
        None => true,
    }
}

/// What the snapshot writer does at a tick.
#[derive(Debug, PartialEq, Eq)]
pub enum SnapshotDecision {
    /// Nothing is written at this tick.
    Skip,
    /// The collection is to be written to `file_name`, for `minute`.
    Write { file_name: String, minute: u32 },
}

/// The snapshot writer: its poll period, the minute of the last file it
/// wrote, if any, and whether it has observed the cancellation signal and
/// returned.
#[derive(Clone, Copy, Debug)]
pub struct SnapshotWriter {
    pub poll_interval_secs: u64,
    pub last_written_minute: Option<u32>,
    pub returned: bool,
}

impl SnapshotWriter {
    /// The writer writes at a tick that observes `minute`.
    pub open spec fn writes_at(self, minute: int) -> bool {
        !self.returned && is_due(self.last_written_minute, minute)
    }

    /// `decision` is what the writer decides at a tick that observes the
    /// local time `now`: to write, under the name that belongs to `now`,
    /// exactly where a snapshot is due.
    pub open spec fn decides(self, now: ClockView, decision: SnapshotDecision) -> bool {
        match decision {
            SnapshotDecision::Skip => !self.writes_at(now.minute),
            SnapshotDecision::Write { file_name, minute } => {
                &&& self.writes_at(now.minute)
                &&& minute == now.minute
                &&& file_name@ == file_name_text(now, SNAPSHOT_SUFFIX@)
            },
        }
    }

    /// The writer after its check of the cancellation signal.
    pub open spec fn after_check(self, cancelled: bool) -> SnapshotWriter {
        SnapshotWriter { returned: self.returned || cancelled, ..self }
    }

    /// The writer after a write for `minute` that succeeded or failed: a
    /// file that was written is remembered by its minute, and a failed
    /// write leaves the writer as it was.
    pub open spec fn after_write(self, minute: u32, succeeded: bool) -> SnapshotWriter {
        if succeeded {
            SnapshotWriter { last_written_minute: Some(minute), ..self }
        } else {
            self
        }
    }

    /// A writer that has written nothing yet.
    pub fn new(config: &RunConfig) -> (writer: SnapshotWriter)
        ensures
            writer.poll_interval_secs == config@.poll_interval_secs,
            writer.last_written_minute is None,
            !writer.returned,
    {
        SnapshotWriter {
            poll_interval_secs: config.poll_interval_secs(),
            last_written_minute: None,
            returned: false,
        }
    }

    /// The check that precedes every tick. Where the cancellation signal is
    /// raised the writer returns for good; the answer says whether another
    /// tick is to be performed.
    pub fn observe_cancel(&mut self, cancelled: bool) -> (proceed: bool)
        ensures
            *final(self) == old(self).after_check(cancelled),
            proceed == !final(self).returned,
    {
        if cancelled {
            self.returned = true;
        }
        !self.returned
    }

    /// The decision at a tick that observes the local time `now`.
    pub fn decide(&self, now: ClockTime) -> (decision: SnapshotDecision)
        ensures
            self.decides(now@, decision),
    {
        let minute = now.minute();
        let due = match self.last_written_minute {
            Some(last) => last != minute,
            None => true,
        };
        if !self.returned && due {
            SnapshotDecision::Write { file_name: snapshot_file_name(now), minute }
        } else {
            SnapshotDecision::Skip
        }
    }

    /// The decision at this moment: reads the local clock and decides on
    /// what it shows.
    pub fn poll(&self) -> (decision: SnapshotDecision)
        ensures
            exists|now: ClockView| now.is_valid() && #[trigger] self.decides(now, decision),
    {
        self.decide(local_time())
    }

    /// Takes the outcome of the write that was decided for `minute`. A
    /// written file is remembered, so that the minute is not written
    /// again; a failed write is not, and is not tried again before the
    /// next tick.
    pub fn finish_write(&mut self, minute: u32, succeeded: bool)
        ensures
            *final(self) == old(self).after_write(minute, succeeded),
    {
        if succeeded {
            self.last_written_minute = Some(minute);
        }
    }
}

/// One iteration of the writer's loop as the writer meets it: whether the
/// cancellation signal is raised at the check, the local time that the
/// clock then shows, and whether a write, if one is attempted, succeeds.
///
/// The time is held as `stamp`, a count of minutes of local time from some
/// midnight on: it tells an observed minute from the same minute of
/// another hour or another day.
pub struct Observation {
    pub cancelled: bool,
    pub stamp: nat,
    pub write_succeeds: bool,
}

/// The time of day at the count `stamp` of minutes.
pub open spec fn time_at(stamp: nat) -> ClockView {
    ClockView { hour: (stamp as int / 60) % 24, minute: stamp as int % 60 }
}

/// The name of the snapshot file written at the count `stamp` of minutes.
pub open spec fn name_at(stamp: nat) -> Seq<char> {
    file_name_text(time_at(stamp), SNAPSHOT_SUFFIX@)
}

impl Observation {
    /// The minute of the hour that the clock shows.
    pub open spec fn minute(self) -> u32 {
        (self.stamp % 60) as u32
    }
}

impl SnapshotWriter {
    /// The iteration `tick` produces a file: the writer has not returned,
    /// a snapshot is due at the minute observed, and the write succeeds.
    pub open spec fn produces_file(self, tick: Observation) -> bool {
        self.after_check(tick.cancelled).writes_at(tick.minute() as int) && tick.write_succeeds
    }

    /// The writer after the iteration `tick`: after the check, and after
    /// the write where one was decided.
    pub open spec fn after_tick(self, tick: Observation) -> SnapshotWriter {
        let checked = self.after_check(tick.cancelled);
        if checked.writes_at(tick.minute() as int) {
            checked.after_write(tick.minute(), tick.write_succeeds)
        } else {
            checked
        }
    }

    /// The writer after the iterations of `run`, in order.
    pub open spec fn after_run(self, run: Seq<Observation>) -> SnapshotWriter
        decreases run.len(),
    {
        if run.len() == 0 {
            self
        } else {
            self.after_run(run.drop_last()).after_tick(run.last())
        }
    }

    /// The files that the iterations of `run` produce, in the order in
    /// which they are produced, each as the count of minutes that its
    /// iteration observed.
    pub open spec fn files_of(self, run: Seq<Observation>) -> Seq<nat>
        decreases run.len(),
    {
        if run.len() == 0 {
            Seq::empty()
        } else {
            let earlier = self.files_of(run.drop_last());
            if self.after_run(run.drop_last()).produces_file(run.last()) {
                earlier.push(run.last().stamp)
            } else {
                earlier
            }
        }
    }
}

/// The observed time never goes back.
pub open spec fn clock_never_goes_back(run: Seq<Observation>) -> bool {
    forall|i: int, j: int| 0 <= i <= j < run.len() ==> run[i].stamp <= run[j].stamp
}

/// The counts of minutes that the iterations of `run` observe, in order.
pub open spec fn stamps_of(run: Seq<Observation>) -> Seq<nat> {
    run.map_values(|tick: Observation| tick.stamp)
}

/// The minute that the writer remembers is the minute of the last file of
/// the run, and where the run produced no file, the minute that it
/// remembered at the start.
pub proof fn lemma_last_written_is_last_file(writer: SnapshotWriter, run: Seq<Observation>)
    ensures
        writer.after_run(run).last_written_minute == if writer.files_of(run).len() > 0 {
            Some((writer.files_of(run).last() % 60) as u32)
        } else {
            writer.last_written_minute
        },
    decreases run.len(),
{
    if run.len() > 0 {
        lemma_last_written_is_last_file(writer, run.drop_last());
    }
}

/// Two files that follow each other are never for the same minute of the
/// hour, and the first file of a run is never for the minute that the
/// writer remembered at the start. This holds of every clock.
pub proof fn lemma_no_file_for_the_minute_just_written(
    writer: SnapshotWriter,
    run: Seq<Observation>,
)
    ensures
        forall|a: int|
            0 <= a < writer.files_of(run).len() - 1 ==> #[trigger] writer.files_of(run)[a] % 60
                != writer.files_of(run)[a + 1] % 60,
        writer.files_of(run).len() > 0 ==> writer.last_written_minute != Some(
            (writer.files_of(run)[0] % 60) as u32,
        ),
    decreases run.len(),
{
    if run.len() > 0 {
        let earlier = run.drop_last();
        lemma_no_file_for_the_minute_just_written(writer, earlier);
        lemma_last_written_is_last_file(writer, earlier);
    }
}

/// Every file of a run is for a time that one of its iterations observed,
/// and none is for a later time than the last iteration observed.
pub proof fn lemma_files_are_observed(writer: SnapshotWriter, run: Seq<Observation>)
    requires
        clock_never_goes_back(run),
    ensures
        forall|a: int|
            0 <= a < writer.files_of(run).len() ==> stamps_of(run).contains(
                #[trigger] writer.files_of(run)[a],
            ),
        forall|a: int|
            0 <= a < writer.files_of(run).len() ==> #[trigger] writer.files_of(run)[a]
                <= run.last().stamp,
    decreases run.len(),
{
    if run.len() > 0 {
        let earlier = run.drop_last();
        let files = writer.files_of(run);
        let before = writer.files_of(earlier);
        let newest = run.len() - 1;
        assert(clock_never_goes_back(earlier));
        lemma_files_are_observed(writer, earlier);
        assert forall|a: int| 0 <= a < files.len() implies stamps_of(run).contains(
            #[trigger] files[a],
        ) by {
            if a < before.len() {
                let i = choose|i: int|
                    0 <= i < stamps_of(earlier).len() && stamps_of(earlier)[i] == before[a];
                assert(stamps_of(run)[i] == files[a]);
            } else {
                assert(stamps_of(run)[newest] == files[a]);
            }
        }
    }
}

/// At most one file is written for an observed minute: where the observed
/// time never goes back, every file of a run is for a later time than the
/// file before it, so that no two iterations that produce a file observe
/// the same minute, however long the run and however short the poll
/// period.
pub proof fn lemma_one_file_per_minute(writer: SnapshotWriter, run: Seq<Observation>)
    requires
        clock_never_goes_back(run),
    ensures
        forall|a: int, b: int|
            0 <= a < b < writer.files_of(run).len() ==> writer.files_of(run)[a]
                < writer.files_of(run)[b],
        writer.files_of(run).no_duplicates(),
    decreases run.len(),
{
    if run.len() > 0 {
        let earlier = run.drop_last();
        assert(clock_never_goes_back(earlier));
        lemma_one_file_per_minute(writer, earlier);
        lemma_last_written_is_last_file(writer, earlier);
        lemma_files_are_observed(writer, earlier);
    }
}

/// A run produces no more files than its iterations observe distinct
/// minutes, where the observed time never goes back.
pub proof fn lemma_no_more_files_than_minutes(writer: SnapshotWriter, run: Seq<Observation>)
    requires
        clock_never_goes_back(run),
    ensures
        writer.files_of(run).len() <= stamps_of(run).to_set().len(),
{
    let files = writer.files_of(run);
    lemma_one_file_per_minute(writer, run);
    lemma_files_are_observed(writer, run);
    files.unique_seq_to_set();
    seq_to_set_is_finite(stamps_of(run));
    assert(files.to_set().subset_of(stamps_of(run).to_set()));
    lemma_len_subset(files.to_set(), stamps_of(run).to_set());
}

/// Two times less than a day apart are different times of day.
pub proof fn lemma_times_of_a_day_differ(earlier: nat, later: nat)
    requires
        earlier < later < earlier + 1440,
    ensures
        time_at(earlier) != time_at(later),
        time_at(earlier).is_valid(),
        time_at(later).is_valid(),
{
}

/// No file of a run is overwritten by a later one: where the observed time
/// never goes back and the run observes less than a day, the names of its
/// files are pairwise distinct, each the name of the time that its own
/// iteration observed.
pub proof fn lemma_file_names_differ(writer: SnapshotWriter, run: Seq<Observation>)
    requires
        clock_never_goes_back(run),
        run.len() > 0 ==> run.last().stamp < run[0].stamp + 1440,
    ensures
        forall|a: int, b: int|
            0 <= a < b < writer.files_of(run).len() ==> name_at(writer.files_of(run)[a])
                != name_at(writer.files_of(run)[b]),
{
    let files = writer.files_of(run);
    lemma_one_file_per_minute(writer, run);
    lemma_files_are_observed(writer, run);
    assert forall|a: int, b: int| 0 <= a < b < files.len() implies name_at(files[a]) != name_at(
        files[b],
    ) by {
        lemma_times_of_a_day_differ(files[a], files[b]);
        lemma_names_tell_times_apart(time_at(files[a]), time_at(files[b]), SNAPSHOT_SUFFIX@);
    }
}

} // verus!
