//! Loading a snapshot into an `UnspentScriptPubKeysSet`, one record at a
//! time, with progress reports every batch of records.
use vstd::prelude::*;

use crate::uspk_set::{LoadError, UnspentScriptPubKeysSet, UspkSetStatus};

verus! {

/// Records between two progress reports.
pub const BATCH_SIZE: u64 = 100_000;

/// Microseconds in a minute.
pub const MICROS_PER_MINUTE: u128 = 60_000_000;

/// The running mean of `n` batch times, from the mean of the first `n - 1`
/// and the time of the last one.
pub open spec fn cumulative_mean(previous_mean: int, n: int, sample: int) -> int {
    (sample + (n - 1) * previous_mean) / n
}

/// Batches still to come after `batches_done` of a snapshot of `total` records.
pub open spec fn remaining_batches(total: int, batches_done: int) -> int {
    if total / BATCH_SIZE as int > batches_done {
        total / BATCH_SIZE as int - batches_done
    } else {
        0
    }
}

/// Estimated minutes to completion: remaining batches times the mean batch
/// time, in whole minutes, rounded up by one.
pub open spec fn eta_minutes(mean_micros: int, remaining: int) -> int {
    1 + (mean_micros * remaining) / MICROS_PER_MINUTE as int
}

/// What a progress report tells.
#[derive(Debug, Clone, Copy, PartialEq, Eq, Structural)]
pub struct ProgressReport {
    pub records_done: u64,
    pub total_records: u64,
    pub eta_minutes: u128,
}

/// Counters of a running load.
#[derive(Debug, Clone, Copy, PartialEq, Eq, Structural)]
pub struct LoadProgress {
    /// Records that the snapshot's header announces.
    pub total_records: u64,
    pub records_done: u64,
    pub batches_done: u64,
    /// Mean time of the batches done so far, in microseconds.
    pub average_batch_micros: u64,
}

impl LoadProgress {
    /// The counters of a load that has not read a record yet.
    pub open spec fn new_spec(total_records: u64) -> LoadProgress {
        LoadProgress { total_records, records_done: 0, batches_done: 0, average_batch_micros: 0 }
    }

    pub fn new(total_records: u64) -> (r: Self)
        ensures
            r == LoadProgress::new_spec(total_records),
    {
        LoadProgress { total_records, records_done: 0, batches_done: 0, average_batch_micros: 0 }
    }

    /// Counts one more record; `true` when it completes a batch.
    pub fn record_loaded(&mut self) -> (r: bool)
        requires
            old(self).records_done < u64::MAX,
        ensures
            *final(self) == (LoadProgress { records_done: (old(self).records_done + 1) as u64, ..*old(self) }),
            r == ((old(self).records_done + 1) % BATCH_SIZE as int == 0),
    {
        self.records_done = self.records_done + 1;
        self.records_done % BATCH_SIZE == 0
    }

    /// Counts one more batch that took `batch_micros`, updates the running
    /// mean and reports the estimate.
    pub fn complete_batch(&mut self, batch_micros: u64) -> (r: ProgressReport)
        requires
            old(self).batches_done < u64::MAX,
        ensures
            final(self).total_records == old(self).total_records,
            final(self).records_done == old(self).records_done,
            final(self).batches_done == old(self).batches_done + 1,
            final(self).average_batch_micros == cumulative_mean(
                old(self).average_batch_micros as int,
                old(self).batches_done + 1,
                batch_micros as int,
            ),
            r.records_done == old(self).records_done,
            r.total_records == old(self).total_records,
            r.eta_minutes == eta_minutes(
                final(self).average_batch_micros as int,
                remaining_batches(old(self).total_records as int, old(self).batches_done + 1),
            ),
    {
        let n: u64 = self.batches_done + 1;
        let prev: u128 = self.average_batch_micros as u128;
        let sample: u128 = batch_micros as u128;
        proof {
            assert((n - 1) * prev <= (u64::MAX as int) * (u64::MAX as int)) by (nonlinear_arith)
                requires
                    0 <= n - 1 <= u64::MAX,
                    0 <= prev <= u64::MAX,
            ;
            assert((sample + (n - 1) * prev) / (n as int) <= u64::MAX) by (nonlinear_arith)
                requires
                    1 <= n,
                    0 <= prev <= u64::MAX,
                    0 <= sample <= u64::MAX,
            ;
        }
        let total: u128 = sample + (n as u128 - 1) * prev;
        let mean: u128 = total / (n as u128);
        self.batches_done = n;
        self.average_batch_micros = mean as u64;
        let all_batches: u64 = self.total_records / BATCH_SIZE;
        let remaining: u64 = if all_batches > n {
            all_batches - n
        } else {
            0
        };
        proof {
            assert(mean * remaining <= (u64::MAX as int) * (u64::MAX as int)) by (nonlinear_arith)
                requires
                    0 <= mean <= u64::MAX,
                    0 <= remaining <= u64::MAX,
            ;
        }
        let eta: u128 = 1 + (mean * remaining as u128) / MICROS_PER_MINUTE;
        ProgressReport {
            records_done: self.records_done,
            total_records: self.total_records,
            eta_minutes: eta,
        }
    }
}

/// What the reader of the snapshot hands to a load.
pub enum LoadEvent {
    /// One more record was decoded: its script, and the microseconds since
    /// the last progress report (or since the load began).
    Record { script: Vec<u8>, batch_micros: u64 },
    /// The reader found no further record.
    EndOfSnapshot,
    /// The load was asked to stop.
    Cancelled,
    /// The snapshot could not be decoded.
    DecodeFailed,
}

/// What the reader of the snapshot does next.
#[derive(Debug, Clone, Copy, PartialEq, Eq, Structural)]
pub enum LoadAction {
    ReadNext,
    /// Report progress, restart the batch clock, then read on.
    Report(ProgressReport),
    /// The set is `Ready`.
    Finished,
    /// The set is back to `Empty`.
    Failed(LoadError),
}

/// The scripts of a sequence of records.
pub open spec fn scripts_of(records: Seq<Vec<u8>>) -> Seq<Seq<u8>> {
    records.map_values(|v: Vec<u8>| v@)
}

/// A load in progress: the set being built, and its counters.
pub struct SnapshotLoad {
    pub set: UnspentScriptPubKeysSet,
    pub progress: LoadProgress,
}

impl SnapshotLoad {
    /// Begins the load of a snapshot that announces `total_records`.
    pub fn new(total_records: u64) -> (r: Self)
        ensures
            r.set.wf(),
            r.set@ == Set::<Seq<u8>>::empty(),
            r.set.status_spec() == UspkSetStatus::Populating,
            r.progress == LoadProgress::new_spec(total_records),
    {
        let mut set = UnspentScriptPubKeysSet::new();
        let _ = set.begin_populating();
        SnapshotLoad { set, progress: LoadProgress::new(total_records) }
    }

    /// Takes one event of the reader: a record is added (with a report when
    /// it closes a batch); a cancellation, or the end after as many records
    /// as the header announced, makes the set `Ready` with what it holds; a
    /// decode failure, or an end after another number of records (a
    /// truncated snapshot), empties it.
    pub fn step(&mut self, event: LoadEvent) -> (r: LoadAction)
        requires
            old(self).set.wf(),
            old(self).set.status_spec() == UspkSetStatus::Populating,
            old(self).progress.records_done < u64::MAX,
            old(self).progress.batches_done < u64::MAX,
        ensures
            final(self).set.wf(),
            match event {
                LoadEvent::Record { script, batch_micros } => {
                    &&& final(self).set@ == old(self).set@.insert(script@)
                    &&& final(self).set.status_spec() == UspkSetStatus::Populating
                    &&& final(self).progress.records_done == old(self).progress.records_done + 1
                    &&& final(self).progress.batches_done == old(self).progress.batches_done + if r is Report { 1int } else { 0int }
                    &&& ((old(self).progress.records_done + 1) % BATCH_SIZE as int == 0 <==> r is Report)
                    &&& (r is ReadNext || r is Report)
                    &&& final(self).progress.total_records == old(self).progress.total_records
                    &&& final(self).progress.average_batch_micros == if r is Report {
                        cumulative_mean(
                            old(self).progress.average_batch_micros as int,
                            old(self).progress.batches_done + 1,
                            batch_micros as int,
                        )
                    } else {
                        old(self).progress.average_batch_micros as int
                    }
                    &&& (r matches LoadAction::Report(rep) ==> {
                        &&& rep.records_done == final(self).progress.records_done
                        &&& rep.total_records == final(self).progress.total_records
                        &&& rep.eta_minutes == eta_minutes(
                            final(self).progress.average_batch_micros as int,
                            remaining_batches(final(self).progress.total_records as int, final(self).progress.batches_done as int),
                        )
                    })
                },
                LoadEvent::EndOfSnapshot => if old(self).progress.records_done == old(self).progress.total_records {
                    &&& final(self).set@ == old(self).set@
                    &&& final(self).set.status_spec() == UspkSetStatus::Ready
                    &&& r == LoadAction::Finished
                } else {
                    &&& final(self).set@ == Set::<Seq<u8>>::empty()
                    &&& final(self).set.status_spec() == UspkSetStatus::Empty
                    &&& r == LoadAction::Failed(LoadError::SnapshotDecodeError)
                },
                LoadEvent::Cancelled => {
                    &&& final(self).set@ == old(self).set@
                    &&& final(self).set.status_spec() == UspkSetStatus::Ready
                    &&& r == LoadAction::Finished
                },
                LoadEvent::DecodeFailed => {
                    &&& final(self).set@ == Set::<Seq<u8>>::empty()
                    &&& final(self).set.status_spec() == UspkSetStatus::Empty
                    &&& r == LoadAction::Failed(LoadError::SnapshotDecodeError)
                },
            },
    {
        match event {
            LoadEvent::Record { script, batch_micros } => {
                self.set.insert_script(script);
                if self.progress.record_loaded() {
                    LoadAction::Report(self.progress.complete_batch(batch_micros))
                } else {
                    LoadAction::ReadNext
                }
            },
            LoadEvent::EndOfSnapshot => {
                if self.progress.records_done == self.progress.total_records {
                    self.set.finish_populating();
                    LoadAction::Finished
                } else {
                    self.set.fail_populating();
                    LoadAction::Failed(LoadError::SnapshotDecodeError)
                }
            },
            LoadEvent::Cancelled => {
                self.set.finish_populating();
                LoadAction::Finished
            },
            LoadEvent::DecodeFailed => {
                self.set.fail_populating();
                LoadAction::Failed(LoadError::SnapshotDecodeError)
            },
        }
    }
}

/// Loads the scripts of `records`, as a snapshot that holds them would be
/// loaded. The set is then `Ready`, holds exactly those scripts, and holds
/// one per record when no two records share a script.
pub fn populate_from_scripts(records: Vec<Vec<u8>>) -> (r: UnspentScriptPubKeysSet)
    requires
        records.len() < u64::MAX,
    ensures
        r.wf(),
        r.status_spec() == UspkSetStatus::Ready,
        r@ == scripts_of(records@).to_set(),
        forall|i: int| 0 <= i < records.len() ==> r@.contains(#[trigger] records@[i]@),
        scripts_of(records@).no_duplicates() ==> r@.len() == records.len(),
{
    let ghost all = scripts_of(records@);
    let ghost orig = records@;
    let mut records = records;
    let mut load = SnapshotLoad::new(records.len() as u64);
    while records.len() > 0
        invariant
            load.set.wf(),
            load.set.status_spec() == UspkSetStatus::Populating,
            records.len() <= all.len(),
            all.len() < u64::MAX,
            load.progress.records_done == all.len() - records.len(),
            load.progress.total_records == all.len(),
            load.progress.batches_done <= load.progress.records_done,
            scripts_of(records@) == all.subrange(0, records.len() as int),
            load.set@ == all.subrange(records.len() as int, all.len() as int).to_set(),
        decreases records.len(),
    {
        let ghost n = records.len() as int;
        let ghost before = records@;
        let script = records.pop().unwrap();
        proof {
            assert(scripts_of(before)[n - 1] == before[n - 1]@);
            assert(all.subrange(0, n)[n - 1] == all[n - 1]);
            assert(all[n - 1] == script@);
        }
        let _ = load.step(LoadEvent::Record { script, batch_micros: 0 });
        proof {
            let tail = all.subrange(n, all.len() as int);
            let tail2 = all.subrange(n - 1, all.len() as int);
            assert forall|x: Seq<u8>| tail2.to_set().contains(x) <==> #[trigger] tail.to_set().insert(all[n - 1]).contains(x) by {
                if tail2.contains(x) {
                    let k = choose|k: int| 0 <= k < tail2.len() && tail2[k] == x;
                    if k > 0 {
                        assert(tail[k - 1] == x);
                    }
                }
                if tail.contains(x) {
                    let k = choose|k: int| 0 <= k < tail.len() && tail[k] == x;
                    assert(tail2[k + 1] == x);
                }
                if x == all[n - 1] {
                    assert(tail2[0] == x);
                }
            }
            assert(load.set@ =~= tail2.to_set());
            assert(scripts_of(records@) =~= all.subrange(0, records.len() as int));
        }
    }
    let _ = load.step(LoadEvent::EndOfSnapshot);
    proof {
        assert(all.subrange(0, all.len() as int) =~= all);
        assert forall|i: int| 0 <= i < orig.len() implies load.set@.contains(#[trigger] orig[i]@) by {
            assert(all[i] == orig[i]@);
            assert(all.contains(all[i]));
        }
        if all.no_duplicates() {
            all.unique_seq_to_set();
        }
    }
    load.set
}

} // verus!
