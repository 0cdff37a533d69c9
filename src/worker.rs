use vstd::prelude::*;
use crate::config::Config;

verus! {

/// What a worker reports after one batch was loaded.
#[derive(Debug, Clone, Copy, PartialEq, Eq, Structural)]
pub enum BatchOutcome {
    /// The store acknowledged every row of the batch.
    Written { worker_id: usize, batch_id: usize, rows: u64 },
    /// The store acknowledged a different number of rows than were sent.
    ShortWrite { worker_id: usize, batch_id: usize, rows: u64, expected: usize },
}

/// The outcome owed for a batch whose load was acknowledged with `rows`.
pub open spec fn outcome_of(worker_id: usize, batch_id: usize, rows: u64, expected: usize) -> BatchOutcome {
    if rows == expected {
        BatchOutcome::Written { worker_id, batch_id, rows }
    } else {
        BatchOutcome::ShortWrite { worker_id, batch_id, rows, expected }
    }
}

/// Compares the acknowledged row count of a batch with the rows sent.
pub fn reconcile(worker_id: usize, batch_id: usize, rows: u64, expected: usize) -> (r: BatchOutcome)
    ensures
        r == outcome_of(worker_id, batch_id, rows, expected),
{
    if rows == expected as u64 {
        BatchOutcome::Written { worker_id, batch_id, rows }
    } else {
        BatchOutcome::ShortWrite { worker_id, batch_id, rows, expected }
    }
}

impl BatchOutcome {
    /// Whether the store acknowledged fewer or more rows than were sent.
    pub fn is_short(&self) -> (r: bool)
        ensures
            r == (self is ShortWrite),
    {
        match self {
            BatchOutcome::Written { .. } => false,
            BatchOutcome::ShortWrite { .. } => true,
        }
    }
}

/// What a worker does next.
#[derive(Debug, Clone, Copy, PartialEq, Eq, Structural)]
pub enum WorkerStep {
    /// Generate `records` records with strings of `string_length`
    /// characters, load them, and report the acknowledged count.
    Load { batch_id: usize, records: usize, string_length: usize },
    /// The quota is done.
    Finished,
}

/// The decisions of one worker: which batch comes next, and how each
/// acknowledged count is judged. A short write is reported and never stops
/// the worker.
#[derive(Debug, Clone, Copy, PartialEq, Eq, Structural)]
pub struct Worker {
    pub id: usize,
    pub quota: usize,
    pub next_batch: usize,
    pub records_per_batch: usize,
    pub string_length: usize,
    pub short_writes: usize,
}

impl Worker {
    pub open spec fn wf(&self) -> bool {
        &&& self.next_batch <= self.quota
        &&& self.short_writes <= self.next_batch
    }

    /// A worker with id `id` and its share of `cfg`, before its first batch.
    pub fn new(id: usize, cfg: &Config) -> (r: Worker)
        requires
            cfg.wf(),
        ensures
            r.wf(),
            r.id == id,
            r.quota == cfg.quota(),
            r.next_batch == 0,
            r.records_per_batch == cfg.records_per_batch,
            r.string_length == cfg.random_string_length,
            r.short_writes == 0,
    {
        Worker {
            id,
            quota: cfg.batches_per_worker(),
            next_batch: 0,
            records_per_batch: cfg.records_per_batch,
            string_length: cfg.random_string_length,
            short_writes: 0,
        }
    }

    /// The next step: load the next batch while the quota lasts.
    pub fn next_step(&self) -> (r: WorkerStep)
        requires
            self.wf(),
        ensures
            self.next_batch < self.quota ==> r == (WorkerStep::Load {
                batch_id: self.next_batch,
                records: self.records_per_batch,
                string_length: self.string_length,
            }),
            self.next_batch == self.quota ==> r == WorkerStep::Finished,
    {
        if self.next_batch < self.quota {
            WorkerStep::Load {
                batch_id: self.next_batch,
                records: self.records_per_batch,
                string_length: self.string_length,
            }
        } else {
            WorkerStep::Finished
        }
    }

    /// Records the acknowledged row count of the current batch and moves on
    /// to the next one, whatever the count.
    pub fn complete_batch(&mut self, rows: u64) -> (r: BatchOutcome)
        requires
            old(self).wf(),
            old(self).next_batch < old(self).quota,
        ensures
            final(self).wf(),
            r == outcome_of(old(self).id, old(self).next_batch, rows, old(self).records_per_batch),
            *final(self) == (Worker {
                next_batch: (old(self).next_batch + 1) as usize,
                short_writes: if r is ShortWrite {
                    (old(self).short_writes + 1) as usize
                } else {
                    old(self).short_writes
                },
                ..*old(self)
            }),
    {
        let r = reconcile(self.id, self.next_batch, rows, self.records_per_batch);
        if r.is_short() {
            self.short_writes = self.short_writes + 1;
        }
        self.next_batch = self.next_batch + 1;
        r
    }

    /// Whether the quota is done.
    pub fn is_finished(&self) -> (r: bool)
        ensures
            r == (self.next_batch >= self.quota),
    {
        self.next_batch >= self.quota
    }
}

/// How a whole run ended.
#[derive(Debug, Clone, Copy, PartialEq, Eq, Structural)]
pub enum RunStatus {
    /// Every worker finished and every batch was fully acknowledged.
    Clean,
    /// Every worker finished, with at least one short write.
    PartialWrites,
    /// At least one worker stopped on a fatal error.
    Aborted,
}

/// The status owed for a run with the given count of failed workers and
/// of short writes.
pub open spec fn status_of(failed_workers: int, short_writes: int) -> RunStatus {
    if failed_workers > 0 {
        RunStatus::Aborted
    } else if short_writes > 0 {
        RunStatus::PartialWrites
    } else {
        RunStatus::Clean
    }
}

/// Judges a run from each worker's end state: `None` for a worker that
/// stopped on a fatal error, else its final state.
pub fn run_status(workers: &Vec<Option<Worker>>) -> (r: RunStatus)
    ensures
        r == status_of(
            workers@.filter(|w: Option<Worker>| w is None).len() as int,
            workers@.filter(|w: Option<Worker>| w matches Some(s) && s.short_writes > 0).len() as int,
        ),
{
    let mut failed: bool = false;
    let mut short: bool = false;
    let mut i: usize = 0;
    while i < workers.len()
        invariant
            i <= workers@.len(),
            failed == (workers@.subrange(0, i as int).filter(|w: Option<Worker>| w is None).len() > 0),
            short == (workers@.subrange(0, i as int).filter(
                |w: Option<Worker>| w matches Some(s) && s.short_writes > 0,
            ).len() > 0),
        decreases workers@.len() - i,
    {
        let ghost prev = workers@.subrange(0, i as int);
        let ghost next = workers@.subrange(0, i + 1);
        proof {
            assert(next.drop_last() =~= prev);
            reveal(Seq::filter);
        }
        match &workers[i] {
            None => {
                failed = true;
            },
            Some(w) => {
                if w.short_writes > 0 {
                    short = true;
                }
            },
        }
        i = i + 1;
    }
    assert(workers@.subrange(0, i as int) =~= workers@);
    if failed {
        RunStatus::Aborted
    } else if short {
        RunStatus::PartialWrites
    } else {
        RunStatus::Clean
    }
}

} // verus!
