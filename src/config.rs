use vstd::prelude::*;

verus! {

/// Why a configuration was rejected.
#[derive(Debug, Clone, Copy, PartialEq, Eq, Structural)]
pub enum ConfigError {
    /// The worker pool would be empty.
    ZeroParallelism,
    /// `total_batches * records_per_batch` does not fit in a `usize`.
    TooManyRows,
}

/// The immutable run configuration, shared read-only by every worker.
#[derive(Debug, Clone, Copy, PartialEq, Eq, Structural)]
pub struct Config {
    /// Length of every random string field.
    pub random_string_length: usize,
    /// Number of batches the whole run is meant to load.
    pub total_batches: usize,
    /// Number of records in one batch.
    pub records_per_batch: usize,
    /// Number of workers.
    pub parallelism: usize,
}

/// The sum of a sequence of counts.
pub open spec fn sum(s: Seq<usize>) -> int
    decreases s.len(),
{
    if s.len() == 0 {
        0
    } else {
        sum(s.drop_last()) + s.last()
    }
}

impl Config {
    /// A configuration that can be run: at least one worker, and a row
    /// total that fits in a `usize`.
    pub open spec fn wf(&self) -> bool {
        &&& self.parallelism > 0
        &&& self.total_batches * self.records_per_batch <= usize::MAX
    }

    /// Batches given to each worker: the total divided by the pool size,
    /// rounded down.
    pub open spec fn quota(&self) -> int {
        self.total_batches as int / self.parallelism as int
    }

    /// The static partition: one entry per worker.
    pub open spec fn quotas(&self) -> Seq<usize> {
        Seq::new(self.parallelism as nat, |i: int| self.quota() as usize)
    }

    /// Rows the run attempts, whatever the store acknowledges.
    pub open spec fn attempted(&self) -> int {
        self.total_batches * self.records_per_batch
    }

    /// Builds a configuration, rejecting an empty pool and a row total that
    /// does not fit.
    pub fn new(
        random_string_length: usize,
        total_batches: usize,
        records_per_batch: usize,
        parallelism: usize,
    ) -> (r: Result<Config, ConfigError>)
        ensures
            parallelism == 0 ==> r == Err::<Config, ConfigError>(ConfigError::ZeroParallelism),
            parallelism > 0 && total_batches * records_per_batch > usize::MAX ==> r == Err::<
                Config,
                ConfigError,
            >(ConfigError::TooManyRows),
            parallelism > 0 && total_batches * records_per_batch <= usize::MAX ==> r == Ok::<
                Config,
                ConfigError,
            >(
                (Config { random_string_length, total_batches, records_per_batch, parallelism }),
            ),
            r matches Ok(c) ==> c.wf(),
    {
        if parallelism == 0 {
            return Err(ConfigError::ZeroParallelism);
        }
        if records_per_batch > 0 && total_batches > usize::MAX / records_per_batch {
            assert(total_batches * records_per_batch > usize::MAX) by (nonlinear_arith)
                requires
                    records_per_batch > 0,
                    total_batches > usize::MAX / records_per_batch,
            ;
            return Err(ConfigError::TooManyRows);
        }
        assert(total_batches * records_per_batch <= usize::MAX) by (nonlinear_arith)
            requires
                records_per_batch == 0 || total_batches <= usize::MAX / records_per_batch,
        ;
        Ok(Config { random_string_length, total_batches, records_per_batch, parallelism })
    }

    /// The benchmark's usual shape: 40 batches of 250,000 records with
    /// 32-character strings, spread over 16 workers.
    pub fn benchmark() -> (r: Config)
        ensures
            r == (Config {
                random_string_length: 32,
                total_batches: 40,
                records_per_batch: 250_000,
                parallelism: 16,
            }),
            r.wf(),
    {
        Config {
            random_string_length: 32,
            total_batches: 40,
            records_per_batch: 250_000,
            parallelism: 16,
        }
    }

    /// Batches each worker processes; the remainder of the division is
    /// never assigned.
    pub fn batches_per_worker(&self) -> (r: usize)
        requires
            self.wf(),
        ensures
            r == self.quota(),
    {
        self.total_batches / self.parallelism
    }

    /// Batches that no worker is given (the remainder of the partition).
    pub fn unassigned_batches(&self) -> (r: usize)
        requires
            self.wf(),
        ensures
            r == self.total_batches as int % self.parallelism as int,
    {
        self.total_batches % self.parallelism
    }

    /// The quota of each worker, indexed by worker id.
    pub fn worker_quotas(&self) -> (r: Vec<usize>)
        requires
            self.wf(),
        ensures
            r@ == self.quotas(),
    {
        let q = self.batches_per_worker();
        let mut r: Vec<usize> = Vec::with_capacity(self.parallelism);
        let mut i: usize = 0;
        while i < self.parallelism
            invariant
                self.wf(),
                q == self.quota(),
                i <= self.parallelism,
                r@ == Seq::new(i as nat, |j: int| self.quota() as usize),
            decreases self.parallelism - i,
        {
            r.push(q);
            i = i + 1;
            assert(r@ =~= Seq::new(i as nat, |j: int| self.quota() as usize));
        }
        r
    }

    /// Batches processed over the whole run: the pool size times the quota.
    pub fn scheduled_batches(&self) -> (r: usize)
        requires
            self.wf(),
        ensures
            r == sum(self.quotas()),
            r == self.total_batches - self.total_batches as int % self.parallelism as int,
    {
        proof {
            lemma_quotas_sum(*self);
        }
        self.total_batches - self.total_batches % self.parallelism
    }

    /// Rows the run attempts: every configured batch, full.
    pub fn attempted_rows(&self) -> (r: usize)
        requires
            self.wf(),
        ensures
            r == self.attempted(),
    {
        self.total_batches * self.records_per_batch
    }
}

proof fn lemma_sum_constant(n: nat, q: usize)
    ensures
        sum(Seq::new(n, |i: int| q)) == n * q,
    decreases n,
{
    let s = Seq::new(n, |i: int| q);
    if n == 0 {
        assert(s.len() == 0);
    } else {
        let t = Seq::new((n - 1) as nat, |i: int| q);
        assert(s.drop_last() =~= t);
        lemma_sum_constant((n - 1) as nat, q);
        assert(sum(s) == sum(t) + q);
        assert(n * q == (n - 1) * q + q) by (nonlinear_arith);
    }
}

/// The workers together process the pool size times the quota, which is
/// the configured total less its remainder modulo the pool size.
pub proof fn lemma_quotas_sum(cfg: Config)
    requires
        cfg.wf(),
    ensures
        sum(cfg.quotas()) == cfg.parallelism * cfg.quota(),
        sum(cfg.quotas()) == cfg.total_batches - cfg.total_batches as int % cfg.parallelism as int,
{
    let p = cfg.parallelism as int;
    let t = cfg.total_batches as int;
    lemma_sum_constant(cfg.parallelism as nat, cfg.quota() as usize);
    assert(cfg.quotas() =~= Seq::new(cfg.parallelism as nat, |i: int| cfg.quota() as usize));
    assert(t == p * (t / p) + t % p) by (nonlinear_arith)
        requires
            p > 0,
    ;
    assert(0 <= t / p) by (nonlinear_arith)
        requires
            p > 0,
            t >= 0,
    ;
}

/// When the total divides evenly among the workers, the batches they
/// process add up to exactly the configured total.
pub proof fn lemma_even_partition_covers_total(cfg: Config)
    requires
        cfg.wf(),
        cfg.total_batches as int % cfg.parallelism as int == 0,
    ensures
        sum(cfg.quotas()) == cfg.total_batches,
{
    lemma_quotas_sum(cfg);
}

} // verus!
