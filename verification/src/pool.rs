//! The bookkeeping and the decisions of the thread pool: its statistics, the
//! step a worker takes when it looks at the queue, and the verdicts on
//! submissions. The pool's threads, locks and signals belong to its caller.

use crate::config::ThreadError;
use vstd::prelude::*;

verus! {

/// Longest idle wait of a worker, in milliseconds.
pub const MAX_IDLE_WAIT_MS: u64 = 100;

/// Idle rounds up to which the wait doubles.
pub const IDLE_DOUBLING_ROUNDS: u32 = 6;

/// Idle rounds after which the longest wait applies.
pub const IDLE_ROUNDS_TO_MAX: u32 = 10;

/// Milliseconds between two looks at the pool while waiting for it to drain.
pub const COMPLETION_POLL_MS: u64 = 10;

/// The longest time the statistics can hold, in nanoseconds: 2^64 - 1
/// seconds and 999,999,999 nanoseconds.
pub const MAX_PROCESSING_TIME_NS: u128 = 18_446_744_073_709_551_615_999_999_999;

/// What a pool has done so far. Times are in nanoseconds.
#[derive(Debug, Clone, Copy, PartialEq, Eq, Structural)]
pub struct ThreadPoolStats {
    /// Jobs that ran to their end, failed ones included.
    pub total_jobs_completed: usize,
    /// Time spent in jobs, in nanoseconds.
    pub total_processing_time: u128,
    /// The longest queue seen.
    pub peak_queue_size: usize,
    /// Mean time of a job in nanoseconds, once a job has run.
    pub avg_processing_time: Option<u64>,
    /// Jobs that panicked or returned an error.
    pub failed_jobs: usize,
    /// The most workers seen busy at once.
    pub peak_active_workers: usize,
}

/// What a worker remembers between two looks at the queue.
#[derive(Debug, Clone, Copy, PartialEq, Eq, Structural)]
pub struct WorkerState {
    /// Looks in a row that found the queue empty.
    pub consecutive_idle: u32,
}

/// What a worker does next.
#[derive(Debug, Clone, Copy, PartialEq, Eq, Structural)]
pub enum WorkerAction {
    /// Leave the work loop.
    Exit,
    /// Wait on the queue's signal for at most the given time.
    Wait { timeout_ms: u64 },
    /// Start the loop again.
    Retry,
    /// Take the job at the front of the queue and run it.
    Run,
}

/// Two to the power of `exponent`.
pub open spec fn spec_pow2(exponent: nat) -> nat
    decreases exponent,
{
    if exponent == 0 {
        1
    } else {
        2 * spec_pow2((exponent - 1) as nat)
    }
}

/// The wait of a worker that found the queue empty `consecutive_idle` times
/// in a row: it doubles from 2 ms up to 64 ms and is 100 ms after the tenth.
pub open spec fn spec_idle_wait_ms(consecutive_idle: u32) -> u64 {
    if consecutive_idle > IDLE_ROUNDS_TO_MAX {
        MAX_IDLE_WAIT_MS
    } else if consecutive_idle >= IDLE_DOUBLING_ROUNDS {
        64
    } else {
        spec_pow2(consecutive_idle as nat) as u64
    }
}

/// `a + 1`, held at the largest value.
pub open spec fn spec_bump(a: usize) -> usize {
    if a == usize::MAX {
        a
    } else {
        (a + 1) as usize
    }
}

/// The larger of two numbers.
pub open spec fn spec_max(a: usize, b: usize) -> usize {
    if a >= b {
        a
    } else {
        b
    }
}

/// The total time after a job of `job_ns`, held at the longest time.
pub open spec fn spec_add_time(total_ns: u128, job_ns: u128) -> u128 {
    if total_ns + job_ns > MAX_PROCESSING_TIME_NS {
        MAX_PROCESSING_TIME_NS
    } else {
        (total_ns + job_ns) as u128
    }
}

/// The statistics after a job that took `job_ns` and failed or not.
pub open spec fn spec_record_job(stats: ThreadPoolStats, job_ns: u128, failed: bool) -> ThreadPoolStats {
    let completed = spec_bump(stats.total_jobs_completed);
    let total = spec_add_time(stats.total_processing_time, job_ns);
    ThreadPoolStats {
        total_jobs_completed: completed,
        total_processing_time: total,
        peak_queue_size: stats.peak_queue_size,
        avg_processing_time: Some((total / (completed as u128)) as u64),
        failed_jobs: if failed {
            spec_bump(stats.failed_jobs)
        } else {
            stats.failed_jobs
        },
        peak_active_workers: stats.peak_active_workers,
    }
}

/// The step of a worker at the top of its loop: with jobs queued it runs
/// one, shutdown or not, so that a pool that shuts down drains its queue.
pub open spec fn spec_on_poll(state: WorkerState, shutdown: bool, queue_len: usize) -> (
    WorkerState,
    WorkerAction,
) {
    if queue_len > 0 {
        (WorkerState { consecutive_idle: 0 }, WorkerAction::Run)
    } else if shutdown {
        (state, WorkerAction::Exit)
    } else {
        let idle = if state.consecutive_idle == u32::MAX {
            u32::MAX
        } else {
            (state.consecutive_idle + 1) as u32
        };
        (
            WorkerState { consecutive_idle: idle },
            WorkerAction::Wait { timeout_ms: spec_idle_wait_ms(idle) },
        )
    }
}

/// The step of a worker that comes back from its wait, woken or timed out:
/// it looks at the shutdown flag again and at the queue.
pub open spec fn spec_on_wake(state: WorkerState, shutdown: bool, queue_len: usize) -> (
    WorkerState,
    WorkerAction,
) {
    if queue_len > 0 {
        (WorkerState { consecutive_idle: 0 }, WorkerAction::Run)
    } else if shutdown {
        (state, WorkerAction::Exit)
    } else {
        (state, WorkerAction::Retry)
    }
}

impl Default for ThreadPoolStats {
    fn default() -> (stats: ThreadPoolStats)
        ensures
            stats == (ThreadPoolStats {
                total_jobs_completed: 0,
                total_processing_time: 0,
                peak_queue_size: 0,
                avg_processing_time: None,
                failed_jobs: 0,
                peak_active_workers: 0,
            }),
    {
        ThreadPoolStats {
            total_jobs_completed: 0,
            total_processing_time: 0,
            peak_queue_size: 0,
            avg_processing_time: None,
            failed_jobs: 0,
            peak_active_workers: 0,
        }
    }
}

impl ThreadPoolStats {
    /// Notes the length of the queue as a worker finds it.
    pub fn observe_queue(&mut self, queue_len: usize)
        ensures
            *final(self) == (ThreadPoolStats {
                peak_queue_size: spec_max(old(self).peak_queue_size, queue_len),
                ..*old(self)
            }),
    {
        if queue_len > self.peak_queue_size {
            self.peak_queue_size = queue_len;
        }
    }

    /// Notes the number of busy workers as a job starts.
    pub fn observe_active(&mut self, active_workers: usize)
        ensures
            *final(self) == (ThreadPoolStats {
                peak_active_workers: spec_max(old(self).peak_active_workers, active_workers),
                ..*old(self)
            }),
    {
        if active_workers > self.peak_active_workers {
            self.peak_active_workers = active_workers;
        }
    }

    /// Notes a job that ran for `job_ns` nanoseconds; `failed` tells whether
    /// it panicked or returned an error. Counts and times stop at their
    /// largest values; the mean is the total time over the jobs counted.
    pub fn record_job(&mut self, job_ns: u128, failed: bool)
        ensures
            *final(self) == spec_record_job(*old(self), job_ns, failed),
    {
        self.total_jobs_completed = self.total_jobs_completed.saturating_add(1);
        let sum: u128 = self.total_processing_time.saturating_add(job_ns);
        self.total_processing_time = if sum > MAX_PROCESSING_TIME_NS {
            MAX_PROCESSING_TIME_NS
        } else {
            sum
        };
        if self.total_jobs_completed > 0 {
            let mean: u128 = self.total_processing_time / (self.total_jobs_completed as u128);
            self.avg_processing_time = Some(#[verifier::truncate] (mean as u64));
        }
        if failed {
            self.failed_jobs = self.failed_jobs.saturating_add(1);
        }
    }

    /// Counts the workers that panicked while the pool was joined as failed
    /// jobs.
    pub fn record_worker_panics(&mut self, worker_panics: usize)
        ensures
            *final(self) == (ThreadPoolStats {
                failed_jobs: if old(self).failed_jobs + worker_panics > usize::MAX {
                    usize::MAX
                } else {
                    (old(self).failed_jobs + worker_panics) as usize
                },
                ..*old(self)
            }),
    {
        self.failed_jobs = self.failed_jobs.saturating_add(worker_panics);
    }
}

/// The wait of a worker that found the queue empty `consecutive_idle` times
/// in a row.
pub fn idle_wait_ms(consecutive_idle: u32) -> (timeout_ms: u64)
    ensures
        timeout_ms == spec_idle_wait_ms(consecutive_idle),
        1 <= timeout_ms <= MAX_IDLE_WAIT_MS,
{
    if consecutive_idle > IDLE_ROUNDS_TO_MAX {
        return MAX_IDLE_WAIT_MS;
    }
    let rounds: u32 = if consecutive_idle < IDLE_DOUBLING_ROUNDS {
        consecutive_idle
    } else {
        IDLE_DOUBLING_ROUNDS
    };
    let mut timeout_ms: u64 = 1;
    let mut k: u32 = 0;
    proof {
        reveal_with_fuel(spec_pow2, 8);
    }
    while k < rounds
        invariant
            k <= rounds <= IDLE_DOUBLING_ROUNDS,
            timeout_ms == spec_pow2(k as nat),
            timeout_ms <= 64,
        decreases rounds - k,
    {
        proof {
            reveal_with_fuel(spec_pow2, 8);
        }
        timeout_ms = timeout_ms * 2;
        k = k + 1;
    }
    timeout_ms
}

impl WorkerState {
    /// A worker that has not looked at the queue yet.
    pub fn new() -> (state: WorkerState)
        ensures
            state.consecutive_idle == 0,
    {
        WorkerState { consecutive_idle: 0 }
    }

    /// The step at the top of the work loop, for the shutdown flag and the
    /// queue length the worker sees: run a job if there is one; with an empty
    /// queue, leave on shutdown and wait with a growing timeout otherwise.
    pub fn on_poll(&mut self, shutdown: bool, queue_len: usize) -> (action: WorkerAction)
        ensures
            (*final(self), action) == spec_on_poll(*old(self), shutdown, queue_len),
    {
        if queue_len > 0 {
            self.consecutive_idle = 0;
            return WorkerAction::Run;
        }
        if shutdown {
            return WorkerAction::Exit;
        }
        self.consecutive_idle = self.consecutive_idle.saturating_add(1);
        WorkerAction::Wait { timeout_ms: idle_wait_ms(self.consecutive_idle) }
    }

    /// The step after a wait, for what the worker sees then: run a job if
    /// there is one; with an empty queue, leave on shutdown and start again
    /// otherwise.
    pub fn on_wake(&mut self, shutdown: bool, queue_len: usize) -> (action: WorkerAction)
        ensures
            (*final(self), action) == spec_on_wake(*old(self), shutdown, queue_len),
    {
        if queue_len > 0 {
            self.consecutive_idle = 0;
            return WorkerAction::Run;
        }
        if shutdown {
            WorkerAction::Exit
        } else {
            WorkerAction::Retry
        }
    }
}

/// The verdict on a submission: refused once the pool is shutting down.
pub fn admit_job(shutting_down: bool) -> (verdict: Result<(), ThreadError>)
    ensures
        shutting_down ==> verdict == Err::<(), ThreadError>(ThreadError::ShutdownInProgress),
        !shutting_down ==> verdict == Ok::<(), ThreadError>(()),
{
    if shutting_down {
        Err(ThreadError::ShutdownInProgress)
    } else {
        Ok(())
    }
}

/// The number of workers to wake for a batch of `job_count` jobs in a pool
/// of `worker_count` workers: one per job, but no more than there are.
pub fn batch_wake_count(job_count: usize, worker_count: usize) -> (wakes: usize)
    ensures
        wakes == (if job_count <= worker_count {
            job_count
        } else {
            worker_count
        }),
{
    if job_count <= worker_count {
        job_count
    } else {
        worker_count
    }
}

/// Whether a pool has drained: nothing is queued and no worker is busy.
pub fn is_drained(queued_jobs: usize, active_workers: usize) -> (drained: bool)
    ensures
        drained == (queued_jobs == 0 && active_workers == 0),
{
    queued_jobs == 0 && active_workers == 0
}

/// One look at the pool while waiting for it to drain: an error once it is
/// shutting down, otherwise whether it has drained.
pub fn completion_poll(shutting_down: bool, queued_jobs: usize, active_workers: usize) -> (poll:
    Result<bool, ThreadError>)
    ensures
        shutting_down ==> poll == Err::<bool, ThreadError>(ThreadError::ShutdownInProgress),
        !shutting_down ==> poll == Ok::<bool, ThreadError>(
            queued_jobs == 0 && active_workers == 0,
        ),
{
    if shutting_down {
        Err(ThreadError::ShutdownInProgress)
    } else {
        Ok(is_drained(queued_jobs, active_workers))
    }
}

} // verus!
