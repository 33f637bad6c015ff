//! Configuration of the thread manager: which cores its workers may run on,
//! how many may run at once, their priority and their stack size.

use crate::manager::MAX_THREAD_NAME_CHARS;
use crate::text::{decimal_text, spec_decimal_text};
use vstd::prelude::*;
use vstd::string::StringExecFns;

verus! {

/// Smallest stack, in bytes, that a worker may be given.
pub const MIN_STACK_SIZE_BYTES: usize = 64 * 1024;

/// Stack, in bytes, that a worker is given by default.
pub const DEFAULT_STACK_SIZE_BYTES: usize = 2 * 1024 * 1024;

/// Workers allowed at once where the machine does not tell its size.
pub const FALLBACK_MAX_THREADS: usize = 16;

/// Why a configuration, a spawn or a submission was refused.
#[derive(Debug, Clone, Copy, PartialEq, Eq, Structural)]
pub enum ThreadError {
    /// The configuration allows no worker at all.
    ZeroMaxThreads,
    /// The stack is smaller than 64 KiB.
    StackTooSmall,
    /// The core range has its lower end above its upper end.
    InvalidCoreRange { min: usize, max: usize },
    /// The core range ends at `max`, past the last core of the machine.
    CoreOutOfRange { max: usize, last_core: usize },
    /// The name has more than 32 characters.
    NameTooLong,
    /// As many workers are running as the configuration allows.
    CapacityExhausted { max_threads: usize },
    /// The pool is shutting down.
    ShutdownInProgress,
}

impl ThreadError {
    /// The refusal in words.
    pub open spec fn spec_message(&self) -> Seq<char> {
        match *self {
            ThreadError::ZeroMaxThreads => "max_threads must be greater than 0."@,
            ThreadError::StackTooSmall => "stack_size_bytes must be at least 64KB."@,
            ThreadError::InvalidCoreRange { min, max } => "Invalid core range: min("@
                + spec_decimal_text(min as nat) + ") > max("@ + spec_decimal_text(max as nat)
                + ")."@,
            ThreadError::CoreOutOfRange { max, last_core } => "Max core ID ("@ + spec_decimal_text(
                max as nat,
            ) + ") exceeds available cores ("@ + spec_decimal_text(last_core as nat) + ")."@,
            ThreadError::NameTooLong => "Thread name too long (max "@ + spec_decimal_text(
                MAX_THREAD_NAME_CHARS as nat,
            ) + " chars)."@,
            ThreadError::CapacityExhausted { max_threads } =>
                "All allowed threads in this pool are already spawned (max: "@ + spec_decimal_text(
                max_threads as nat,
            ) + ")."@,
            ThreadError::ShutdownInProgress => "Thread pool is shutting down."@,
        }
    }

    /// Writes the refusal in words.
    pub fn message(&self) -> (text: String)
        ensures
            text@ == self.spec_message(),
    {
        match *self {
            ThreadError::ZeroMaxThreads => String::from_str("max_threads must be greater than 0."),
            ThreadError::StackTooSmall => String::from_str(
                "stack_size_bytes must be at least 64KB.",
            ),
            ThreadError::InvalidCoreRange { min, max } => {
                let mut text: String = String::from_str("Invalid core range: min(");
                text.append(decimal_text(min as u64).as_str());
                text.append(") > max(");
                text.append(decimal_text(max as u64).as_str());
                text.append(").");
                text
            },
            ThreadError::CoreOutOfRange { max, last_core } => {
                let mut text: String = String::from_str("Max core ID (");
                text.append(decimal_text(max as u64).as_str());
                text.append(") exceeds available cores (");
                text.append(decimal_text(last_core as u64).as_str());
                text.append(").");
                text
            },
            ThreadError::NameTooLong => {
                let mut text: String = String::from_str("Thread name too long (max ");
                text.append(decimal_text(MAX_THREAD_NAME_CHARS as u64).as_str());
                text.append(" chars).");
                text
            },
            ThreadError::CapacityExhausted { max_threads } => {
                let mut text: String = String::from_str(
                    "All allowed threads in this pool are already spawned (max: ",
                );
                text.append(decimal_text(max_threads as u64).as_str());
                text.append(").");
                text
            },
            ThreadError::ShutdownInProgress => String::from_str("Thread pool is shutting down."),
        }
    }
}

/// Which cores the workers of a manager are bound to.
#[derive(Debug, Clone, Copy, PartialEq, Eq, Structural)]
pub enum CoreAllocation {
    /// Leave core affinity to the operating system.
    OsDefault,
    /// Pin each worker to one core of the range.
    PinnedCores { min: usize, max: usize },
    /// Bind every worker to the whole range.
    DedicatedCoreSet { min: usize, max: usize },
}

/// The configuration of a thread manager.
#[derive(Debug, Clone, Copy)]
pub struct Config {
    /// The cores the workers are bound to.
    pub core_allocation: CoreAllocation,
    /// The most workers that run at once.
    pub max_threads: usize,
    /// Scheduling priority; 0 leaves the operating system's default alone.
    pub priority: u8,
    /// Stack size of each worker in bytes.
    pub stack_size_bytes: usize,
}

/// Calls `num_cpus::get`, the number of logical cores available to the
/// process. Trusted: the number is at least 1, as its documentation says;
/// which number it is depends on the machine.
#[verifier::external_body]
pub(crate) fn available_cores() -> (cores: usize)
    ensures
        cores >= 1,
{
    num_cpus::get()
}

/// The core identifiers from `min` to `max`, both included, in order.
pub open spec fn spec_core_range(min: usize, max: usize) -> Seq<usize> {
    if min > max {
        Seq::empty()
    } else {
        Seq::new((max - min + 1) as nat, |i: int| (min + i) as usize)
    }
}

/// The cores an allocation allows on a machine with `available` cores.
pub open spec fn spec_core_mask(allocation: CoreAllocation, available: usize) -> Seq<usize> {
    match allocation {
        CoreAllocation::PinnedCores { min, max } => spec_core_range(min, max),
        CoreAllocation::DedicatedCoreSet { min, max } => spec_core_range(min, max),
        CoreAllocation::OsDefault => if available == 0 {
            Seq::empty()
        } else {
            spec_core_range(0, (available - 1) as usize)
        },
    }
}

/// The verdict on a core range on a machine with `available` cores.
pub open spec fn spec_validate_range(min: usize, max: usize, available: usize) -> Result<
    (),
    ThreadError,
> {
    if min > max {
        Err(ThreadError::InvalidCoreRange { min, max })
    } else if max >= available {
        Err(
            ThreadError::CoreOutOfRange {
                max,
                last_core: if available == 0 {
                    0
                } else {
                    (available - 1) as usize
                },
            },
        )
    } else {
        Ok(())
    }
}

/// The verdict on an allocation on a machine with `available` cores.
pub open spec fn spec_validate_allocation(allocation: CoreAllocation, available: usize) -> Result<
    (),
    ThreadError,
> {
    match allocation {
        CoreAllocation::PinnedCores { min, max } => spec_validate_range(min, max, available),
        CoreAllocation::DedicatedCoreSet { min, max } => spec_validate_range(min, max, available),
        CoreAllocation::OsDefault => Ok(()),
    }
}

/// The verdict on a configuration on a machine with `available` cores.
pub open spec fn spec_validate_config(config: Config, available: usize) -> Result<(), ThreadError> {
    if config.max_threads == 0 {
        Err(ThreadError::ZeroMaxThreads)
    } else if config.stack_size_bytes < MIN_STACK_SIZE_BYTES {
        Err(ThreadError::StackTooSmall)
    } else {
        spec_validate_allocation(config.core_allocation, available)
    }
}

/// Collects the cores from `min` to `max`, both included.
fn core_range(min: usize, max: usize) -> (cores: Vec<usize>)
    ensures
        cores@ == spec_core_range(min, max),
{
    let mut cores: Vec<usize> = Vec::new();
    if min > max {
        return cores;
    }
    let mut next: usize = min;
    while next < max
        invariant
            min <= next <= max,
            cores@.len() == next - min,
            forall|i: int| 0 <= i < cores@.len() ==> cores@[i] == (min + i) as usize,
        decreases max - next,
    {
        cores.push(next);
        next = next + 1;
    }
    cores.push(max);
    assert(cores@ =~= spec_core_range(min, max));
    cores
}

impl Default for CoreAllocation {
    fn default() -> (allocation: CoreAllocation)
        ensures
            allocation == CoreAllocation::OsDefault,
    {
        CoreAllocation::OsDefault
    }
}

impl CoreAllocation {
    /// The cores this allocation allows on a machine with `available` cores.
    pub fn core_mask_for(&self, available: usize) -> (cores: Vec<usize>)
        ensures
            cores@ == spec_core_mask(*self, available),
    {
        match *self {
            CoreAllocation::PinnedCores { min, max } => core_range(min, max),
            CoreAllocation::DedicatedCoreSet { min, max } => core_range(min, max),
            CoreAllocation::OsDefault => {
                if available == 0 {
                    Vec::new()
                } else {
                    core_range(0, available - 1)
                }
            },
        }
    }

    /// The cores this allocation allows on this machine. A range gives its
    /// cores whatever the machine has; the default gives the machine's cores.
    pub fn as_core_mask_vector(&self) -> (cores: Vec<usize>)
        ensures
            exists|available: usize|
                available >= 1 && cores@ == #[trigger] spec_core_mask(*self, available),
            !(*self is OsDefault) ==> cores@ == spec_core_mask(*self, 1),
    {
        let available: usize = available_cores();
        self.core_mask_for(available)
    }

    /// Checks the allocation against a machine with `available` cores: a
    /// range must not be inverted and must end below `available`.
    pub fn validate_for(&self, available: usize) -> (verdict: Result<(), ThreadError>)
        ensures
            verdict == spec_validate_allocation(*self, available),
    {
        match *self {
            CoreAllocation::PinnedCores { min, max } => validate_range(min, max, available),
            CoreAllocation::DedicatedCoreSet { min, max } => validate_range(min, max, available),
            CoreAllocation::OsDefault => Ok(()),
        }
    }

    /// Checks the allocation against this machine. The default is always
    /// accepted and an inverted range never; whether a range ends within the
    /// machine's cores depends on the machine.
    pub fn validate(&self) -> (verdict: Result<(), ThreadError>)
        ensures
            exists|available: usize|
                available >= 1 && verdict == #[trigger] spec_validate_allocation(*self, available),
    {
        let available: usize = available_cores();
        self.validate_for(available)
    }
}

/// Checks one core range against a machine with `available` cores.
fn validate_range(min: usize, max: usize, available: usize) -> (verdict: Result<(), ThreadError>)
    ensures
        verdict == spec_validate_range(min, max, available),
{
    if min > max {
        return Err(ThreadError::InvalidCoreRange { min, max });
    }
    if max >= available {
        return Err(ThreadError::CoreOutOfRange { max, last_core: available.saturating_sub(1) });
    }
    Ok(())
}

impl Default for Config {
    /// No core binding, as many workers as the machine has cores available,
    /// the operating system's priority and a stack of 2 MiB.
    fn default() -> (config: Config)
        ensures
            config.core_allocation == CoreAllocation::OsDefault,
            config.max_threads >= 1,
            config.priority == 0,
            config.stack_size_bytes == DEFAULT_STACK_SIZE_BYTES,
            forall|available: usize| spec_validate_config(config, available) is Ok,
    {
        Config::for_parallelism(Some(available_cores()))
    }
}

impl Config {
    /// The default configuration for a machine that tells, or does not tell,
    /// how many threads it runs at once: as many workers as that, and 16
    /// where it does not tell or tells none.
    pub fn for_parallelism(parallelism: Option<usize>) -> (config: Config)
        ensures
            config.core_allocation == CoreAllocation::OsDefault,
            config.max_threads == (match parallelism {
                Some(threads) => if threads > 0 {
                    threads
                } else {
                    FALLBACK_MAX_THREADS
                },
                None => FALLBACK_MAX_THREADS,
            }),
            config.priority == 0,
            config.stack_size_bytes == DEFAULT_STACK_SIZE_BYTES,
            forall|available: usize| spec_validate_config(config, available) is Ok,
    {
        let max_threads: usize = match parallelism {
            Some(threads) => if threads > 0 {
                threads
            } else {
                FALLBACK_MAX_THREADS
            },
            None => FALLBACK_MAX_THREADS,
        };
        Config {
            core_allocation: CoreAllocation::OsDefault,
            max_threads,
            priority: 0,
            stack_size_bytes: DEFAULT_STACK_SIZE_BYTES,
        }
    }

    /// Checks the configuration against a machine with `available` cores.
    pub fn validate_for(&self, available: usize) -> (verdict: Result<(), ThreadError>)
        ensures
            verdict == spec_validate_config(*self, available),
    {
        if self.max_threads == 0 {
            return Err(ThreadError::ZeroMaxThreads);
        }
        if self.stack_size_bytes < MIN_STACK_SIZE_BYTES {
            return Err(ThreadError::StackTooSmall);
        }
        self.core_allocation.validate_for(available)
    }

    /// Checks the configuration against this machine: at least one worker, a
    /// stack of at least 64 KiB, and a core allocation the machine can meet.
    pub fn validate(&self) -> (verdict: Result<(), ThreadError>)
        ensures
            exists|available: usize|
                available >= 1 && verdict == #[trigger] spec_validate_config(*self, available),
    {
        let available: usize = available_cores();
        self.validate_for(available)
    }
}

} // verus!
