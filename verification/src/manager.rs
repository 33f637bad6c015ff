//! The thread manager's bookkeeping: how many workers run, whether another
//! may start, and with what it starts. The caller launches and joins the
//! workers and reports both here.

use crate::config::{
    available_cores, spec_core_mask, spec_validate_config, Config, CoreAllocation, ThreadError,
    DEFAULT_STACK_SIZE_BYTES,
};
use vstd::prelude::*;
use vstd::string::StrSliceExecFns;

verus! {

/// The most characters a name may have.
pub const MAX_THREAD_NAME_CHARS: usize = 32;

/// The state that all handles of one manager share.
#[derive(Debug)]
pub struct ManagerInner {
    /// Number of worker names handed out so far.
    pub id_count: usize,
    /// Number of workers that were started and not yet joined.
    pub running_count: usize,
    /// The configuration the manager was created with.
    pub config: Config,
    /// The manager's name, the stem of its workers' names.
    pub name: String,
    /// The cores the workers may be bound to.
    pub cores_mask: Vec<usize>,
}

/// A bounded-capacity supervisor of workers.
#[derive(Debug)]
pub struct Manager {
    pub inner: ManagerInner,
}

/// What a worker is launched with.
#[derive(Debug)]
pub struct SpawnPlan {
    /// Stack size of the worker in bytes.
    pub stack_size_bytes: usize,
    /// The allocation the worker applies before it runs its task.
    pub core_allocation: CoreAllocation,
    /// The priority the worker applies before it runs its task.
    pub priority: u8,
    /// The cores the worker may bind itself to.
    pub cores: Vec<usize>,
}

/// The verdict on a worker of a name of `name_len` characters, asked for while
/// `running` workers run of at most `max_threads`.
pub open spec fn spec_admission(name_len: nat, running: usize, max_threads: usize) -> Result<
    (),
    ThreadError,
> {
    if name_len > MAX_THREAD_NAME_CHARS {
        Err(ThreadError::NameTooLong)
    } else if running >= max_threads {
        Err(ThreadError::CapacityExhausted { max_threads })
    } else {
        Ok(())
    }
}

/// The length of a name in characters.
pub open spec fn spec_name_len(name: Seq<char>) -> nat {
    name.len()
}

/// Whether `manager` is what creating one of the given name and configuration
/// gives on a machine with `available` cores: a name of more than 32
/// characters is refused first, then a configuration that is not valid on
/// that machine; otherwise the manager holds name and configuration, counts
/// nothing yet and allows the cores of the configuration on that machine.
pub open spec fn spec_manager_created(
    name: Seq<char>,
    config: Config,
    available: usize,
    manager: Result<Manager, ThreadError>,
) -> bool {
    if spec_name_len(name) > MAX_THREAD_NAME_CHARS {
        manager is Err && manager->Err_0 == ThreadError::NameTooLong
    } else {
        match spec_validate_config(config, available) {
            Err(error) => manager is Err && manager->Err_0 == error,
            Ok(_) => {
                &&& manager is Ok
                &&& manager->Ok_0.inner.name@ == name
                &&& manager->Ok_0.inner.config == config
                &&& manager->Ok_0.inner.id_count == 0
                &&& manager->Ok_0.inner.running_count == 0
                &&& manager->Ok_0.inner.cores_mask@ == spec_core_mask(
                    config.core_allocation,
                    available,
                )
            },
        }
    }
}

impl Manager {
    /// Whether the bookkeeping is sound: no more workers run than allowed.
    pub open spec fn wf(&self) -> bool {
        self.inner.running_count <= self.inner.config.max_threads
    }

    /// Creates a manager for a machine with `available` cores. The name must
    /// have at most 32 characters and the configuration must be valid there.
    pub fn new_for(name: String, config: Config, available: usize) -> (manager: Result<
        Manager,
        ThreadError,
    >)
        ensures
            spec_manager_created(name@, config, available, manager),
    {
        if name.as_str().unicode_len() > MAX_THREAD_NAME_CHARS {
            return Err(ThreadError::NameTooLong);
        }
        match config.validate_for(available) {
            Err(error) => {
                return Err(error);
            },
            Ok(_) => {},
        }
        let cores_mask: Vec<usize> = config.core_allocation.core_mask_for(available);
        Ok(Manager { inner: ManagerInner { id_count: 0, running_count: 0, cores_mask, config, name } })
    }

    /// Creates a manager on this machine, whose number of cores is read once
    /// and decides both whether the configuration is valid and which cores
    /// the workers may use. A name of more than 32 characters is refused
    /// whatever the machine; so is a configuration without workers, with a
    /// stack below 64 KiB or with an inverted core range.
    pub fn new(name: String, config: Config) -> (manager: Result<Manager, ThreadError>)
        ensures
            exists|available: usize|
                available >= 1 && #[trigger] spec_manager_created(name@, config, available, manager),
    {
        let available: usize = available_cores();
        Manager::new_for(name, config, available)
    }

    /// Hands out the number that the next unnamed worker's name ends in.
    pub fn next_id(&mut self) -> (id: usize)
        ensures
            id == old(self).inner.id_count,
            final(self).inner.id_count == (if old(self).inner.id_count == usize::MAX {
                0usize
            } else {
                (old(self).inner.id_count + 1) as usize
            }),
            final(self).inner.running_count == old(self).inner.running_count,
            final(self).inner.config == old(self).inner.config,
            final(self).inner.name == old(self).inner.name,
            final(self).inner.cores_mask == old(self).inner.cores_mask,
    {
        let id: usize = self.inner.id_count;
        self.inner.id_count = if id == usize::MAX {
            0
        } else {
            id + 1
        };
        id
    }

    /// Decides whether a worker of the given name may start now, and with
    /// what: the name must have at most 32 characters and a slot must be free.
    /// Nothing is counted yet.
    pub fn admit_named(&self, name: &str) -> (plan: Result<SpawnPlan, ThreadError>)
        ensures
            spec_admission(
                spec_name_len(name@),
                self.inner.running_count,
                self.inner.config.max_threads,
            ) is Err ==> plan is Err && Err::<(), ThreadError>(plan->Err_0) == spec_admission(
                spec_name_len(name@),
                self.inner.running_count,
                self.inner.config.max_threads,
            ),
            spec_admission(
                spec_name_len(name@),
                self.inner.running_count,
                self.inner.config.max_threads,
            ) is Ok ==> plan is Ok && plan->Ok_0.stack_size_bytes
                == self.inner.config.stack_size_bytes && plan->Ok_0.core_allocation
                == self.inner.config.core_allocation && plan->Ok_0.priority
                == self.inner.config.priority && plan->Ok_0.cores@ == self.inner.cores_mask@,
    {
        if name.unicode_len() > MAX_THREAD_NAME_CHARS {
            return Err(ThreadError::NameTooLong);
        }
        if self.inner.running_count >= self.inner.config.max_threads {
            return Err(ThreadError::CapacityExhausted { max_threads: self.inner.config.max_threads });
        }
        let cores: Vec<usize> = vstd::slice::slice_to_vec(self.inner.cores_mask.as_slice());
        Ok(
            SpawnPlan {
                stack_size_bytes: self.inner.config.stack_size_bytes,
                core_allocation: self.inner.config.core_allocation,
                priority: self.inner.config.priority,
                cores,
            },
        )
    }

    /// Counts a worker that was launched after it was admitted.
    pub fn worker_started(&mut self)
        requires
            old(self).inner.running_count < old(self).inner.config.max_threads,
        ensures
            final(self).inner.running_count == old(self).inner.running_count + 1,
            final(self).wf(),
            final(self).inner.id_count == old(self).inner.id_count,
            final(self).inner.config == old(self).inner.config,
            final(self).inner.name == old(self).inner.name,
            final(self).inner.cores_mask == old(self).inner.cores_mask,
    {
        self.inner.running_count = self.inner.running_count + 1;
    }

    /// Uncounts a worker that was joined.
    pub fn worker_joined(&mut self)
        requires
            old(self).wf(),
            old(self).inner.running_count > 0,
        ensures
            final(self).inner.running_count == old(self).inner.running_count - 1,
            final(self).wf(),
            final(self).inner.id_count == old(self).inner.id_count,
            final(self).inner.config == old(self).inner.config,
            final(self).inner.name == old(self).inner.name,
            final(self).inner.cores_mask == old(self).inner.cores_mask,
    {
        self.inner.running_count = self.inner.running_count - 1;
    }

    /// The number of workers that run.
    pub fn running_count(&self) -> (count: usize)
        ensures
            count == self.inner.running_count,
    {
        self.inner.running_count
    }

    /// Whether as many workers run as the configuration allows.
    pub fn is_full(&self) -> (full: bool)
        ensures
            full == (self.inner.running_count >= self.inner.config.max_threads),
    {
        self.running_count() >= self.inner.config.max_threads
    }

    /// The configuration the manager was created with.
    pub fn config(&self) -> (config: &Config)
        ensures
            *config == self.inner.config,
    {
        &self.inner.config
    }

    /// The manager's name.
    pub fn name(&self) -> (name: &str)
        ensures
            name@ == self.inner.name@,
    {
        self.inner.name.as_str()
    }

    /// The number of workers that may still start.
    pub fn available_slots(&self) -> (slots: usize)
        ensures
            slots == (if self.inner.running_count >= self.inner.config.max_threads {
                0
            } else {
                self.inner.config.max_threads - self.inner.running_count
            }),
    {
        self.inner.config.max_threads.saturating_sub(self.running_count())
    }
}

/// Creates a manager of the given name with the default configuration: it
/// is refused only for a name of more than 32 characters, and it starts with
/// no worker counted and room for at least one.
pub fn default_manager(name: &str) -> (manager: Result<Manager, ThreadError>)
    ensures
        (manager is Ok) == (spec_name_len(name@) <= MAX_THREAD_NAME_CHARS),
        manager is Err ==> manager->Err_0 == ThreadError::NameTooLong,
        manager is Ok ==> {
            let made = manager->Ok_0;
            &&& made.wf()
            &&& made.inner.name@ == name@
            &&& made.inner.running_count == 0
            &&& made.inner.id_count == 0
            &&& made.inner.config.core_allocation == CoreAllocation::OsDefault
            &&& made.inner.config.max_threads >= 1
            &&& made.inner.config.priority == 0
            &&& made.inner.config.stack_size_bytes == DEFAULT_STACK_SIZE_BYTES
            &&& exists|available: usize|
                available >= 1 && made.inner.cores_mask@ == #[trigger] spec_core_mask(
                    CoreAllocation::OsDefault,
                    available,
                )
        },
{
    Manager::new(name.to_owned(), Config::default())
}

} // verus!
