//! The placement policy of a worker: which cores it binds itself to before
//! it runs its task, and whether it asks for a priority.

use crate::config::CoreAllocation;
use vstd::prelude::*;

verus! {

/// The sum of the bytes of a name, kept within 64 bits by wrapping.
pub open spec fn spec_name_hash(name: Seq<u8>) -> u64
    decreases name.len(),
{
    if name.len() == 0 {
        0
    } else {
        let sum = spec_name_hash(name.drop_last()) + name.last();
        if sum > u64::MAX {
            (sum - 0x1_0000_0000_0000_0000) as u64
        } else {
            sum as u64
        }
    }
}

/// The core that a worker of the given name is pinned to, out of a set that
/// is not empty: the name's hash picks the position.
pub open spec fn spec_pick_core(name: Seq<u8>, cores: Seq<usize>) -> usize {
    cores[(spec_name_hash(name) as int) % (cores.len() as int)]
}

/// The cores a worker binds itself to. No cores means no binding.
pub open spec fn spec_affinity_targets(
    allocation: CoreAllocation,
    name: Seq<u8>,
    cores: Seq<usize>,
) -> Seq<usize> {
    match allocation {
        CoreAllocation::PinnedCores { .. } => if cores.len() == 0 {
            Seq::empty()
        } else {
            seq![spec_pick_core(name, cores)]
        },
        CoreAllocation::DedicatedCoreSet { .. } => cores,
        CoreAllocation::OsDefault => Seq::empty(),
    }
}

/// Sums the bytes of a name, wrapping within 64 bits.
pub fn name_hash(name: &[u8]) -> (sum: u64)
    ensures
        sum == spec_name_hash(name@),
{
    let mut sum: u64 = 0;
    let mut i: usize = 0;
    while i < name.len()
        invariant
            i <= name@.len(),
            sum == spec_name_hash(name@.take(i as int)),
        decreases name@.len() - i,
    {
        assert(name@.take(i + 1).drop_last() =~= name@.take(i as int));
        sum = sum.wrapping_add(name[i] as u64);
        i = i + 1;
    }
    assert(name@.take(i as int) =~= name@);
    sum
}

/// Picks the core that a worker of the given name is pinned to: the same
/// name always gets the same core of the same set.
pub fn pick_core(name: &[u8], cores: &[usize]) -> (core: usize)
    requires
        cores@.len() > 0,
    ensures
        core == spec_pick_core(name@, cores@),
{
    let hash: u64 = name_hash(name);
    let len: u64 = cores.len() as u64;
    let position: u64 = hash % len;
    cores[position as usize]
}

/// The cores a worker of the given name binds itself to under an allocation
/// and an allowed set: one core of the set when pinned, the whole set when
/// dedicated, none under the default.
pub fn affinity_targets(allocation: &CoreAllocation, name: &[u8], cores: &[usize]) -> (targets: Vec<
    usize,
>)
    ensures
        targets@ == spec_affinity_targets(*allocation, name@, cores@),
{
    match allocation {
        CoreAllocation::PinnedCores { .. } => {
            let mut targets: Vec<usize> = Vec::new();
            if cores.len() > 0 {
                targets.push(pick_core(name, cores));
            }
            assert(targets@ =~= spec_affinity_targets(*allocation, name@, cores@));
            targets
        },
        CoreAllocation::DedicatedCoreSet { .. } => vstd::slice::slice_to_vec(cores),
        CoreAllocation::OsDefault => Vec::new(),
    }
}

/// Whether a worker asks for a scheduling priority: 0 leaves the default.
pub fn raises_priority(priority: u8) -> (raises: bool)
    ensures
        raises == (priority > 0),
{
    priority > 0
}

} // verus!
