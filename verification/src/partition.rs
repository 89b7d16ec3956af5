//! Splitting the candidate list among the workers.
//!
//! The list is cut into as many contiguous ranges as there are workers. Every
//! range but the last holds `total / cores` candidates; the last one runs to
//! the end of the list and so takes what the division leaves over.

use vstd::prelude::*;

verus! {

/// A contiguous range of places in the candidate list: `start` is the first
/// place of the range, `end` the place after its last.
#[derive(Debug, Clone, Copy, PartialEq, Eq, Structural)]
pub struct Partition {
    pub start: usize,
    pub end: usize,
}

/// The place where the range of worker `index` starts.
pub open spec fn partition_start(total: nat, cores: nat, index: nat) -> nat {
    index * (total / cores)
}

/// The place after the last of the range of worker `index`.
pub open spec fn partition_end(total: nat, cores: nat, index: nat) -> nat {
    if index + 1 == cores {
        total
    } else {
        (index + 1) * (total / cores)
    }
}

/// How many candidates the range of worker `index` holds.
pub open spec fn partition_size(total: nat, cores: nat, index: nat) -> int {
    partition_end(total, cores, index) - partition_start(total, cores, index)
}

/// How many candidates the ranges of the first `count` workers hold together.
pub open spec fn sizes_sum(total: nat, cores: nat, count: nat) -> int
    decreases count,
{
    if count == 0 {
        0
    } else {
        sizes_sum(total, cores, (count - 1) as nat) + partition_size(
            total,
            cores,
            (count - 1) as nat,
        )
    }
}

proof fn lemma_share_fits(total: nat, cores: nat, index: nat)
    by (nonlinear_arith)
    requires
        cores > 0,
        index < cores,
    ensures
        index * (total / cores) <= (index + 1) * (total / cores) <= total,
        (index + 1) * (total / cores) == index * (total / cores) + total / cores,
{
    assert(cores * (total / cores) <= total) by {
        vstd::arithmetic::div_mod::lemma_fundamental_div_mod(total as int, cores as int);
    }
    assert((index + 1) * (total / cores) <= cores * (total / cores));
}

/// Each range lies inside the list and is not reversed.
pub proof fn lemma_partition_in_bounds(total: nat, cores: nat, index: nat)
    requires
        cores > 0,
        index < cores,
    ensures
        partition_start(total, cores, index) <= partition_end(total, cores, index) <= total,
{
    lemma_share_fits(total, cores, index);
}

proof fn lemma_sizes_sum_is_start(total: nat, cores: nat, count: nat)
    requires
        cores > 0,
        count < cores,
    ensures
        sizes_sum(total, cores, count) == partition_start(total, cores, count),
    decreases count,
{
    if count == 0 {
        assert(0 * (total / cores) == 0) by (nonlinear_arith);
    } else {
        lemma_sizes_sum_is_start(total, cores, (count - 1) as nat);
        lemma_share_fits(total, cores, (count - 1) as nat);
    }
}

/// The ranges cut the list into consecutive pieces that leave nothing out.
///
/// The first range starts at the head of the list, each range starts where the
/// one before it ends, and the last range ends at the end of the list. So no
/// two ranges share a place, and the sizes of all ranges add up to the length
/// of the list. A single worker gets the whole list.
pub proof fn lemma_partitions_tile(total: nat, cores: nat)
    requires
        cores > 0,
    ensures
        partition_start(total, cores, 0) == 0,
        partition_end(total, cores, (cores - 1) as nat) == total,
        forall|i: nat|
            i + 1 < cores ==> #[trigger] partition_end(total, cores, i) == partition_start(
                total,
                cores,
                i + 1,
            ),
        forall|i: nat|
            i < cores ==> partition_start(total, cores, i) <= #[trigger] partition_end(
                total,
                cores,
                i,
            ) <= total,
        forall|i: nat, j: nat|
            i < j < cores ==> #[trigger] partition_end(total, cores, i) <= #[trigger] partition_start(
                total,
                cores,
                j,
            ),
        sizes_sum(total, cores, cores) == total,
        cores == 1 ==> partition_start(total, cores, 0) == 0 && partition_end(total, cores, 0)
            == total,
{
    assert(0 * (total / cores) == 0) by (nonlinear_arith);
    assert forall|i: nat| i < cores implies partition_start(total, cores, i)
        <= #[trigger] partition_end(total, cores, i) <= total by {
        lemma_partition_in_bounds(total, cores, i);
    }
    assert forall|i: nat, j: nat| i < j < cores implies #[trigger] partition_end(total, cores, i)
        <= #[trigger] partition_start(total, cores, j) by {
        let share = total / cores;
        assert((i + 1) * share <= j * share) by (nonlinear_arith)
            requires
                i + 1 <= j,
                share >= 0,
        ;
    }
    lemma_sizes_sum_is_start(total, cores, (cores - 1) as nat);
}

/// The ranges of the candidate list that the workers take, in order.
///
/// For `cores` workers the list of `total_keys` candidates is cut into `cores`
/// ranges: each but the last holds `total_keys / cores` candidates, the last
/// takes the rest.
pub fn partition_bounds(total_keys: usize, cores: u16) -> (bounds: Vec<Partition>)
    requires
        cores > 0,
    ensures
        bounds@.len() == cores,
        forall|i: int|
            0 <= i < cores ==> (#[trigger] bounds@[i]).start == partition_start(
                total_keys as nat,
                cores as nat,
                i as nat,
            ) && bounds@[i].end == partition_end(total_keys as nat, cores as nat, i as nat),
{
    let keys_per_worker: usize = total_keys / (cores as usize);
    let mut bounds: Vec<Partition> = Vec::new();
    let mut keys_assigned: usize = 0;
    let mut worker: u16 = 0;
    proof {
        assert(0 * (total_keys as nat / cores as nat) == 0) by (nonlinear_arith);
    }
    while worker < cores
        invariant
            cores > 0,
            worker <= cores,
            keys_per_worker == total_keys as nat / cores as nat,
            bounds@.len() == worker,
            worker < cores ==> keys_assigned == partition_start(
                total_keys as nat,
                cores as nat,
                worker as nat,
            ),
            forall|i: int|
                0 <= i < worker ==> (#[trigger] bounds@[i]).start == partition_start(
                    total_keys as nat,
                    cores as nat,
                    i as nat,
                ) && bounds@[i].end == partition_end(total_keys as nat, cores as nat, i as nat),
        decreases cores - worker,
    {
        proof {
            lemma_share_fits(total_keys as nat, cores as nat, worker as nat);
        }
        let start: usize = keys_assigned;
        let end: usize = if worker + 1 == cores {
            total_keys
        } else {
            keys_assigned + keys_per_worker
        };
        bounds.push(Partition { start, end });
        keys_assigned = end;
        worker += 1;
    }
    bounds
}

/// The candidates of one range of the list, copied in order.
pub fn take_partition(candidates: &Vec<Vec<u8>>, range: Partition) -> (keys: Vec<Vec<u8>>)
    requires
        range.start <= range.end <= candidates@.len(),
    ensures
        keys@.len() == range.end - range.start,
        forall|j: int|
            0 <= j < keys@.len() ==> (#[trigger] keys@[j])@ == candidates@[range.start + j]@,
{
    let mut keys: Vec<Vec<u8>> = Vec::new();
    let mut place: usize = range.start;
    while place < range.end
        invariant
            range.start <= place <= range.end <= candidates@.len(),
            keys@.len() == place - range.start,
            forall|j: int|
                0 <= j < keys@.len() ==> (#[trigger] keys@[j])@ == candidates@[range.start + j]@,
        decreases range.end - place,
    {
        let key: Vec<u8> = candidates[place].clone();
        assert(key@ =~= candidates@[place as int]@);
        keys.push(key);
        place += 1;
    }
    keys
}

/// The candidate list cut into one list for each worker.
///
/// The lists are the ranges given by [`partition_bounds`]: joined in order
/// they give the candidate list back.
pub fn split_candidates(candidates: &Vec<Vec<u8>>, cores: u16) -> (parts: Vec<Vec<Vec<u8>>>)
    requires
        cores > 0,
    ensures
        parts@.len() == cores,
        forall|i: int|
            0 <= i < cores ==> (#[trigger] parts@[i])@.len() == partition_size(
                candidates@.len(),
                cores as nat,
                i as nat,
            ),
        forall|i: int, j: int|
            0 <= i < cores && 0 <= j < parts@[i]@.len() ==> (#[trigger] parts@[i]@[j])@
                == candidates@[partition_start(candidates@.len(), cores as nat, i as nat) + j]@,
{
    let bounds: Vec<Partition> = partition_bounds(candidates.len(), cores);
    let mut parts: Vec<Vec<Vec<u8>>> = Vec::new();
    let mut worker: usize = 0;
    while worker < bounds.len()
        invariant
            cores > 0,
            bounds@.len() == cores,
            worker <= bounds@.len(),
            parts@.len() == worker,
            forall|i: int|
                0 <= i < cores ==> (#[trigger] bounds@[i]).start == partition_start(
                    candidates@.len(),
                    cores as nat,
                    i as nat,
                ) && bounds@[i].end == partition_end(candidates@.len(), cores as nat, i as nat),
            forall|i: int|
                0 <= i < worker ==> (#[trigger] parts@[i])@.len() == partition_size(
                    candidates@.len(),
                    cores as nat,
                    i as nat,
                ),
            forall|i: int, j: int|
                0 <= i < worker && 0 <= j < parts@[i]@.len() ==> (#[trigger] parts@[i]@[j])@
                    == candidates@[partition_start(candidates@.len(), cores as nat, i as nat) + j]@,
        decreases bounds@.len() - worker,
    {
        let range: Partition = bounds[worker];
        proof {
            lemma_partition_in_bounds(candidates@.len(), cores as nat, worker as nat);
        }
        let keys: Vec<Vec<u8>> = take_partition(candidates, range);
        parts.push(keys);
        worker += 1;
    }
    parts
}

} // verus!
