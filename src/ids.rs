use vstd::prelude::*;
use crate::entity::Address;
use crate::registry::CrowdfundRegistryContract;

verus! {

/// The ids `first + 1`, ..., `first + n`, in order.
pub open spec fn id_range(first: int, n: int) -> Seq<u64> {
    Seq::new(n as nat, |i: int| (first + i + 1) as u64)
}

/// The number of instances in the first `j` batches.
pub open spec fn total_len(batches: Seq<Seq<Address>>, j: int) -> nat
    decreases j,
{
    if j <= 0 {
        0
    } else {
        total_len(batches, j - 1) + batches[j - 1].len()
    }
}

/// The id lists `ids`, one after another.
pub open spec fn joined(ids: Seq<Seq<u64>>) -> Seq<u64>
    decreases ids.len(),
{
    if ids.len() == 0 {
        Seq::empty()
    } else {
        joined(ids.drop_last()) + ids.last()
    }
}

/// Two ranges that follow each other form one range.
pub proof fn lemma_id_range_concat(first: int, n: int, m: int)
    requires
        0 <= n,
        0 <= m,
    ensures
        id_range(first, n) + id_range(first + n, m) == id_range(first, n + m),
{
    assert(id_range(first, n) + id_range(first + n, m) =~= id_range(first, n + m));
}

/// A range of ids that fit in 64 bits holds each id once.
pub proof fn lemma_id_range_distinct(first: int, n: int)
    requires
        0 <= first,
        0 <= n,
        first + n <= u64::MAX,
    ensures
        id_range(first, n).no_duplicates(),
{
}

proof fn lemma_batches_prefix(
    regs: Seq<CrowdfundRegistryContract>,
    deployed: Seq<Seq<Address>>,
    ids: Seq<Seq<u64>>,
    k: int,
)
    requires
        regs.len() == deployed.len() + 1,
        ids.len() == deployed.len(),
        regs[0].counter_view() == 0,
        forall|j: int|
            #![trigger deployed[j]]
            0 <= j < deployed.len() ==> {
                &&& regs[j + 1].extends(regs[j], deployed[j])
                &&& ids[j] == id_range(regs[j].counter_view() as int, deployed[j].len() as int)
            },
        0 <= k <= deployed.len(),
    ensures
        regs[k].counter_view() == total_len(deployed, k),
        joined(ids.take(k)) == id_range(0, total_len(deployed, k) as int),
        forall|j: int| 0 <= j < k ==> regs[j].counter_view() == total_len(deployed, j),
    decreases k,
{
    if k == 0 {
        assert(joined(ids.take(0)) =~= id_range(0, 0));
    } else {
        lemma_batches_prefix(regs, deployed, ids, k - 1);
        let j = k - 1;
        assert(ids[j] == id_range(regs[j].counter_view() as int, deployed[j].len() as int));
        assert(regs[j + 1].extends(regs[j], deployed[j]));
        assert(ids.take(k).drop_last() =~= ids.take(k - 1));
        lemma_id_range_concat(0, total_len(deployed, k - 1) as int, deployed[k - 1].len() as int);
    }
}

/// Batches created one after another on a fresh registry hand out the ids
/// `1, 2, ...` in order: batch `j` gets the ids that follow those of the
/// batches before it, no id is skipped or repeated, and the counter ends at
/// the number of campaigns created.
///
/// `regs[j]` is the registry before batch `j` and `regs[j + 1]` after it; the
/// batch registered the instances `deployed[j]` and returned `ids[j]`, as a
/// successful batch creation ensures.
pub proof fn lemma_batch_ids_are_dense(
    regs: Seq<CrowdfundRegistryContract>,
    deployed: Seq<Seq<Address>>,
    ids: Seq<Seq<u64>>,
)
    requires
        regs.len() == deployed.len() + 1,
        ids.len() == deployed.len(),
        forall|j: int| 0 <= j < regs.len() ==> #[trigger] regs[j].wf(),
        regs[0].counter_view() == 0,
        forall|j: int|
            #![trigger deployed[j]]
            0 <= j < deployed.len() ==> {
                &&& regs[j + 1].extends(regs[j], deployed[j])
                &&& ids[j] == id_range(regs[j].counter_view() as int, deployed[j].len() as int)
            },
    ensures
        forall|j: int| 0 <= j < regs.len() ==> #[trigger] regs[j].counter_view() == total_len(deployed, j),
        forall|j: int|
            0 <= j < ids.len() ==> #[trigger] ids[j] == id_range(
                total_len(deployed, j) as int,
                deployed[j].len() as int,
            ),
        joined(ids) == id_range(0, total_len(deployed, deployed.len() as int) as int),
        joined(ids).no_duplicates(),
{
    let n = deployed.len() as int;
    lemma_batches_prefix(regs, deployed, ids, n);
    assert(ids.take(n) =~= ids);
    assert(regs[n].wf());
    lemma_id_range_distinct(0, total_len(deployed, n) as int);
}

} // verus!
