//! The traversal guarantees of a well-formed topology, stated and proved
//! once over the specs that every accessor's contract speaks of.

use vstd::prelude::*;

use crate::ranges::Processors;
use crate::topology::Topology;
use crate::views::{Cluster, Core, Package, Processor};

verus! {

/// Some core of package `p` has processor index `i` in its range.
pub open spec fn covered_by_core_of_package(t: Topology, p: int, i: int) -> bool {
    exists|j: int|
        #[trigger] t.package_at(p).core_range_contains(j) && t.core_at(j).proc_range_contains(i)
}

/// Bulk iteration agrees with direct lookup: position `i` of a traversal
/// of the whole processor table is exactly the view that `get_processor`
/// returns for index `i`.
pub proof fn lemma_iteration_matches_lookup<'a>(it: Processors<'a>, i: int)
    requires
        it.wf(),
        it.range.cur == 0,
        it.range.total as int == it.topo.nprocs(),
        0 <= i < it.topo.nprocs(),
    ensures
        it.yields_views()[i] == (Processor { topo: it.topo, idx: i as u32 }),
{
}

/// Round trip: every processor occurs among the processors of its own
/// core, exactly once.
pub proof fn lemma_processor_core_round_trip<'a>(p: Processor<'a>)
    requires
        p.wf(),
    ensures
        ({
            let ys = p.spec_core().spec_processors().yields_views();
            let pos = p.idx - p.spec_core().record().processor_start;
            &&& 0 <= pos < ys.len()
            &&& ys[pos] == p
            &&& forall|k: int| 0 <= k < ys.len() && k != pos ==> ys[k] != p
        }),
{
    assert(p.topo.processor_wf(p.idx as int));
    let c = p.record().core as int;
    assert(p.topo.core_wf(c));
    let start = p.topo.core_at(c).processor_start as int;
    let count = p.topo.core_at(c).processor_count as int;
    assert((start + count) as u32 == start + count);
    let ys = p.spec_core().spec_processors().yields_views();
    let pos = p.idx - start;
    assert(ys[pos] == (Processor { topo: p.topo, idx: p.idx }));
    assert(forall|k: int| 0 <= k < ys.len() ==> #[trigger] ys[k].idx == start + k);
}

/// Partition: the processor indices of a package are exactly those covered
/// by the cores of that package, and distinct cores' processor ranges
/// never overlap.
pub proof fn lemma_package_processor_partition(t: Topology, p: int)
    requires
        t.wf(),
        0 <= p < t.npackages(),
    ensures
        forall|i: int|
            #[trigger] t.package_at(p).proc_range_contains(i) <==> covered_by_core_of_package(
                t,
                p,
                i,
            ),
        forall|j1: int, j2: int, i: int|
            0 <= j1 < t.ncores() && 0 <= j2 < t.ncores() && j1 != j2 && #[trigger] t.core_at(
                j1,
            ).proc_range_contains(i) ==> !(#[trigger] t.core_at(j2).proc_range_contains(i)),
{
    assert(t.package_wf(p));
    assert forall|i: int| t.package_at(p).proc_range_contains(i) implies covered_by_core_of_package(
        t,
        p,
        i,
    ) by {
        assert(0 <= i < t.nprocs());
        assert(t.proc_at(i).package == p);
        assert(t.processor_wf(i));
        let j = t.proc_at(i).core as int;
        assert(t.package_at(p).core_range_contains(j));
        assert(t.core_at(j).proc_range_contains(i));
    };
    assert forall|i: int| covered_by_core_of_package(t, p, i) implies t.package_at(
        p,
    ).proc_range_contains(i) by {
        let j = choose|j: int|
            #[trigger] t.package_at(p).core_range_contains(j) && t.core_at(
                j,
            ).proc_range_contains(i);
        assert(t.package_at(p).processor_start <= t.core_at(j).processor_start);
        assert(t.core_at(j).processor_start + t.core_at(j).processor_count <= t.package_at(
            p,
        ).processor_start + t.package_at(p).processor_count);
    };
    assert forall|j1: int, j2: int, i: int|
        0 <= j1 < t.ncores() && 0 <= j2 < t.ncores() && j1 != j2 && #[trigger] t.core_at(
            j1,
        ).proc_range_contains(i) implies !(#[trigger] t.core_at(j2).proc_range_contains(i)) by {
        if t.core_at(j2).proc_range_contains(i) {
            assert(t.proc_at(i).core == j1);
            assert(t.proc_at(i).core == j2);
        }
    };
}

/// A cluster or package relationship whose count is zero produces an
/// iterator that yields zero items, not an error.
pub proof fn lemma_empty_range_yields_nothing<'a>(cl: Cluster<'a>, pk: Package<'a>)
    requires
        cl.wf(),
        pk.wf(),
    ensures
        cl.record().core_count == 0 ==> cl.spec_cores().yields_views().len() == 0,
        pk.record().processor_count == 0 ==> pk.spec_processors().yields_views().len() == 0,
        pk.record().core_count == 0 ==> pk.spec_cores().yields_views().len() == 0,
        pk.record().cluster_count == 0 ==> pk.spec_clusters().yields_views().len() == 0,
{
}

} // verus!
