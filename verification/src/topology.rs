//! The topology model: four flat record tables populated once by the
//! detection backend, together with the well-formedness invariant that makes
//! every traversal of the parent/child ranges safe, and a verified validator
//! that decides that invariant at the boundary where the tables arrive.

use vstd::prelude::*;

use crate::records::{ClusterRecord, CoreRecord, PackageRecord, ProcessorRecord};

verus! {

/// The complete, immutable CPU topology: flat tables of processors, cores,
/// clusters and packages, cross-referenced by table index.
#[derive(Clone, Debug)]
pub struct Topology {
    pub processor_table: Vec<ProcessorRecord>,
    pub core_table: Vec<CoreRecord>,
    pub cluster_table: Vec<ClusterRecord>,
    pub package_table: Vec<PackageRecord>,
}

impl Topology {
    pub open spec fn nprocs(self) -> int {
        self.processor_table@.len() as int
    }

    pub open spec fn ncores(self) -> int {
        self.core_table@.len() as int
    }

    pub open spec fn nclusters(self) -> int {
        self.cluster_table@.len() as int
    }

    pub open spec fn npackages(self) -> int {
        self.package_table@.len() as int
    }

    pub open spec fn proc_at(self, i: int) -> ProcessorRecord {
        self.processor_table@[i]
    }

    pub open spec fn core_at(self, j: int) -> CoreRecord {
        self.core_table@[j]
    }

    pub open spec fn cluster_at(self, k: int) -> ClusterRecord {
        self.cluster_table@[k]
    }

    pub open spec fn package_at(self, p: int) -> PackageRecord {
        self.package_table@[p]
    }

    /// Processor `i` names owners inside the tables, lies inside its own
    /// core's processor range, its core lies inside its package's core
    /// range, and its cluster is its core's cluster.
    pub open spec fn processor_wf(self, i: int) -> bool {
        let p = self.proc_at(i);
        &&& (p.core as int) < self.ncores()
        &&& (p.cluster as int) < self.nclusters()
        &&& (p.package as int) < self.npackages()
        &&& self.core_at(p.core as int).proc_range_contains(i)
        &&& self.package_at(p.package as int).core_range_contains(p.core as int)
        &&& p.cluster == self.core_at(p.core as int).cluster
    }

    /// Core `j` has an in-bounds processor range and lies inside the core
    /// range of the cluster it names.
    pub open spec fn core_wf(self, j: int) -> bool {
        let c = self.core_at(j);
        &&& c.processor_start + c.processor_count <= self.nprocs()
        &&& (c.cluster as int) < self.nclusters()
        &&& self.cluster_at(c.cluster as int).core_range_contains(j)
    }

    /// Cluster `k` has an in-bounds core range.
    pub open spec fn cluster_wf(self, k: int) -> bool {
        let cl = self.cluster_at(k);
        cl.core_start + cl.core_count <= self.ncores()
    }

    /// Package `p` has in-bounds processor, core and cluster ranges.
    pub open spec fn package_wf(self, p: int) -> bool {
        let pk = self.package_at(p);
        &&& pk.processor_start + pk.processor_count <= self.nprocs()
        &&& pk.core_start + pk.core_count <= self.ncores()
        &&& pk.cluster_start + pk.cluster_count <= self.nclusters()
    }

    /// Every processor inside a core's range names that core as its owner;
    /// with the back-reference in `processor_wf` this makes distinct cores'
    /// ranges disjoint.
    pub open spec fn cores_own_their_processors(self) -> bool {
        forall|j: int, i: int|
            0 <= j < self.ncores() && #[trigger] self.core_at(j).proc_range_contains(i)
                ==> self.proc_at(i).core == j
    }

    /// Every processor inside a package's range names that package as its
    /// owner.
    pub open spec fn packages_own_their_processors(self) -> bool {
        forall|p: int, i: int|
            0 <= p < self.npackages() && #[trigger] self.package_at(p).proc_range_contains(i)
                ==> self.proc_at(i).package == p
    }

    /// Every core inside a cluster's range names that cluster as its owner.
    pub open spec fn clusters_own_their_cores(self) -> bool {
        forall|k: int, j: int|
            0 <= k < self.nclusters() && #[trigger] self.cluster_at(k).core_range_contains(j)
                ==> self.core_at(j).cluster == k
    }

    /// The processor range of every core of a package lies inside that
    /// package's processor range.
    pub open spec fn package_cores_within_package(self) -> bool {
        forall|p: int, j: int|
            0 <= p < self.npackages() && #[trigger] self.package_at(p).core_range_contains(j)
                ==> self.package_at(p).processor_start <= self.core_at(j).processor_start
                    && self.core_at(j).processor_start + self.core_at(j).processor_count
                        <= self.package_at(p).processor_start + self.package_at(p).processor_count
    }

    /// Well-formedness of the whole topology: table sizes fit the backend's
    /// 32-bit counts, every record is internally consistent, and the
    /// parent/child ranges form strict, non-overlapping partitions.
    pub open spec fn wf(self) -> bool {
        &&& self.nprocs() <= u32::MAX
        &&& self.ncores() <= u32::MAX
        &&& self.nclusters() <= u32::MAX
        &&& self.npackages() <= u32::MAX
        &&& forall|i: int| 0 <= i < self.nprocs() ==> #[trigger] self.processor_wf(i)
        &&& forall|j: int| 0 <= j < self.ncores() ==> #[trigger] self.core_wf(j)
        &&& forall|k: int| 0 <= k < self.nclusters() ==> #[trigger] self.cluster_wf(k)
        &&& forall|p: int| 0 <= p < self.npackages() ==> #[trigger] self.package_wf(p)
        &&& self.cores_own_their_processors()
        &&& self.packages_own_their_processors()
        &&& self.clusters_own_their_cores()
        &&& self.package_cores_within_package()
    }

    /// The empty topology: what every query layer falls back to when the
    /// detection backend reports nothing (all counts read as zero).
    pub fn empty() -> (r: Topology)
        ensures
            r.wf(),
            r.nprocs() == 0,
            r.ncores() == 0,
            r.nclusters() == 0,
            r.npackages() == 0,
    {
        Topology {
            processor_table: Vec::new(),
            core_table: Vec::new(),
            cluster_table: Vec::new(),
            package_table: Vec::new(),
        }
    }

    fn check_processor(&self, i: usize) -> (r: bool)
        requires
            i < self.processor_table@.len(),
        ensures
            r == self.processor_wf(i as int),
    {
        let p = self.processor_table[i];
        if !((p.core as usize) < self.core_table.len()
            && (p.cluster as usize) < self.cluster_table.len()
            && (p.package as usize) < self.package_table.len())
        {
            return false;
        }
        let c = self.core_table[p.core as usize];
        let pk = &self.package_table[p.package as usize];
        let in_core = (c.processor_start as u64) <= (i as u64)
            && (i as u64) < (c.processor_start as u64) + (c.processor_count as u64);
        let core_in_pkg = (pk.core_start as u64) <= (p.core as u64)
            && (p.core as u64) < (pk.core_start as u64) + (pk.core_count as u64);
        in_core && core_in_pkg && p.cluster == c.cluster
    }

    fn check_core(&self, j: usize) -> (r: bool)
        requires
            j < self.core_table@.len(),
        ensures
            r == self.core_wf(j as int),
    {
        let c = self.core_table[j];
        if !((c.processor_start as u64) + (c.processor_count as u64)
            <= self.processor_table.len() as u64
            && (c.cluster as usize) < self.cluster_table.len())
        {
            return false;
        }
        let cl = self.cluster_table[c.cluster as usize];
        (cl.core_start as u64) <= (j as u64)
            && (j as u64) < (cl.core_start as u64) + (cl.core_count as u64)
    }

    fn check_cluster(&self, k: usize) -> (r: bool)
        requires
            k < self.cluster_table@.len(),
        ensures
            r == self.cluster_wf(k as int),
    {
        let cl = self.cluster_table[k];
        (cl.core_start as u64) + (cl.core_count as u64) <= self.core_table.len() as u64
    }

    fn check_package(&self, p: usize) -> (r: bool)
        requires
            p < self.package_table@.len(),
        ensures
            r == self.package_wf(p as int),
    {
        let pk = &self.package_table[p];
        (pk.processor_start as u64) + (pk.processor_count as u64)
            <= self.processor_table.len() as u64
            && (pk.core_start as u64) + (pk.core_count as u64) <= self.core_table.len() as u64
            && (pk.cluster_start as u64) + (pk.cluster_count as u64)
                <= self.cluster_table.len() as u64
    }

    /// Decide well-formedness of the tables: every set of backend-reported
    /// tables must pass here before any view or iterator can be formed
    /// over it.
    pub fn check(&self) -> (r: bool)
        ensures
            r == self.wf(),
    {
        if self.processor_table.len() as u64 > u32::MAX as u64
            || self.core_table.len() as u64 > u32::MAX as u64
            || self.cluster_table.len() as u64 > u32::MAX as u64
            || self.package_table.len() as u64 > u32::MAX as u64
        {
            return false;
        }

        let nprocs = self.processor_table.len();
        let ncores = self.core_table.len();
        let nclusters = self.cluster_table.len();
        let npackages = self.package_table.len();

        let mut i: usize = 0;
        while i < nprocs
            invariant
                nprocs == self.processor_table@.len(),
                i <= nprocs,
                forall|q: int| 0 <= q < i ==> #[trigger] self.processor_wf(q),
            decreases nprocs - i,
        {
            if !self.check_processor(i) {
                return false;
            }
            i += 1;
        }

        let mut j: usize = 0;
        while j < ncores
            invariant
                ncores == self.core_table@.len(),
                j <= ncores,
                forall|q: int| 0 <= q < j ==> #[trigger] self.core_wf(q),
            decreases ncores - j,
        {
            if !self.check_core(j) {
                return false;
            }
            j += 1;
        }

        let mut k: usize = 0;
        while k < nclusters
            invariant
                nclusters == self.cluster_table@.len(),
                k <= nclusters,
                forall|q: int| 0 <= q < k ==> #[trigger] self.cluster_wf(q),
            decreases nclusters - k,
        {
            if !self.check_cluster(k) {
                return false;
            }
            k += 1;
        }

        let mut p: usize = 0;
        while p < npackages
            invariant
                npackages == self.package_table@.len(),
                p <= npackages,
                forall|q: int| 0 <= q < p ==> #[trigger] self.package_wf(q),
            decreases npackages - p,
        {
            if !self.check_package(p) {
                return false;
            }
            p += 1;
        }

        if !self.check_cores_own_their_processors() {
            return false;
        }
        if !self.check_packages_own_their_processors() {
            return false;
        }
        if !self.check_clusters_own_their_cores() {
            return false;
        }
        if !self.check_package_cores_within_package() {
            return false;
        }
        true
    }

    fn check_cores_own_their_processors(&self) -> (r: bool)
        requires
            self.nprocs() <= u32::MAX,
            self.ncores() <= u32::MAX,
            forall|q: int| 0 <= q < self.ncores() ==> #[trigger] self.core_wf(q),
        ensures
            r == self.cores_own_their_processors(),
    {
        let ncores = self.core_table.len();
        let mut j: usize = 0;
        while j < ncores
            invariant
                ncores == self.core_table@.len(),
                j <= ncores,
                self.nprocs() <= u32::MAX,
                self.ncores() <= u32::MAX,
                forall|q: int| 0 <= q < self.ncores() ==> #[trigger] self.core_wf(q),
                forall|a: int, b: int|
                    0 <= a < j && #[trigger] self.core_at(a).proc_range_contains(b)
                        ==> self.proc_at(b).core == a,
            decreases ncores - j,
        {
            proof {
                assert(self.core_wf(j as int));
            }
            let c = self.core_table[j];
            let e: u32 = c.processor_start + c.processor_count;
            let mut i: u32 = c.processor_start;
            while i < e
                invariant
                    j < self.core_table@.len(),
                    c == self.core_at(j as int),
                    e == c.processor_start + c.processor_count,
                    e <= self.nprocs(),
                    c.processor_start <= i <= e,
                    forall|b: int|
                        c.processor_start <= b < i ==> #[trigger] self.proc_at(b).core == j,
                decreases e - i,
            {
                if self.processor_table[i as usize].core as usize != j {
                    proof {
                        assert(self.core_at(j as int).proc_range_contains(i as int));
                        assert(self.proc_at(i as int).core != j);
                    }
                    return false;
                }
                i += 1;
            }
            j += 1;
        }
        true
    }

    fn check_packages_own_their_processors(&self) -> (r: bool)
        requires
            self.nprocs() <= u32::MAX,
            self.npackages() <= u32::MAX,
            forall|q: int| 0 <= q < self.npackages() ==> #[trigger] self.package_wf(q),
        ensures
            r == self.packages_own_their_processors(),
    {
        let npackages = self.package_table.len();
        let mut p: usize = 0;
        while p < npackages
            invariant
                npackages == self.package_table@.len(),
                p <= npackages,
                self.nprocs() <= u32::MAX,
                self.npackages() <= u32::MAX,
                forall|q: int| 0 <= q < self.npackages() ==> #[trigger] self.package_wf(q),
                forall|a: int, b: int|
                    0 <= a < p && #[trigger] self.package_at(a).proc_range_contains(b)
                        ==> self.proc_at(b).package == a,
            decreases npackages - p,
        {
            proof {
                assert(self.package_wf(p as int));
            }
            let start = self.package_table[p].processor_start;
            let count = self.package_table[p].processor_count;
            let e: u32 = start + count;
            let mut i: u32 = start;
            while i < e
                invariant
                    p < self.package_table@.len(),
                    start == self.package_at(p as int).processor_start,
                    count == self.package_at(p as int).processor_count,
                    e == start + count,
                    e <= self.nprocs(),
                    start <= i <= e,
                    forall|b: int| start <= b < i ==> #[trigger] self.proc_at(b).package == p,
                decreases e - i,
            {
                if self.processor_table[i as usize].package as usize != p {
                    proof {
                        assert(self.package_at(p as int).proc_range_contains(i as int));
                        assert(self.proc_at(i as int).package != p);
                    }
                    return false;
                }
                i += 1;
            }
            p += 1;
        }
        true
    }

    fn check_clusters_own_their_cores(&self) -> (r: bool)
        requires
            self.ncores() <= u32::MAX,
            self.nclusters() <= u32::MAX,
            forall|q: int| 0 <= q < self.nclusters() ==> #[trigger] self.cluster_wf(q),
        ensures
            r == self.clusters_own_their_cores(),
    {
        let nclusters = self.cluster_table.len();
        let mut k: usize = 0;
        while k < nclusters
            invariant
                nclusters == self.cluster_table@.len(),
                k <= nclusters,
                self.ncores() <= u32::MAX,
                self.nclusters() <= u32::MAX,
                forall|q: int| 0 <= q < self.nclusters() ==> #[trigger] self.cluster_wf(q),
                forall|a: int, b: int|
                    0 <= a < k && #[trigger] self.cluster_at(a).core_range_contains(b)
                        ==> self.core_at(b).cluster == a,
            decreases nclusters - k,
        {
            proof {
                assert(self.cluster_wf(k as int));
            }
            let cl = self.cluster_table[k];
            let e: u32 = cl.core_start + cl.core_count;
            let mut j: u32 = cl.core_start;
            while j < e
                invariant
                    k < self.cluster_table@.len(),
                    cl == self.cluster_at(k as int),
                    e == cl.core_start + cl.core_count,
                    e <= self.ncores(),
                    cl.core_start <= j <= e,
                    forall|b: int| cl.core_start <= b < j ==> #[trigger] self.core_at(b).cluster == k,
                decreases e - j,
            {
                if self.core_table[j as usize].cluster as usize != k {
                    proof {
                        assert(self.cluster_at(k as int).core_range_contains(j as int));
                        assert(self.core_at(j as int).cluster != k);
                    }
                    return false;
                }
                j += 1;
            }
            k += 1;
        }
        true
    }

    fn check_package_cores_within_package(&self) -> (r: bool)
        requires
            self.ncores() <= u32::MAX,
            self.npackages() <= u32::MAX,
            forall|q: int| 0 <= q < self.npackages() ==> #[trigger] self.package_wf(q),
        ensures
            r == self.package_cores_within_package(),
    {
        let npackages = self.package_table.len();
        let mut p: usize = 0;
        while p < npackages
            invariant
                npackages == self.package_table@.len(),
                p <= npackages,
                self.ncores() <= u32::MAX,
                self.npackages() <= u32::MAX,
                forall|q: int| 0 <= q < self.npackages() ==> #[trigger] self.package_wf(q),
                forall|a: int, b: int|
                    0 <= a < p && #[trigger] self.package_at(a).core_range_contains(b)
                        ==> self.package_at(a).processor_start
                            <= self.core_at(b).processor_start
                            && self.core_at(b).processor_start
                                + self.core_at(b).processor_count
                                <= self.package_at(a).processor_start
                                    + self.package_at(a).processor_count,
            decreases npackages - p,
        {
            proof {
                assert(self.package_wf(p as int));
            }
            let pstart = self.package_table[p].processor_start;
            let pcount = self.package_table[p].processor_count;
            let cstart = self.package_table[p].core_start;
            let ccount = self.package_table[p].core_count;
            let e: u32 = cstart + ccount;
            let mut j: u32 = cstart;
            while j < e
                invariant
                    p < self.package_table@.len(),
                    pstart == self.package_at(p as int).processor_start,
                    pcount == self.package_at(p as int).processor_count,
                    cstart == self.package_at(p as int).core_start,
                    ccount == self.package_at(p as int).core_count,
                    e == cstart + ccount,
                    e <= self.ncores(),
                    cstart <= j <= e,
                    forall|b: int|
                        cstart <= b < j
                            ==> pstart <= #[trigger] self.core_at(b).processor_start
                                && self.core_at(b).processor_start
                                    + self.core_at(b).processor_count
                                    <= pstart + pcount,
                decreases e - j,
            {
                let c = self.core_table[j as usize];
                if !((pstart as u64) <= (c.processor_start as u64)
                    && (c.processor_start as u64) + (c.processor_count as u64)
                        <= (pstart as u64) + (pcount as u64))
                {
                    proof {
                        assert(self.package_at(p as int).core_range_contains(j as int));
                    }
                    return false;
                }
                j += 1;
            }
            p += 1;
        }
        true
    }

    /// Assemble a topology from backend-reported tables. Returns the
    /// topology exactly when the tables are well-formed, and nothing
    /// otherwise; nothing else constructs a usable topology from raw
    /// tables.
    pub fn from_tables(
        processors: Vec<ProcessorRecord>,
        cores: Vec<CoreRecord>,
        clusters: Vec<ClusterRecord>,
        packages: Vec<PackageRecord>,
    ) -> (r: Option<Topology>)
        ensures
            ({
                let t = (Topology {
                    processor_table: processors,
                    core_table: cores,
                    cluster_table: clusters,
                    package_table: packages,
                });
                &&& t.wf() ==> r == Some(t)
                &&& !t.wf() ==> r is None
            }),
    {
        let t = Topology {
            processor_table: processors,
            core_table: cores,
            cluster_table: clusters,
            package_table: packages,
        };
        if t.check() {
            Some(t)
        } else {
            None
        }
    }

    /// Total number of processor records, as the backend counts them.
    pub fn processors_count(&self) -> (r: u32)
        requires
            self.wf(),
        ensures
            r as int == self.nprocs(),
    {
        self.processor_table.len() as u32
    }

    /// Total number of core records.
    pub fn cores_count(&self) -> (r: u32)
        requires
            self.wf(),
        ensures
            r as int == self.ncores(),
    {
        self.core_table.len() as u32
    }

    /// Total number of cluster records.
    pub fn clusters_count(&self) -> (r: u32)
        requires
            self.wf(),
        ensures
            r as int == self.nclusters(),
    {
        self.cluster_table.len() as u32
    }

    /// Total number of package records.
    pub fn packages_count(&self) -> (r: u32)
        requires
            self.wf(),
        ensures
            r as int == self.npackages(),
    {
        self.package_table.len() as u32
    }
}

} // verus!
