//! Typed, zero-copy views over single records of a topology, and the
//! topology-level query functions that hand them out. A view is an index
//! paired with a borrow of the topology; constructing one never fails and
//! never copies a record, and every view the public surface hands out is
//! in range by construction.

use vstd::prelude::*;

use crate::ranges::{Clusters, Cores, IndexRange, Packages, Processors};
use crate::records::{ClusterRecord, CoreRecord, PackageRecord, ProcessorRecord};
use crate::text::{ascii_only, lossy_decode, lossy_utf8, nul_prefix, nul_terminated_prefix};
use crate::topology::Topology;

verus! {

/// A read-only view of one logical processor.
#[derive(Clone, Copy)]
pub struct Processor<'a> {
    pub topo: &'a Topology,
    pub idx: u32,
}

/// A read-only view of one physical core.
#[derive(Clone, Copy)]
pub struct Core<'a> {
    pub topo: &'a Topology,
    pub idx: u32,
}

/// A read-only view of one affinity cluster.
#[derive(Clone, Copy)]
pub struct Cluster<'a> {
    pub topo: &'a Topology,
    pub idx: u32,
}

/// A read-only view of one physical package.
#[derive(Clone, Copy)]
pub struct Package<'a> {
    pub topo: &'a Topology,
    pub idx: u32,
}

impl<'a> Processor<'a> {
    pub open spec fn wf(self) -> bool {
        &&& self.topo.wf()
        &&& (self.idx as int) < self.topo.nprocs()
    }

    pub open spec fn record(self) -> ProcessorRecord {
        self.topo.proc_at(self.idx as int)
    }

    pub open spec fn spec_core(self) -> Core<'a> {
        Core { topo: self.topo, idx: self.record().core }
    }

    pub open spec fn spec_cluster(self) -> Cluster<'a> {
        Cluster { topo: self.topo, idx: self.record().cluster }
    }

    pub open spec fn spec_package(self) -> Package<'a> {
        Package { topo: self.topo, idx: self.record().package }
    }

    /// This processor's SMT sibling index within its core.
    pub fn smt_id(&self) -> (r: u32)
        requires
            self.wf(),
        ensures
            r == self.record().smt_id,
    {
        self.topo.processor_table[self.idx as usize].smt_id
    }

    /// The core that owns this processor.
    pub fn owning_core(&self) -> (r: Core<'a>)
        requires
            self.wf(),
        ensures
            r == self.spec_core(),
            r.wf(),
    {
        proof {
            assert(self.topo.processor_wf(self.idx as int));
        }
        Core { topo: self.topo, idx: self.topo.processor_table[self.idx as usize].core }
    }

    /// The cluster that owns this processor.
    pub fn cluster(&self) -> (r: Cluster<'a>)
        requires
            self.wf(),
        ensures
            r == self.spec_cluster(),
            r.wf(),
    {
        proof {
            assert(self.topo.processor_wf(self.idx as int));
        }
        Cluster { topo: self.topo, idx: self.topo.processor_table[self.idx as usize].cluster }
    }

    /// The package that owns this processor.
    pub fn package(&self) -> (r: Package<'a>)
        requires
            self.wf(),
        ensures
            r == self.spec_package(),
            r.wf(),
    {
        proof {
            assert(self.topo.processor_wf(self.idx as int));
        }
        Package { topo: self.topo, idx: self.topo.processor_table[self.idx as usize].package }
    }
}

impl<'a> Core<'a> {
    pub open spec fn wf(self) -> bool {
        &&& self.topo.wf()
        &&& (self.idx as int) < self.topo.ncores()
    }

    pub open spec fn record(self) -> CoreRecord {
        self.topo.core_at(self.idx as int)
    }

    pub open spec fn spec_cluster(self) -> Cluster<'a> {
        Cluster { topo: self.topo, idx: self.record().cluster }
    }

    pub open spec fn spec_processors(self) -> Processors<'a> {
        Processors {
            topo: self.topo,
            range: IndexRange {
                cur: self.record().processor_start,
                total: (self.record().processor_start + self.record().processor_count) as u32,
            },
        }
    }

    /// The vendor enumeration value, passed through as the backend reports
    /// it; unknown future values stay opaque integers.
    pub fn vendor(&self) -> (r: u32)
        requires
            self.wf(),
        ensures
            r == self.record().vendor,
    {
        self.topo.core_table[self.idx as usize].vendor
    }

    /// The microarchitecture enumeration value, passed through as the
    /// backend reports it.
    pub fn microarch(&self) -> (r: u32)
        requires
            self.wf(),
        ensures
            r == self.record().uarch,
    {
        self.topo.core_table[self.idx as usize].uarch
    }

    /// This core's identifier within its package.
    pub fn core_id(&self) -> (r: u32)
        requires
            self.wf(),
        ensures
            r == self.record().core_id,
    {
        self.topo.core_table[self.idx as usize].core_id
    }

    /// The raw identification value of this core.
    pub fn cpuid(&self) -> (r: u32)
        requires
            self.wf(),
        ensures
            r == self.record().cpuid,
    {
        self.topo.core_table[self.idx as usize].cpuid
    }

    /// The nominal clock frequency in Hz; zero when unknown.
    pub fn frequency(&self) -> (r: u64)
        requires
            self.wf(),
        ensures
            r == self.record().frequency,
    {
        self.topo.core_table[self.idx as usize].frequency
    }

    /// The cluster that owns this core.
    pub fn cluster(&self) -> (r: Cluster<'a>)
        requires
            self.wf(),
        ensures
            r == self.spec_cluster(),
            r.wf(),
    {
        proof {
            assert(self.topo.core_wf(self.idx as int));
        }
        Cluster { topo: self.topo, idx: self.topo.core_table[self.idx as usize].cluster }
    }

    /// The contiguous range of processors this core owns; empty ranges
    /// yield an iterator over zero items, never an error.
    pub fn processors(&self) -> (r: Processors<'a>)
        requires
            self.wf(),
        ensures
            r == self.spec_processors(),
            r.wf(),
            r.yields_views().len() == self.record().processor_count,
    {
        proof {
            assert(self.topo.core_wf(self.idx as int));
        }
        let rec = self.topo.core_table[self.idx as usize];
        Processors {
            topo: self.topo,
            range: IndexRange::new(rec.processor_start, rec.processor_count),
        }
    }
}

impl<'a> Cluster<'a> {
    pub open spec fn wf(self) -> bool {
        &&& self.topo.wf()
        &&& (self.idx as int) < self.topo.nclusters()
    }

    pub open spec fn record(self) -> ClusterRecord {
        self.topo.cluster_at(self.idx as int)
    }

    pub open spec fn spec_cores(self) -> Cores<'a> {
        Cores {
            topo: self.topo,
            range: IndexRange {
                cur: self.record().core_start,
                total: (self.record().core_start + self.record().core_count) as u32,
            },
        }
    }

    /// The contiguous range of cores this cluster owns; empty ranges yield
    /// an iterator over zero items, never an error.
    pub fn cores(&self) -> (r: Cores<'a>)
        requires
            self.wf(),
        ensures
            r == self.spec_cores(),
            r.wf(),
            r.yields_views().len() == self.record().core_count,
    {
        proof {
            assert(self.topo.cluster_wf(self.idx as int));
        }
        let rec = self.topo.cluster_table[self.idx as usize];
        Cores { topo: self.topo, range: IndexRange::new(rec.core_start, rec.core_count) }
    }
}

impl<'a> Package<'a> {
    pub open spec fn wf(self) -> bool {
        &&& self.topo.wf()
        &&& (self.idx as int) < self.topo.npackages()
    }

    pub open spec fn record(self) -> PackageRecord {
        self.topo.package_at(self.idx as int)
    }

    pub open spec fn spec_processors(self) -> Processors<'a> {
        Processors {
            topo: self.topo,
            range: IndexRange {
                cur: self.record().processor_start,
                total: (self.record().processor_start + self.record().processor_count) as u32,
            },
        }
    }

    pub open spec fn spec_cores(self) -> Cores<'a> {
        Cores {
            topo: self.topo,
            range: IndexRange {
                cur: self.record().core_start,
                total: (self.record().core_start + self.record().core_count) as u32,
            },
        }
    }

    pub open spec fn spec_clusters(self) -> Clusters<'a> {
        Clusters {
            topo: self.topo,
            range: IndexRange {
                cur: self.record().cluster_start,
                total: (self.record().cluster_start + self.record().cluster_count) as u32,
            },
        }
    }

    /// This package's name: the bytes of the backend's terminated buffer up
    /// to the first zero byte, decoded with lossy replacement so malformed
    /// bytes never surface as an error.
    pub fn name(&self) -> (r: String)
        requires
            self.wf(),
        ensures
            r@ == lossy_utf8(nul_prefix(self.record().name@)),
            ascii_only(nul_prefix(self.record().name@)) ==> r@ == nul_prefix(
                self.record().name@,
            ).map_values(|b: u8| b as char),
    {
        let rec = &self.topo.package_table[self.idx as usize];
        let prefix = nul_terminated_prefix(&rec.name);
        lossy_decode(&prefix)
    }

    /// The contiguous range of processors this package owns; empty ranges
    /// yield an iterator over zero items, never an error.
    pub fn processors(&self) -> (r: Processors<'a>)
        requires
            self.wf(),
        ensures
            r == self.spec_processors(),
            r.wf(),
            r.yields_views().len() == self.record().processor_count,
    {
        proof {
            assert(self.topo.package_wf(self.idx as int));
        }
        let rec = &self.topo.package_table[self.idx as usize];
        Processors {
            topo: self.topo,
            range: IndexRange::new(rec.processor_start, rec.processor_count),
        }
    }

    /// The contiguous range of cores this package owns; empty ranges yield
    /// an iterator over zero items, never an error.
    pub fn cores(&self) -> (r: Cores<'a>)
        requires
            self.wf(),
        ensures
            r == self.spec_cores(),
            r.wf(),
            r.yields_views().len() == self.record().core_count,
    {
        proof {
            assert(self.topo.package_wf(self.idx as int));
        }
        let rec = &self.topo.package_table[self.idx as usize];
        Cores { topo: self.topo, range: IndexRange::new(rec.core_start, rec.core_count) }
    }

    /// The contiguous range of clusters this package owns; empty ranges
    /// yield an iterator over zero items, never an error.
    pub fn clusters(&self) -> (r: Clusters<'a>)
        requires
            self.wf(),
        ensures
            r == self.spec_clusters(),
            r.wf(),
            r.yields_views().len() == self.record().cluster_count,
    {
        proof {
            assert(self.topo.package_wf(self.idx as int));
        }
        let rec = &self.topo.package_table[self.idx as usize];
        Clusters { topo: self.topo, range: IndexRange::new(rec.cluster_start, rec.cluster_count) }
    }
}

impl Topology {
    /// Direct lookup of processor record `i`.
    pub fn get_processor<'a>(&'a self, i: u32) -> (r: Processor<'a>)
        requires
            self.wf(),
            (i as int) < self.nprocs(),
        ensures
            r == (Processor { topo: self, idx: i }),
            r.wf(),
    {
        Processor { topo: self, idx: i }
    }

    /// Direct lookup of core record `i`.
    pub fn get_core<'a>(&'a self, i: u32) -> (r: Core<'a>)
        requires
            self.wf(),
            (i as int) < self.ncores(),
        ensures
            r == (Core { topo: self, idx: i }),
            r.wf(),
    {
        Core { topo: self, idx: i }
    }

    /// Direct lookup of cluster record `i`.
    pub fn get_cluster<'a>(&'a self, i: u32) -> (r: Cluster<'a>)
        requires
            self.wf(),
            (i as int) < self.nclusters(),
        ensures
            r == (Cluster { topo: self, idx: i }),
            r.wf(),
    {
        Cluster { topo: self, idx: i }
    }

    /// Direct lookup of package record `i`.
    pub fn get_package<'a>(&'a self, i: u32) -> (r: Package<'a>)
        requires
            self.wf(),
            (i as int) < self.npackages(),
        ensures
            r == (Package { topo: self, idx: i }),
            r.wf(),
    {
        Package { topo: self, idx: i }
    }

    /// Iterate over the entire processor table.
    pub fn processors<'a>(&'a self) -> (r: Processors<'a>)
        requires
            self.wf(),
        ensures
            r.topo == self,
            r.range.cur == 0,
            r.range.total as int == self.nprocs(),
            r.wf(),
            r.yields_views().len() == self.nprocs(),
    {
        Processors {
            topo: self,
            range: IndexRange { cur: 0, total: self.processor_table.len() as u32 },
        }
    }

    /// Iterate over the entire core table.
    pub fn cores<'a>(&'a self) -> (r: Cores<'a>)
        requires
            self.wf(),
        ensures
            r.topo == self,
            r.range.cur == 0,
            r.range.total as int == self.ncores(),
            r.wf(),
            r.yields_views().len() == self.ncores(),
    {
        Cores { topo: self, range: IndexRange { cur: 0, total: self.core_table.len() as u32 } }
    }

    /// Iterate over the entire cluster table.
    pub fn clusters<'a>(&'a self) -> (r: Clusters<'a>)
        requires
            self.wf(),
        ensures
            r.topo == self,
            r.range.cur == 0,
            r.range.total as int == self.nclusters(),
            r.wf(),
            r.yields_views().len() == self.nclusters(),
    {
        Clusters {
            topo: self,
            range: IndexRange { cur: 0, total: self.cluster_table.len() as u32 },
        }
    }

    /// Iterate over the entire package table.
    pub fn packages<'a>(&'a self) -> (r: Packages<'a>)
        requires
            self.wf(),
        ensures
            r.topo == self,
            r.range.cur == 0,
            r.range.total as int == self.npackages(),
            r.wf(),
            r.yields_views().len() == self.npackages(),
    {
        Packages {
            topo: self,
            range: IndexRange { cur: 0, total: self.package_table.len() as u32 },
        }
    }
}

} // verus!
