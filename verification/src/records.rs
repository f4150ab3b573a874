//! The four flat record kinds that the detection backend reports, held as
//! plain values: each record addresses its relatives by zero-based table
//! index, and each parent names its children as a contiguous
//! `(start, count)` range into the child table.

use vstd::prelude::*;

verus! {

/// One logical execution unit (hardware thread): its SMT sibling index and
/// the indices of the core, cluster and package that own it.
#[derive(Clone, Copy, PartialEq, Eq, Structural, Debug)]
pub struct ProcessorRecord {
    pub smt_id: u32,
    pub core: u32,
    pub cluster: u32,
    pub package: u32,
}

/// One physical core: identification fields, its contiguous range of
/// processors, and the index of the cluster that owns it.
#[derive(Clone, Copy, PartialEq, Eq, Structural, Debug)]
pub struct CoreRecord {
    pub core_id: u32,
    pub vendor: u32,
    pub uarch: u32,
    pub cpuid: u32,
    pub frequency: u64,
    pub processor_start: u32,
    pub processor_count: u32,
    pub cluster: u32,
}

/// One affinity cluster: its contiguous range of cores.
#[derive(Clone, Copy, PartialEq, Eq, Structural, Debug)]
pub struct ClusterRecord {
    pub core_start: u32,
    pub core_count: u32,
}

/// One physical package (chip/socket): its name as the raw bytes of the
/// backend's terminated buffer, and its contiguous ranges of processors,
/// cores and clusters.
#[derive(Clone, Debug)]
pub struct PackageRecord {
    pub name: Vec<u8>,
    pub processor_start: u32,
    pub processor_count: u32,
    pub core_start: u32,
    pub core_count: u32,
    pub cluster_start: u32,
    pub cluster_count: u32,
}

impl CoreRecord {
    /// Whether processor index `i` lies in this core's processor range.
    pub open spec fn proc_range_contains(self, i: int) -> bool {
        self.processor_start <= i < self.processor_start + self.processor_count
    }
}

impl ClusterRecord {
    /// Whether core index `j` lies in this cluster's core range.
    pub open spec fn core_range_contains(self, j: int) -> bool {
        self.core_start <= j < self.core_start + self.core_count
    }
}

impl PackageRecord {
    /// Whether processor index `i` lies in this package's processor range.
    pub open spec fn proc_range_contains(self, i: int) -> bool {
        self.processor_start <= i < self.processor_start + self.processor_count
    }

    /// Whether core index `j` lies in this package's core range.
    pub open spec fn core_range_contains(self, j: int) -> bool {
        self.core_start <= j < self.core_start + self.core_count
    }

    /// Whether cluster index `k` lies in this package's cluster range.
    pub open spec fn cluster_range_contains(self, k: int) -> bool {
        self.cluster_start <= k < self.cluster_start + self.cluster_count
    }
}

} // verus!
