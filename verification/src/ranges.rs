//! Contiguous index-range producers. `IndexRange` is the single reusable
//! cursor over `[cur, total)`; the four record iterators pair it with a
//! borrowed topology and materialize a typed view per index, lazily and in
//! order, never reading outside the range they were built from.

use vstd::prelude::*;

use crate::topology::Topology;
use crate::views::{Cluster, Core, Package, Processor};

verus! {

/// A cursor over the contiguous index range `[cur, total)`.
#[derive(Clone, Copy, PartialEq, Eq, Structural, Debug)]
pub struct IndexRange {
    pub cur: u32,
    pub total: u32,
}

impl IndexRange {
    pub open spec fn wf(self) -> bool {
        self.cur <= self.total
    }

    /// How many indices are still to be produced.
    pub open spec fn remaining(self) -> int {
        self.total - self.cur
    }

    /// The indices still to be produced, in order.
    pub open spec fn yields(self) -> Seq<int> {
        Seq::new(self.remaining() as nat, |k: int| self.cur + k)
    }

    pub fn new(start: u32, count: u32) -> (r: IndexRange)
        requires
            start + count <= u32::MAX,
        ensures
            r.cur == start,
            r.total == start + count,
            r.wf(),
    {
        IndexRange { cur: start, total: start + count }
    }

    /// Produce the next index of the range, advancing the cursor; nothing
    /// once the range is exhausted.
    pub fn next_index(&mut self) -> (r: Option<u32>)
        requires
            old(self).wf(),
        ensures
            final(self).wf(),
            final(self).total == old(self).total,
            old(self).remaining() > 0 ==> r == Some(old(self).cur) && final(self).cur
                == old(self).cur + 1,
            old(self).remaining() == 0 ==> r is None && *final(self) == *old(self),
    {
        if self.cur < self.total {
            let i = self.cur;
            self.cur = self.cur + 1;
            Some(i)
        } else {
            None
        }
    }

    /// Produce the index `n` places ahead of the cursor, advancing past it;
    /// nothing, with the range exhausted, when fewer than `n + 1` remain.
    pub fn nth_index(&mut self, n: u32) -> (r: Option<u32>)
        requires
            old(self).wf(),
        ensures
            final(self).wf(),
            final(self).total == old(self).total,
            (n as int) < old(self).remaining() ==> r == Some((old(self).cur + n) as u32)
                && final(self).cur == old(self).cur + n + 1,
            (n as int) >= old(self).remaining() ==> r is None && final(self).cur
                == old(self).total,
    {
        if n < self.total - self.cur {
            let i = self.cur + n;
            self.cur = i + 1;
            Some(i)
        } else {
            self.cur = self.total;
            None
        }
    }

    /// How many indices are still to be produced.
    pub fn count(self) -> (r: u32)
        requires
            self.wf(),
        ensures
            r as int == self.remaining(),
    {
        self.total - self.cur
    }
}

/// A lazy, finite producer of `Processor` views for a contiguous range of
/// processor indices.
#[derive(Clone, Copy)]
pub struct Processors<'a> {
    pub topo: &'a Topology,
    pub range: IndexRange,
}

impl<'a> Processors<'a> {
    pub open spec fn wf(self) -> bool {
        &&& self.topo.wf()
        &&& self.range.wf()
        &&& self.range.total as int <= self.topo.nprocs()
    }

    /// The views still to be produced, in order.
    pub open spec fn yields_views(self) -> Seq<Processor<'a>> {
        Seq::new(
            self.range.remaining() as nat,
            |k: int| (Processor { topo: self.topo, idx: (self.range.cur + k) as u32 }),
        )
    }

    /// Produce the next view, advancing the cursor; nothing once the range
    /// is exhausted. An empty range yields nothing and never errs.
    pub fn next(&mut self) -> (r: Option<Processor<'a>>)
        requires
            old(self).wf(),
        ensures
            final(self).wf(),
            final(self).topo == old(self).topo,
            final(self).range.total == old(self).range.total,
            old(self).range.remaining() > 0 ==> r == Some(old(self).yields_views()[0])
                && final(self).range.cur == old(self).range.cur + 1,
            old(self).range.remaining() == 0 ==> r is None && *final(self) == *old(self),
    {
        let t = self.topo;
        match self.range.next_index() {
            Some(i) => Some(t.get_processor(i)),
            None => None,
        }
    }

    /// Produce the view `n` places ahead, advancing past it; nothing, with
    /// the range exhausted, when fewer than `n + 1` remain.
    pub fn nth(&mut self, n: u32) -> (r: Option<Processor<'a>>)
        requires
            old(self).wf(),
        ensures
            final(self).wf(),
            final(self).topo == old(self).topo,
            final(self).range.total == old(self).range.total,
            (n as int) < old(self).range.remaining() ==> r
                == Some(old(self).yields_views()[n as int]),
            (n as int) >= old(self).range.remaining() ==> r is None,
    {
        let t = self.topo;
        match self.range.nth_index(n) {
            Some(i) => Some(t.get_processor(i)),
            None => None,
        }
    }

    /// How many views are still to be produced.
    pub fn count(self) -> (r: u32)
        requires
            self.wf(),
        ensures
            r as int == self.range.remaining(),
            r as int == self.yields_views().len(),
    {
        self.range.count()
    }
}

/// A lazy, finite producer of `Core` views for a contiguous range of core
/// indices.
#[derive(Clone, Copy)]
pub struct Cores<'a> {
    pub topo: &'a Topology,
    pub range: IndexRange,
}

impl<'a> Cores<'a> {
    pub open spec fn wf(self) -> bool {
        &&& self.topo.wf()
        &&& self.range.wf()
        &&& self.range.total as int <= self.topo.ncores()
    }

    /// The views still to be produced, in order.
    pub open spec fn yields_views(self) -> Seq<Core<'a>> {
        Seq::new(
            self.range.remaining() as nat,
            |k: int| (Core { topo: self.topo, idx: (self.range.cur + k) as u32 }),
        )
    }

    /// Produce the next view, advancing the cursor; nothing once the range
    /// is exhausted. An empty range yields nothing and never errs.
    pub fn next(&mut self) -> (r: Option<Core<'a>>)
        requires
            old(self).wf(),
        ensures
            final(self).wf(),
            final(self).topo == old(self).topo,
            final(self).range.total == old(self).range.total,
            old(self).range.remaining() > 0 ==> r == Some(old(self).yields_views()[0])
                && final(self).range.cur == old(self).range.cur + 1,
            old(self).range.remaining() == 0 ==> r is None && *final(self) == *old(self),
    {
        let t = self.topo;
        match self.range.next_index() {
            Some(i) => Some(t.get_core(i)),
            None => None,
        }
    }

    /// Produce the view `n` places ahead, advancing past it; nothing, with
    /// the range exhausted, when fewer than `n + 1` remain.
    pub fn nth(&mut self, n: u32) -> (r: Option<Core<'a>>)
        requires
            old(self).wf(),
        ensures
            final(self).wf(),
            final(self).topo == old(self).topo,
            final(self).range.total == old(self).range.total,
            (n as int) < old(self).range.remaining() ==> r
                == Some(old(self).yields_views()[n as int]),
            (n as int) >= old(self).range.remaining() ==> r is None,
    {
        let t = self.topo;
        match self.range.nth_index(n) {
            Some(i) => Some(t.get_core(i)),
            None => None,
        }
    }

    /// How many views are still to be produced.
    pub fn count(self) -> (r: u32)
        requires
            self.wf(),
        ensures
            r as int == self.range.remaining(),
            r as int == self.yields_views().len(),
    {
        self.range.count()
    }
}

/// A lazy, finite producer of `Cluster` views for a contiguous range of
/// cluster indices.
#[derive(Clone, Copy)]
pub struct Clusters<'a> {
    pub topo: &'a Topology,
    pub range: IndexRange,
}

impl<'a> Clusters<'a> {
    pub open spec fn wf(self) -> bool {
        &&& self.topo.wf()
        &&& self.range.wf()
        &&& self.range.total as int <= self.topo.nclusters()
    }

    /// The views still to be produced, in order.
    pub open spec fn yields_views(self) -> Seq<Cluster<'a>> {
        Seq::new(
            self.range.remaining() as nat,
            |k: int| (Cluster { topo: self.topo, idx: (self.range.cur + k) as u32 }),
        )
    }

    /// Produce the next view, advancing the cursor; nothing once the range
    /// is exhausted. An empty range yields nothing and never errs.
    pub fn next(&mut self) -> (r: Option<Cluster<'a>>)
        requires
            old(self).wf(),
        ensures
            final(self).wf(),
            final(self).topo == old(self).topo,
            final(self).range.total == old(self).range.total,
            old(self).range.remaining() > 0 ==> r == Some(old(self).yields_views()[0])
                && final(self).range.cur == old(self).range.cur + 1,
            old(self).range.remaining() == 0 ==> r is None && *final(self) == *old(self),
    {
        let t = self.topo;
        match self.range.next_index() {
            Some(i) => Some(t.get_cluster(i)),
            None => None,
        }
    }

    /// Produce the view `n` places ahead, advancing past it; nothing, with
    /// the range exhausted, when fewer than `n + 1` remain.
    pub fn nth(&mut self, n: u32) -> (r: Option<Cluster<'a>>)
        requires
            old(self).wf(),
        ensures
            final(self).wf(),
            final(self).topo == old(self).topo,
            final(self).range.total == old(self).range.total,
            (n as int) < old(self).range.remaining() ==> r
                == Some(old(self).yields_views()[n as int]),
            (n as int) >= old(self).range.remaining() ==> r is None,
    {
        let t = self.topo;
        match self.range.nth_index(n) {
            Some(i) => Some(t.get_cluster(i)),
            None => None,
        }
    }

    /// How many views are still to be produced.
    pub fn count(self) -> (r: u32)
        requires
            self.wf(),
        ensures
            r as int == self.range.remaining(),
            r as int == self.yields_views().len(),
    {
        self.range.count()
    }
}

/// A lazy, finite producer of `Package` views for a contiguous range of
/// package indices.
#[derive(Clone, Copy)]
pub struct Packages<'a> {
    pub topo: &'a Topology,
    pub range: IndexRange,
}

impl<'a> Packages<'a> {
    pub open spec fn wf(self) -> bool {
        &&& self.topo.wf()
        &&& self.range.wf()
        &&& self.range.total as int <= self.topo.npackages()
    }

    /// The views still to be produced, in order.
    pub open spec fn yields_views(self) -> Seq<Package<'a>> {
        Seq::new(
            self.range.remaining() as nat,
            |k: int| (Package { topo: self.topo, idx: (self.range.cur + k) as u32 }),
        )
    }

    /// Produce the next view, advancing the cursor; nothing once the range
    /// is exhausted. An empty range yields nothing and never errs.
    pub fn next(&mut self) -> (r: Option<Package<'a>>)
        requires
            old(self).wf(),
        ensures
            final(self).wf(),
            final(self).topo == old(self).topo,
            final(self).range.total == old(self).range.total,
            old(self).range.remaining() > 0 ==> r == Some(old(self).yields_views()[0])
                && final(self).range.cur == old(self).range.cur + 1,
            old(self).range.remaining() == 0 ==> r is None && *final(self) == *old(self),
    {
        let t = self.topo;
        match self.range.next_index() {
            Some(i) => Some(t.get_package(i)),
            None => None,
        }
    }

    /// Produce the view `n` places ahead, advancing past it; nothing, with
    /// the range exhausted, when fewer than `n + 1` remain.
    pub fn nth(&mut self, n: u32) -> (r: Option<Package<'a>>)
        requires
            old(self).wf(),
        ensures
            final(self).wf(),
            final(self).topo == old(self).topo,
            final(self).range.total == old(self).range.total,
            (n as int) < old(self).range.remaining() ==> r
                == Some(old(self).yields_views()[n as int]),
            (n as int) >= old(self).range.remaining() ==> r is None,
    {
        let t = self.topo;
        match self.range.nth_index(n) {
            Some(i) => Some(t.get_package(i)),
            None => None,
        }
    }

    /// How many views are still to be produced.
    pub fn count(self) -> (r: u32)
        requires
            self.wf(),
        ensures
            r as int == self.range.remaining(),
            r as int == self.yields_views().len(),
    {
        self.range.count()
    }
}

} // verus!
