//! Diagnostic rendering: a structured, human-readable text for each view.
//! Rendering a package materializes its entire subtree (clusters, cores,
//! processors), so it is linear in the size of the subtree and meant for
//! debugging, not hot paths.

use vstd::prelude::*;

use crate::text::{lossy_utf8, nul_prefix};
use crate::topology::Topology;
use crate::views::{Cluster, Core, Package, Processor};

verus! {

/// The decimal digit character for `d`.
pub open spec fn dec_digit(d: nat) -> char {
    if d == 0 {
        '0'
    } else if d == 1 {
        '1'
    } else if d == 2 {
        '2'
    } else if d == 3 {
        '3'
    } else if d == 4 {
        '4'
    } else if d == 5 {
        '5'
    } else if d == 6 {
        '6'
    } else if d == 7 {
        '7'
    } else if d == 8 {
        '8'
    } else {
        '9'
    }
}

/// The decimal representation of `n`, most significant digit first.
pub open spec fn dec_rep(n: nat) -> Seq<char>
    decreases n,
{
    if n < 10 {
        seq![dec_digit(n)]
    } else {
        dec_rep(n / 10).push(dec_digit(n % 10))
    }
}

/// The rendering of processor `i`.
pub open spec fn processor_text(t: Topology, i: int) -> Seq<char> {
    "Processor { smt_id: "@ + dec_rep(t.proc_at(i).smt_id as nat) + " }"@
}

/// The renderings of processors `[start, start + count)`, comma-separated.
pub open spec fn processors_text(t: Topology, start: int, count: nat) -> Seq<char>
    decreases count,
{
    if count == 0 {
        Seq::empty()
    } else if count == 1 {
        processor_text(t, start)
    } else {
        processor_text(t, start) + ", "@ + processors_text(t, start + 1, (count - 1) as nat)
    }
}

/// The rendering of core `j`: its identifier and its processor subtree.
pub open spec fn core_text(t: Topology, j: int) -> Seq<char> {
    "Core { core_id: "@ + dec_rep(t.core_at(j).core_id as nat) + ", processors: ["@
        + processors_text(
        t,
        t.core_at(j).processor_start as int,
        t.core_at(j).processor_count as nat,
    ) + "] }"@
}

/// The renderings of cores `[start, start + count)`, comma-separated.
pub open spec fn cores_text(t: Topology, start: int, count: nat) -> Seq<char>
    decreases count,
{
    if count == 0 {
        Seq::empty()
    } else if count == 1 {
        core_text(t, start)
    } else {
        core_text(t, start) + ", "@ + cores_text(t, start + 1, (count - 1) as nat)
    }
}

/// The rendering of cluster `k`: its core subtree.
pub open spec fn cluster_text(t: Topology, k: int) -> Seq<char> {
    "Cluster { cores: ["@ + cores_text(
        t,
        t.cluster_at(k).core_start as int,
        t.cluster_at(k).core_count as nat,
    ) + "] }"@
}

/// The renderings of clusters `[start, start + count)`, comma-separated.
pub open spec fn clusters_text(t: Topology, start: int, count: nat) -> Seq<char>
    decreases count,
{
    if count == 0 {
        Seq::empty()
    } else if count == 1 {
        cluster_text(t, start)
    } else {
        cluster_text(t, start) + ", "@ + clusters_text(t, start + 1, (count - 1) as nat)
    }
}

/// The rendering of package `p`: its decoded name and its cluster subtree.
pub open spec fn package_text(t: Topology, p: int) -> Seq<char> {
    "Package { name: \""@ + lossy_utf8(nul_prefix(t.package_at(p).name@)) + "\", clusters: ["@
        + clusters_text(
        t,
        t.package_at(p).cluster_start as int,
        t.package_at(p).cluster_count as nat,
    ) + "] }"@
}

/// The decimal rendering of `n`, digit characters most significant first.
pub fn u32_to_string(n: u32) -> (r: String)
    ensures
        r@ == dec_rep(n as nat),
    decreases n,
{
    if n < 10 {
        dec_digit_string(n)
    } else {
        proof {
            assert(n as int / 10 < n as int) by (nonlinear_arith)
                requires
                    n >= 10,
            ;
        }
        let pre = u32_to_string(n / 10);
        let d = dec_digit_string(n % 10);
        let r = pre.concat(d.as_str());
        proof {
            assert(r@ =~= dec_rep(n as nat));
        }
        r
    }
}

fn dec_digit_string(d: u32) -> (r: String)
    requires
        d < 10,
    ensures
        r@ == seq![dec_digit(d as nat)],
{
    match d {
        0 => {
            proof {
                reveal_strlit("0");
            }
            String::from_str("0")
        },
        1 => {
            proof {
                reveal_strlit("1");
            }
            String::from_str("1")
        },
        2 => {
            proof {
                reveal_strlit("2");
            }
            String::from_str("2")
        },
        3 => {
            proof {
                reveal_strlit("3");
            }
            String::from_str("3")
        },
        4 => {
            proof {
                reveal_strlit("4");
            }
            String::from_str("4")
        },
        5 => {
            proof {
                reveal_strlit("5");
            }
            String::from_str("5")
        },
        6 => {
            proof {
                reveal_strlit("6");
            }
            String::from_str("6")
        },
        7 => {
            proof {
                reveal_strlit("7");
            }
            String::from_str("7")
        },
        8 => {
            proof {
                reveal_strlit("8");
            }
            String::from_str("8")
        },
        _ => {
            proof {
                reveal_strlit("9");
            }
            String::from_str("9")
        },
    }
}

fn render_processor_range(t: &Topology, start: u32, count: u32) -> (r: String)
    requires
        t.wf(),
        start + count <= t.nprocs(),
    ensures
        r@ == processors_text(*t, start as int, count as nat),
    decreases count,
{
    if count == 0 {
        String::new()
    } else {
        let p = t.get_processor(start);
        let head = p.render();
        if count == 1 {
            head
        } else {
            let mut s = head;
            s.append(", ");
            let rest = render_processor_range(t, start + 1, count - 1);
            s.append(rest.as_str());
            s
        }
    }
}

fn render_core_range(t: &Topology, start: u32, count: u32) -> (r: String)
    requires
        t.wf(),
        start + count <= t.ncores(),
    ensures
        r@ == cores_text(*t, start as int, count as nat),
    decreases count,
{
    if count == 0 {
        String::new()
    } else {
        let c = t.get_core(start);
        let head = c.render();
        if count == 1 {
            head
        } else {
            let mut s = head;
            s.append(", ");
            let rest = render_core_range(t, start + 1, count - 1);
            s.append(rest.as_str());
            s
        }
    }
}

fn render_cluster_range(t: &Topology, start: u32, count: u32) -> (r: String)
    requires
        t.wf(),
        start + count <= t.nclusters(),
    ensures
        r@ == clusters_text(*t, start as int, count as nat),
    decreases count,
{
    if count == 0 {
        String::new()
    } else {
        let cl = t.get_cluster(start);
        let head = cl.render();
        if count == 1 {
            head
        } else {
            let mut s = head;
            s.append(", ");
            let rest = render_cluster_range(t, start + 1, count - 1);
            s.append(rest.as_str());
            s
        }
    }
}

impl<'a> Processor<'a> {
    /// Diagnostic rendering: the SMT identifier of this processor.
    pub fn render(&self) -> (r: String)
        requires
            self.wf(),
        ensures
            r@ == processor_text(*self.topo, self.idx as int),
    {
        let mut s = String::from_str("Processor { smt_id: ");
        s.append(u32_to_string(self.smt_id()).as_str());
        s.append(" }");
        s
    }
}

impl<'a> Core<'a> {
    /// Diagnostic rendering: this core's identifier and, nested, every
    /// processor it owns.
    pub fn render(&self) -> (r: String)
        requires
            self.wf(),
        ensures
            r@ == core_text(*self.topo, self.idx as int),
    {
        proof {
            assert(self.topo.core_wf(self.idx as int));
        }
        let rec = self.topo.core_table[self.idx as usize];
        let mut s = String::from_str("Core { core_id: ");
        s.append(u32_to_string(rec.core_id).as_str());
        s.append(", processors: [");
        s.append(
            render_processor_range(self.topo, rec.processor_start, rec.processor_count).as_str(),
        );
        s.append("] }");
        s
    }
}

impl<'a> Cluster<'a> {
    /// Diagnostic rendering: every core this cluster owns, nested with
    /// their processors.
    pub fn render(&self) -> (r: String)
        requires
            self.wf(),
        ensures
            r@ == cluster_text(*self.topo, self.idx as int),
    {
        proof {
            assert(self.topo.cluster_wf(self.idx as int));
        }
        let rec = self.topo.cluster_table[self.idx as usize];
        let mut s = String::from_str("Cluster { cores: [");
        s.append(render_core_range(self.topo, rec.core_start, rec.core_count).as_str());
        s.append("] }");
        s
    }
}

impl<'a> Package<'a> {
    /// Diagnostic rendering: this package's name and, nested, its entire
    /// cluster subtree.
    pub fn render(&self) -> (r: String)
        requires
            self.wf(),
        ensures
            r@ == package_text(*self.topo, self.idx as int),
    {
        proof {
            assert(self.topo.package_wf(self.idx as int));
        }
        let name = self.name();
        let rec = &self.topo.package_table[self.idx as usize];
        let mut s = String::from_str("Package { name: \"");
        s.append(name.as_str());
        s.append("\", clusters: [");
        s.append(render_cluster_range(self.topo, rec.cluster_start, rec.cluster_count).as_str());
        s.append("] }");
        s
    }
}

} // verus!
