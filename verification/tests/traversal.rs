use cpuinfo::records::{ClusterRecord, CoreRecord, PackageRecord, ProcessorRecord};
use cpuinfo::topology::Topology;

fn proc_rec(smt_id: u32, core: u32, cluster: u32, package: u32) -> ProcessorRecord {
    ProcessorRecord { smt_id, core, cluster, package }
}

fn core_rec(core_id: u32, processor_start: u32, processor_count: u32, cluster: u32) -> CoreRecord {
    CoreRecord {
        core_id,
        vendor: 11,
        uarch: 22,
        cpuid: 33,
        frequency: 1_800_000_000,
        processor_start,
        processor_count,
        cluster,
    }
}

fn package_rec(
    name: &[u8],
    processor_start: u32,
    processor_count: u32,
    core_start: u32,
    core_count: u32,
    cluster_start: u32,
    cluster_count: u32,
) -> PackageRecord {
    PackageRecord {
        name: name.to_vec(),
        processor_start,
        processor_count,
        core_start,
        core_count,
        cluster_start,
        cluster_count,
    }
}

/// One package, one cluster, four single-threaded cores.
fn single_package_four_cores() -> Topology {
    let processors = vec![
        proc_rec(0, 0, 0, 0),
        proc_rec(0, 1, 0, 0),
        proc_rec(0, 2, 0, 0),
        proc_rec(0, 3, 0, 0),
    ];
    let cores = vec![
        core_rec(0, 0, 1, 0),
        core_rec(1, 1, 1, 0),
        core_rec(2, 2, 1, 0),
        core_rec(3, 3, 1, 0),
    ];
    let clusters = vec![ClusterRecord { core_start: 0, core_count: 4 }];
    let packages = vec![package_rec(b"chip0\0", 0, 4, 0, 4, 0, 1)];
    Topology::from_tables(processors, cores, clusters, packages).expect("well-formed tables")
}

/// One package, two clusters of four single-threaded cores each.
fn big_little_two_clusters() -> Topology {
    let mut processors = Vec::new();
    let mut cores = Vec::new();
    for i in 0..8u32 {
        let cluster = if i < 4 { 0 } else { 1 };
        processors.push(proc_rec(0, i, cluster, 0));
        cores.push(core_rec(i, i, 1, cluster));
    }
    let clusters = vec![
        ClusterRecord { core_start: 0, core_count: 4 },
        ClusterRecord { core_start: 4, core_count: 4 },
    ];
    let packages = vec![package_rec(b"soc\0", 0, 8, 0, 8, 0, 2)];
    Topology::from_tables(processors, cores, clusters, packages).expect("well-formed tables")
}

/// One package with two cores sharing one SMT pair each.
fn smt_two_cores() -> Topology {
    let processors = vec![
        proc_rec(0, 0, 0, 0),
        proc_rec(1, 0, 0, 0),
        proc_rec(0, 1, 0, 0),
        proc_rec(1, 1, 0, 0),
    ];
    let cores = vec![core_rec(0, 0, 2, 0), core_rec(1, 2, 2, 0)];
    let clusters = vec![ClusterRecord { core_start: 0, core_count: 2 }];
    let packages = vec![package_rec(b"smt\0", 0, 4, 0, 2, 0, 1)];
    Topology::from_tables(processors, cores, clusters, packages).expect("well-formed tables")
}

#[test]
fn counts_match_tables() {
    let t = single_package_four_cores();
    assert_eq!(t.processors_count(), 4);
    assert_eq!(t.cores_count(), 4);
    assert_eq!(t.clusters_count(), 1);
    assert_eq!(t.packages_count(), 1);
}

#[test]
fn iteration_matches_direct_lookup() {
    let t = single_package_four_cores();
    let mut it = t.processors();
    for i in 0..4u32 {
        let from_iter = it.next().expect("four processors");
        let from_lookup = t.get_processor(i);
        assert_eq!(from_iter.idx, from_lookup.idx);
        assert_eq!(from_iter.smt_id(), from_lookup.smt_id());
    }
    assert!(it.next().is_none());
}

#[test]
fn nth_matches_direct_lookup() {
    let t = single_package_four_cores();
    let mut it = t.processors();
    let third = it.nth(2).expect("index 2 exists");
    assert_eq!(third.idx, t.get_processor(2).idx);
    let mut it2 = t.processors();
    assert!(it2.nth(4).is_none());
}

#[test]
fn processor_core_round_trip() {
    let t = smt_two_cores();
    for i in 0..4u32 {
        let p = t.get_processor(i);
        let c = p.owning_core();
        let mut occurrences = 0;
        let mut procs = c.processors();
        while let Some(q) = procs.next() {
            if q.idx == p.idx {
                occurrences += 1;
            }
        }
        assert_eq!(occurrences, 1);
    }
}

#[test]
fn package_processors_partition_into_cores() {
    let t = big_little_two_clusters();
    let mut packages = t.packages();
    let pkg = packages.next().expect("one package");

    let mut direct: Vec<u32> = Vec::new();
    let mut from_pkg = pkg.processors();
    while let Some(p) = from_pkg.next() {
        direct.push(p.idx);
    }

    let mut via_cores: Vec<u32> = Vec::new();
    let mut cores = pkg.cores();
    while let Some(c) = cores.next() {
        let mut procs = c.processors();
        while let Some(p) = procs.next() {
            assert!(!via_cores.contains(&p.idx), "ranges of distinct cores overlap");
            via_cores.push(p.idx);
        }
    }

    via_cores.sort();
    assert_eq!(direct, via_cores);
}

#[test]
fn end_to_end_single_package_four_cores() {
    let t = single_package_four_cores();
    assert_eq!(t.packages().count(), 1);
    let mut packages = t.packages();
    let pkg = packages.next().expect("one package");
    assert_eq!(pkg.cores().count(), 4);
    assert_eq!(t.processors().count(), 4);
    let mut cores = pkg.cores();
    while let Some(c) = cores.next() {
        assert_eq!(c.processors().count(), 1);
        let mut procs = c.processors();
        let only = procs.next().expect("one processor");
        assert_eq!(only.smt_id(), 0);
        assert!(procs.next().is_none());
    }
}

#[test]
fn end_to_end_big_little() {
    let t = big_little_two_clusters();
    assert_eq!(t.clusters().count(), 2);
    let mut total = 0;
    let mut clusters = t.clusters();
    while let Some(cl) = clusters.next() {
        total += cl.cores().count();
    }
    assert_eq!(total, 8);
    assert_eq!(t.cores().count(), 8);
}

#[test]
fn accessors_pass_fields_through() {
    let t = single_package_four_cores();
    let c = t.get_core(2);
    assert_eq!(c.vendor(), 11);
    assert_eq!(c.microarch(), 22);
    assert_eq!(c.cpuid(), 33);
    assert_eq!(c.core_id(), 2);
    assert_eq!(c.frequency(), 1_800_000_000);
    assert_eq!(c.cluster().idx, 0);

    let p = t.get_processor(3);
    assert_eq!(p.owning_core().idx, 3);
    assert_eq!(p.cluster().idx, 0);
    assert_eq!(p.package().idx, 0);
}

#[test]
fn smt_ids_within_core() {
    let t = smt_two_cores();
    let c = t.get_core(1);
    let mut procs = c.processors();
    assert_eq!(procs.next().expect("first sibling").smt_id(), 0);
    assert_eq!(procs.next().expect("second sibling").smt_id(), 1);
    assert!(procs.next().is_none());
}

#[test]
fn empty_relationship_ranges_yield_nothing() {
    let processors = Vec::new();
    let cores = Vec::new();
    let clusters = vec![ClusterRecord { core_start: 0, core_count: 0 }];
    let packages = vec![package_rec(b"bare\0", 0, 0, 0, 0, 0, 1)];
    let t = Topology::from_tables(processors, cores, clusters, packages)
        .expect("well-formed tables");

    let mut packages_it = t.packages();
    let pkg = packages_it.next().expect("one package");
    assert_eq!(pkg.processors().count(), 0);
    assert!(pkg.processors().next().is_none());
    assert_eq!(pkg.cores().count(), 0);
    assert_eq!(pkg.clusters().count(), 1);

    let cl = t.get_cluster(0);
    assert_eq!(cl.cores().count(), 0);
    assert!(cl.cores().next().is_none());
}

#[test]
fn empty_topology_reads_as_all_zero() {
    let t = Topology::empty();
    assert_eq!(t.processors_count(), 0);
    assert_eq!(t.cores_count(), 0);
    assert_eq!(t.clusters_count(), 0);
    assert_eq!(t.packages_count(), 0);
    assert!(t.processors().next().is_none());
    assert!(t.packages().next().is_none());
}

#[test]
fn malformed_tables_are_rejected() {
    // A core whose processor range runs past the processor table.
    let t = Topology {
        processor_table: vec![proc_rec(0, 0, 0, 0)],
        core_table: vec![core_rec(0, 0, 2, 0)],
        cluster_table: vec![ClusterRecord { core_start: 0, core_count: 1 }],
        package_table: vec![package_rec(b"bad\0", 0, 1, 0, 1, 0, 1)],
    };
    assert!(!t.check());

    // A processor outside the range of the core it names.
    assert!(
        Topology::from_tables(
            vec![proc_rec(0, 0, 0, 0), proc_rec(0, 0, 0, 0)],
            vec![core_rec(0, 0, 1, 0), core_rec(1, 1, 1, 0)],
            vec![ClusterRecord { core_start: 0, core_count: 2 }],
            vec![package_rec(b"bad\0", 0, 2, 0, 2, 0, 1)],
        )
        .is_none()
    );

    // A processor that names a core index outside the core table.
    assert!(
        Topology::from_tables(
            vec![proc_rec(0, 7, 0, 0)],
            vec![core_rec(0, 0, 1, 0)],
            vec![ClusterRecord { core_start: 0, core_count: 1 }],
            vec![package_rec(b"bad\0", 0, 1, 0, 1, 0, 1)],
        )
        .is_none()
    );

    // A core that names a cluster whose range does not hold it.
    assert!(
        Topology::from_tables(
            vec![proc_rec(0, 0, 0, 0)],
            vec![core_rec(0, 0, 1, 0)],
            vec![ClusterRecord { core_start: 0, core_count: 0 }],
            vec![package_rec(b"bad\0", 0, 1, 0, 1, 0, 1)],
        )
        .is_none()
    );
}

#[test]
fn well_formed_tables_are_accepted() {
    let t = single_package_four_cores();
    assert!(t.check());
}
