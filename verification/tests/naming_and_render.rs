use cpuinfo::records::{ClusterRecord, CoreRecord, PackageRecord, ProcessorRecord};
use cpuinfo::render::u32_to_string;
use cpuinfo::text::nul_terminated_prefix;
use cpuinfo::topology::Topology;

fn one_core_topology(name: &[u8], core_id: u32) -> Topology {
    let processors = vec![ProcessorRecord { smt_id: 0, core: 0, cluster: 0, package: 0 }];
    let cores = vec![CoreRecord {
        core_id,
        vendor: 0,
        uarch: 0,
        cpuid: 0,
        frequency: 0,
        processor_start: 0,
        processor_count: 1,
        cluster: 0,
    }];
    let clusters = vec![ClusterRecord { core_start: 0, core_count: 1 }];
    let packages = vec![PackageRecord {
        name: name.to_vec(),
        processor_start: 0,
        processor_count: 1,
        core_start: 0,
        core_count: 1,
        cluster_start: 0,
        cluster_count: 1,
    }];
    Topology::from_tables(processors, cores, clusters, packages).expect("well-formed tables")
}

#[test]
fn name_stops_at_terminator() {
    let t = one_core_topology(b"Cortex-A55\0leftover bytes", 0);
    let pkg = t.get_package(0);
    assert_eq!(pkg.name(), "Cortex-A55");
}

#[test]
fn name_without_terminator_is_whole_buffer() {
    let t = one_core_topology(b"RyzenX", 0);
    assert_eq!(t.get_package(0).name(), "RyzenX");
}

#[test]
fn name_of_empty_buffer_is_empty() {
    let t = one_core_topology(b"", 0);
    assert_eq!(t.get_package(0).name(), "");
}

#[test]
fn malformed_name_bytes_are_replaced_not_reported() {
    let t = one_core_topology(&[0x52, 0xFF, 0x52], 0);
    assert_eq!(t.get_package(0).name(), "R\u{FFFD}R");
}

#[test]
fn terminated_prefix_scan() {
    assert_eq!(nul_terminated_prefix(&b"abc\0def".to_vec()), b"abc".to_vec());
    assert_eq!(nul_terminated_prefix(&b"\0def".to_vec()), Vec::<u8>::new());
    assert_eq!(nul_terminated_prefix(&b"abc".to_vec()), b"abc".to_vec());
    assert_eq!(nul_terminated_prefix(&Vec::new()), Vec::<u8>::new());
}

#[test]
fn decimal_rendering_of_u32() {
    assert_eq!(u32_to_string(0), "0");
    assert_eq!(u32_to_string(9), "9");
    assert_eq!(u32_to_string(10), "10");
    assert_eq!(u32_to_string(907), "907");
    assert_eq!(u32_to_string(u32::MAX), "4294967295");
}

#[test]
fn processor_rendering() {
    let t = one_core_topology(b"chip\0", 5);
    assert_eq!(t.get_processor(0).render(), "Processor { smt_id: 0 }");
}

#[test]
fn core_rendering_nests_processors() {
    let t = one_core_topology(b"chip\0", 5);
    assert_eq!(
        t.get_core(0).render(),
        "Core { core_id: 5, processors: [Processor { smt_id: 0 }] }"
    );
}

#[test]
fn cluster_rendering_nests_cores() {
    let t = one_core_topology(b"chip\0", 5);
    assert_eq!(
        t.get_cluster(0).render(),
        "Cluster { cores: [Core { core_id: 5, processors: [Processor { smt_id: 0 }] }] }"
    );
}

#[test]
fn package_rendering_nests_whole_subtree() {
    let t = one_core_topology(b"chip\0", 5);
    assert_eq!(
        t.get_package(0).render(),
        "Package { name: \"chip\", clusters: [Cluster { cores: [Core { core_id: 5, \
         processors: [Processor { smt_id: 0 }] }] }] }"
    );
}

#[test]
fn rendering_of_empty_lists() {
    let processors = Vec::new();
    let cores = Vec::new();
    let clusters = vec![ClusterRecord { core_start: 0, core_count: 0 }];
    let packages = vec![PackageRecord {
        name: b"bare\0".to_vec(),
        processor_start: 0,
        processor_count: 0,
        core_start: 0,
        core_count: 0,
        cluster_start: 0,
        cluster_count: 1,
    }];
    let t = Topology::from_tables(processors, cores, clusters, packages)
        .expect("well-formed tables");
    assert_eq!(t.get_cluster(0).render(), "Cluster { cores: [] }");
    assert_eq!(
        t.get_package(0).render(),
        "Package { name: \"bare\", clusters: [Cluster { cores: [] }] }"
    );
}
