use kuro::cgroups::v2::CgroupMgr;
use kuro::config::spec::{CpuConfig, DeviceRule, MemoryConfig, ResourcesConfig};

fn pairs(mgr: &CgroupMgr, r: &ResourcesConfig) -> Vec<(String, String)> {
    mgr.limit_writes(r)
        .into_iter()
        .map(|w| {
            assert_eq!(w.path, format!("{}/{}", mgr.path(), w.file));
            (w.file, w.value)
        })
        .collect()
}

#[test]
fn container_cgroup_path() {
    assert_eq!(CgroupMgr::for_container("alp").path(), "/sys/fs/cgroup/kuro/alp");
    let w = CgroupMgr::for_container("alp").proc_write(4321);
    assert_eq!(w.file, "cgroup.procs");
    assert_eq!(w.path, "/sys/fs/cgroup/kuro/alp/cgroup.procs");
    assert_eq!(w.value, "4321");
}

#[test]
fn all_limits_in_order() {
    let mgr = CgroupMgr::for_container("c");
    let r = ResourcesConfig {
        memory: Some(MemoryConfig { limit: Some(1048576), swap: Some(-1) }),
        pids_limit: Some(0),
        cpu: Some(CpuConfig {
            shares: Some(1024),
            quota: Some(50000),
            period: Some(100000),
            cpus: Some("0-1".to_string()),
            mems: Some("0".to_string()),
        }),
        devices: None,
    };
    let expected: Vec<(String, String)> = vec![
        ("memory.max", "1048576"),
        ("memory.swap.max", "max"),
        ("pids.max", "max"),
        ("cpu.max", "50000 100000"),
        ("cpu.weight", "39"),
        ("cpuset.cpus", "0-1"),
        ("cpuset.mems", "0"),
    ]
    .into_iter()
    .map(|(a, b)| (a.to_string(), b.to_string()))
    .collect();
    assert_eq!(pairs(&mgr, &r), expected);
}

#[test]
fn partial_limits() {
    let mgr = CgroupMgr::for_container("c");
    let r = ResourcesConfig {
        memory: Some(MemoryConfig { limit: None, swap: Some(2048) }),
        pids_limit: Some(64),
        cpu: Some(CpuConfig { shares: None, quota: Some(-1), period: None, cpus: None, mems: None }),
        devices: None,
    };
    assert_eq!(
        pairs(&mgr, &r),
        vec![
            ("memory.swap.max".to_string(), "2048".to_string()),
            ("pids.max".to_string(), "64".to_string())
        ]
    );
    let empty = ResourcesConfig { memory: None, pids_limit: None, cpu: None, devices: None };
    assert!(pairs(&mgr, &empty).is_empty());
}

#[test]
fn cpu_weight_bounds() {
    let mgr = CgroupMgr::for_container("c");
    for (shares, weight) in [(0u64, "1"), (2, "1"), (262144, "10000"), (1024, "39")] {
        let r = ResourcesConfig {
            memory: None,
            pids_limit: None,
            cpu: Some(CpuConfig { shares: Some(shares), quota: None, period: None, cpus: None, mems: None }),
            devices: None,
        };
        assert_eq!(pairs(&mgr, &r), vec![("cpu.weight".to_string(), weight.to_string())]);
    }
}

#[test]
fn subtree_control_enables_every_controller() {
    assert_eq!(
        CgroupMgr::subtree_control_line("cpuset cpu io memory hugetlb pids rdma misc\n"),
        Some("+cpuset +cpu +io +memory +hugetlb +pids +rdma +misc".to_string())
    );
    assert_eq!(CgroupMgr::subtree_control_line(" \n"), None);
    assert_eq!(CgroupMgr::subtree_control_file("/sys/fs/cgroup/kuro"), "/sys/fs/cgroup/kuro/cgroup.subtree_control");
    assert_eq!(CgroupMgr::controllers_file("/sys/fs/cgroup"), "/sys/fs/cgroup/cgroup.controllers");
}

#[test]
fn device_rule_lines() {
    let allow = DeviceRule { allow: true, major: Some(1), minor: Some(3), access: Some("rw".to_string()) };
    assert_eq!(CgroupMgr::device_rule_line(&allow), "a 1:3 rw");
    let deny = DeviceRule { allow: false, major: None, minor: None, access: None };
    assert_eq!(CgroupMgr::device_rule_line(&deny), "b : rwm");
    assert_eq!(CgroupMgr::devices_allow_file("/sys/fs/cgroup/kuro/c"), "/sys/fs/cgroup/kuro/c/devices.allow");
}
