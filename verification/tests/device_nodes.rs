use kuro::config::spec::{DeviceConfig, DeviceKind};
use kuro::devices::devices::{DevMgr, NodeType};
use kuro::devices::terminal::TermMgr;

#[test]
fn default_devices_then_configured() {
    let extra = vec![DeviceConfig {
        path: "/dev/sda".to_string(),
        kind: DeviceKind::Block,
        major: 8,
        minor: 0,
        file_mode: None,
        uid: Some(0),
        gid: None,
    }];
    let nodes = DevMgr::device_nodes(Some(&extra));
    assert_eq!(nodes.len(), 8);
    assert_eq!(nodes[0].path, "/dev/null");
    assert_eq!(nodes[0].rdev, 259);
    assert_eq!(nodes[0].mode, 0o666);
    assert_eq!(nodes[0].node_type, NodeType::Char);
    assert_eq!(nodes[5].path, "/dev/tty");
    assert_eq!(nodes[5].rdev, 0x500);
    assert_eq!(nodes[7].path, "/dev/sda");
    assert_eq!(nodes[7].node_type, NodeType::Block);
    assert_eq!(nodes[7].mode, 0o600);
    assert_eq!(nodes[7].rdev, 0x800);
    assert_eq!(nodes[7].uid, Some(0));
    assert_eq!(DevMgr::device_nodes(None).len(), 7);
}

#[test]
fn device_numbers_use_the_linux_layout() {
    let d = DeviceConfig {
        path: "/dev/x".to_string(),
        kind: DeviceKind::All,
        major: 0x12345,
        minor: 0x6789a,
        file_mode: Some(0o644),
        uid: None,
        gid: None,
    };
    let n = DevMgr::device_node(&d);
    assert_eq!(n.rdev, libc::makedev(0x12345, 0x6789a));
    assert_eq!(n.node_type, NodeType::Char);
}

#[test]
fn symlinks_and_null_access() {
    let links = DevMgr::dev_symlinks();
    assert_eq!(links[0], ("/proc/self/fd".to_string(), "/dev/fd".to_string()));
    assert_eq!(links[4], ("/dev/pts/ptmx".to_string(), "/dev/ptmx".to_string()));
    assert_eq!(TermMgr::null_access(0), (true, false));
    assert_eq!(TermMgr::null_access(2), (false, true));
}
