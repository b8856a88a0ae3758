use kuro::config::spec::IdMapping;
use kuro::namespaces::userns::{MapStep, UserMgr};

fn maps() -> Vec<IdMapping> {
    vec![
        IdMapping { container_id: 0, host_id: 1000, size: 1 },
        IdMapping { container_id: 1, host_id: 100000, size: 65536 },
    ]
}

#[test]
fn map_content_has_one_line_per_mapping() {
    assert_eq!(UserMgr::map_content(&maps()), "0 1000 1\n1 100000 65536\n");
    assert_eq!(UserMgr::map_content(&vec![]), "");
}

#[test]
fn helper_and_files() {
    assert_eq!(
        UserMgr::helper_argv(77, "uid", &maps()),
        vec!["newuidmap", "77", "0", "1000", "1", "1", "100000", "65536"]
    );
    assert_eq!(UserMgr::map_file(77, "gid"), "/proc/77/gid_map");
    assert_eq!(UserMgr::setgroups_file(77), "/proc/77/setgroups");
}

#[test]
fn root_writes_maps_and_denies_setgroups() {
    let steps = UserMgr::set_mappings(77, Some(&maps()), Some(&maps()), true);
    assert_eq!(steps.len(), 3);
    match &steps[0] {
        MapStep::WriteMap { path, content } => {
            assert_eq!(path, "/proc/77/uid_map");
            assert_eq!(content, "0 1000 1\n1 100000 65536\n");
        }
        other => panic!("unexpected {:?}", other),
    }
    match &steps[1] {
        MapStep::DenySetgroups { path } => assert_eq!(path, "/proc/77/setgroups"),
        other => panic!("unexpected {:?}", other),
    }
    match &steps[2] {
        MapStep::WriteMap { path, .. } => assert_eq!(path, "/proc/77/gid_map"),
        other => panic!("unexpected {:?}", other),
    }
}

#[test]
fn rootless_runs_helpers_and_skips_empty_maps() {
    let steps = UserMgr::set_mappings(5, Some(&vec![]), Some(&maps()), false);
    assert_eq!(steps.len(), 1);
    match &steps[0] {
        MapStep::RunHelper { argv } => assert_eq!(argv[0], "newgidmap"),
        other => panic!("unexpected {:?}", other),
    }
    assert!(UserMgr::set_mappings(5, None, None, true).is_empty());
}
