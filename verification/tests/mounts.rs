use kuro::namespaces::mount::{MaskAction, MountFlagSet, MountMgr, MountOption};

fn opts(v: &[&str]) -> Vec<String> {
    v.iter().map(|s| s.to_string()).collect()
}

fn none() -> MountFlagSet {
    MountFlagSet {
        rdonly: false,
        nosuid: false,
        nodev: false,
        noexec: false,
        bind: false,
        rec: false,
        remount: false,
        private: false,
        slave: false,
        shared: false,
    }
}

#[test]
fn mount_options_split_into_flags_and_data() {
    let (flags, data) = MountMgr::parse_mount_options(&opts(&["nosuid", "strictatime", "mode=755", "size=65536k", "ro"]));
    assert_eq!(flags, MountFlagSet { nosuid: true, rdonly: true, ..none() });
    assert_eq!(data, "strictatime,mode=755,size=65536k");
}

#[test]
fn rbind_sets_bind_and_rec() {
    let (flags, data) = MountMgr::parse_mount_options(&opts(&["rbind", "private"]));
    assert_eq!(flags, MountFlagSet { bind: true, rec: true, private: true, ..none() });
    assert_eq!(data, "");
}

#[test]
fn no_options() {
    let (flags, data) = MountMgr::parse_mount_options(&Vec::new());
    assert_eq!(flags, none());
    assert_eq!(data, "");
}

#[test]
fn every_flag_name() {
    let (flags, data) = MountMgr::parse_mount_options(&opts(&[
        "ro", "nosuid", "nodev", "noexec", "bind", "rec", "remount", "private", "slave", "shared",
    ]));
    assert_eq!(
        flags,
        MountFlagSet {
            rdonly: true,
            nosuid: true,
            nodev: true,
            noexec: true,
            bind: true,
            rec: true,
            remount: true,
            private: true,
            slave: true,
            shared: true
        }
    );
    assert_eq!(data, "");
    assert_eq!(kuro::namespaces::mount::read_option("RO"), MountOption::Data);
}

#[test]
fn overlay_layout_and_options() {
    let l = MountMgr::overlay_layout("/bundle", "c1", Some("rootfs"));
    assert_eq!(l.lower, "/bundle/rootfs");
    assert_eq!(l.upper, "/bundle/c1/upper");
    assert_eq!(l.work, "/bundle/c1/work");
    assert_eq!(l.merged, "/bundle/c1/merged");
    assert_eq!(
        MountMgr::overlay_options(&l),
        "lowerdir=/bundle/rootfs,upperdir=/bundle/c1/upper,workdir=/bundle/c1/work"
    );
    assert_eq!(MountMgr::overlay_layout("/bundle", "c1", None).lower, "/bundle/rootfs");
    assert_eq!(MountMgr::overlay_layout("/bundle", "c1", Some("/abs")).lower, "/abs");
    assert_eq!(MountMgr::old_root_dir("/m"), "/m/old_root");
}

#[test]
fn masking() {
    assert_eq!(MountMgr::mask_action(false, true), MaskAction::Skip);
    assert_eq!(MountMgr::mask_action(true, true), MaskAction::EmptyTmpfs);
    assert_eq!(MountMgr::mask_action(true, false), MaskAction::BindDevNull);
}
