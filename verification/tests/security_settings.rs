use kuro::config::spec::{CapabilityConfig, SeccompActionKind};
use kuro::error::KuroError;
use kuro::namespaces::security::{RlimitResource, SeccompAction, SecMgr};

fn names(v: &[&str]) -> Option<Vec<String>> {
    Some(v.iter().map(|s| s.to_string()).collect())
}

#[test]
fn env_entries_split_at_first_equals() {
    let vars: Vec<String> = vec!["PATH=/usr/bin:/bin".into(), "NOEQ".into(), "A=b=c".into(), "=x".into()];
    let pairs = SecMgr::env_vars(&vars);
    assert_eq!(
        pairs,
        vec![
            ("PATH".to_string(), "/usr/bin:/bin".to_string()),
            ("A".to_string(), "b=c".to_string()),
            ("".to_string(), "x".to_string())
        ]
    );
    assert_eq!(SecMgr::split_env("K="), Some(("K".to_string(), "".to_string())));
}

#[test]
fn rlimit_names() {
    assert_eq!(SecMgr::rlimit_resource("RLIMIT_NOFILE"), Some(RlimitResource::Nofile));
    assert_eq!(SecMgr::rlimit_resource("RLIMIT_SIGPENDING"), Some(RlimitResource::Sigpending));
    assert_eq!(SecMgr::rlimit_resource("RLIMIT_CPU"), Some(RlimitResource::Cpu));
    assert_eq!(SecMgr::rlimit_resource("rlimit_cpu"), None);
}

#[test]
fn capability_names_are_read_with_or_without_cap_prefix() {
    assert_eq!(SecMgr::capability_index("CAP_KILL"), Some(5));
    assert_eq!(SecMgr::capability_index("KILL"), Some(5));
    assert_eq!(SecMgr::capability_index("CAP_CAP_KILL"), None);
    assert_eq!(SecMgr::capability_index("cap_kill"), None);
    assert_eq!(SecMgr::capability_index(""), None);
    let plan = SecMgr::capability_plan(&CapabilityConfig {
        bounding: names(&["CAP_CHOWN", "AUDIT_WRITE", "NOT_A_CAP"]),
        effective: None,
        inheritable: names(&[]),
        permitted: names(&["SYS_ADMIN"]),
        ambient: names(&["NET_BIND_SERVICE"]),
    });
    assert_eq!(plan.bounding, vec![0, 29]);
    assert_eq!(plan.permitted, vec![21]);
    assert!(plan.effective.is_empty());
    assert!(plan.inheritable.is_empty());
    assert_eq!(plan.ambient, Some(vec![10]));
}

#[test]
fn ambient_set_is_left_alone_when_nothing_is_read() {
    let plan = SecMgr::capability_plan(&CapabilityConfig {
        bounding: None,
        effective: names(&["CAP_KILL"]),
        inheritable: None,
        permitted: None,
        ambient: names(&["CAP_NO_SUCH"]),
    });
    assert_eq!(plan.effective, vec![5]);
    assert_eq!(plan.ambient, None);
}

#[test]
fn bounding_drops_everything_outside_the_target() {
    let drops = SecMgr::bounding_drops(&vec![0, 5, 29]);
    assert_eq!(drops.len(), 38);
    assert!(!drops.contains(&0));
    assert!(!drops.contains(&5));
    assert!(!drops.contains(&29));
    for k in 0u8..=40 {
        if k != 0 && k != 5 && k != 29 {
            assert_eq!(drops.iter().filter(|d| **d == k).count(), 1);
        }
    }
    assert!(drops.iter().all(|d| *d <= 40));
}

#[test]
fn bounding_drops_all_or_nothing() {
    let all: Vec<u8> = (0u8..=40).collect();
    assert!(SecMgr::bounding_drops(&all).is_empty());
    let mut every = SecMgr::bounding_drops(&vec![]);
    every.sort();
    assert_eq!(every, all);
    assert_eq!(SecMgr::bounding_drops(&vec![200]).len(), 41);
}

#[test]
fn seccomp_actions() {
    assert_eq!(SecMgr::map_seccomp(SeccompActionKind::Allow), Ok(SeccompAction::Allow));
    assert_eq!(SecMgr::map_seccomp(SeccompActionKind::Log), Ok(SeccompAction::Allow));
    assert_eq!(SecMgr::map_seccomp(SeccompActionKind::Errno), Ok(SeccompAction::Errno(1)));
    assert_eq!(SecMgr::map_seccomp(SeccompActionKind::Kill), Ok(SeccompAction::KillThread));
    assert_eq!(SecMgr::map_seccomp(SeccompActionKind::KillProcess), Ok(SeccompAction::KillProcess));
    assert_eq!(SecMgr::map_seccomp(SeccompActionKind::Trap), Ok(SeccompAction::Trap));
    assert_eq!(
        SecMgr::map_seccomp(SeccompActionKind::Notify),
        Err(KuroError::Seccomp("Unsupported seccomp action: ScmpActNotify".to_string()))
    );
    assert_eq!(
        SecMgr::map_seccomp(SeccompActionKind::KillThread),
        Err(KuroError::Seccomp("Unsupported seccomp action: ScmpActKillThread".to_string()))
    );
}


#[test]
fn capability_sets_hold_each_capability_once() {
    let set = SecMgr::capability_set(&names(&["KILL", "CAP_KILL", "CHOWN", "KILL", "BOGUS"]));
    assert_eq!(set, vec![5, 0]);
    let plan = SecMgr::capability_plan(&CapabilityConfig {
        bounding: names(&["CAP_CHOWN", "CHOWN"]),
        effective: None,
        inheritable: None,
        permitted: None,
        ambient: names(&["NET_BIND_SERVICE", "CAP_NET_BIND_SERVICE"]),
    });
    assert_eq!(plan.bounding, vec![0]);
    assert_eq!(plan.ambient, Some(vec![10]));
}
