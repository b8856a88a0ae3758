use kuro::container::cleanup::{ContainerCleanup, KillDecision};
use kuro::container::state::RuntimeEnv;

fn env() -> RuntimeEnv {
    RuntimeEnv { euid: 0, runtime_dir: None }
}

#[test]
fn cleanup_paths() {
    let c = ContainerCleanup::new("alp-test", Some(9968), &env());
    assert_eq!(c.container_id, "alp-test");
    assert_eq!(c.pid, Some(9968));
    assert_eq!(c.cgroup_path, "/sys/fs/cgroup/kuro/alp-test");
    assert_eq!(c.state_dir, "/run/kuro/alp-test");
}

#[test]
fn cleanup_never_kills_init_or_itself() {
    let me = 500;
    assert_eq!(ContainerCleanup::new("c", Some(9968), &env()).kill_decision(me), KillDecision::Kill(9968));
    assert_eq!(ContainerCleanup::new("c", Some(1), &env()).kill_decision(me), KillDecision::Skip(1));
    assert_eq!(ContainerCleanup::new("c", Some(0), &env()).kill_decision(me), KillDecision::Skip(0));
    assert_eq!(ContainerCleanup::new("c", Some(-1), &env()).kill_decision(me), KillDecision::Skip(-1));
    assert_eq!(ContainerCleanup::new("c", Some(me), &env()).kill_decision(me), KillDecision::Skip(me));
    assert_eq!(ContainerCleanup::new("c", None, &env()).kill_decision(me), KillDecision::NoProcess);
}
