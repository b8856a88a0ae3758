use kuro::container::state::{ContainerState, ContainerStatus, RuntimeEnv};
use kuro::error::KuroError;

fn root_env() -> RuntimeEnv {
    RuntimeEnv { euid: 0, runtime_dir: None }
}

fn state(status: ContainerStatus, pid: i32) -> ContainerState {
    let mut s = ContainerState::initial(
        "1.3.0".to_string(),
        "alp-test".to_string(),
        "/home/a/alpinefs".to_string(),
        vec![],
    );
    s.status = status;
    s.pid = pid;
    s
}

#[test]
fn state_dir_for_root_is_under_run_kuro() {
    assert_eq!(ContainerState::get_state_dir("alp-test", &root_env()), "/run/kuro/alp-test");
    assert_eq!(
        ContainerState::get_state_file("alp-test", &root_env()),
        "/run/kuro/alp-test/state.json"
    );
}

#[test]
fn state_dir_for_users_follows_runtime_dir() {
    let env = RuntimeEnv { euid: 1000, runtime_dir: Some("/run/user/1000".to_string()) };
    assert_eq!(ContainerState::get_state_dir("c1", &env), "/run/user/1000/kuro/c1");
    let env = RuntimeEnv { euid: 1000, runtime_dir: Some("/tmp/rt/".to_string()) };
    assert_eq!(ContainerState::get_state_dir("c1", &env), "/tmp/rt/kuro/c1");
    let env = RuntimeEnv { euid: 1234, runtime_dir: None };
    assert_eq!(ContainerState::get_state_dir("c1", &env), "/run/user/1234/kuro/c1");
}

#[test]
fn absolute_id_replaces_the_state_root() {
    assert_eq!(ContainerState::get_state_dir("/etc", &root_env()), "/etc");
}

#[test]
fn initial_state_is_creating_without_pid() {
    let s = state(ContainerStatus::Creating, -1);
    let fresh = ContainerState::initial("v".to_string(), "i".to_string(), "b".to_string(), vec![]);
    assert_eq!(fresh.status, ContainerStatus::Creating);
    assert_eq!(fresh.pid, -1);
    assert_eq!(s.id, "alp-test");
}

#[test]
fn dead_process_makes_container_stopped() {
    let mut s = state(ContainerStatus::Running, 4242);
    assert!(s.needs_liveness_probe());
    assert!(s.record_liveness(false));
    assert_eq!(s.status, ContainerStatus::Stopped);
    assert!(s.check_killable("alp-test").is_err());
}

#[test]
fn live_or_unclaimed_process_keeps_status() {
    let mut s = state(ContainerStatus::Created, 4242);
    assert!(!s.record_liveness(true));
    assert_eq!(s.status, ContainerStatus::Created);
    let mut s = state(ContainerStatus::Running, -1);
    assert!(!s.needs_liveness_probe());
    assert!(!s.record_liveness(false));
    assert_eq!(s.status, ContainerStatus::Running);
    let mut s = state(ContainerStatus::Creating, 10);
    assert!(!s.record_liveness(false));
    assert_eq!(s.status, ContainerStatus::Creating);
}

#[test]
fn start_requires_created_with_pid() {
    assert_eq!(state(ContainerStatus::Created, 100).check_startable("alp-test"), Ok(()));
    assert_eq!(
        state(ContainerStatus::Running, 100).check_startable("alp-test"),
        Err(KuroError::Start("Container 'alp-test' is in Running state, expected Created".to_string()))
    );
    assert_eq!(
        state(ContainerStatus::Created, 1).check_startable("alp-test"),
        Err(KuroError::Start(
            "Container 'alp-test' has not been created properly, and has no PID (check by running 'kuro state')"
                .to_string()
        ))
    );
}

#[test]
fn started_container_cannot_start_again() {
    let mut s = state(ContainerStatus::Created, 100);
    assert!(s.check_startable("alp-test").is_ok());
    s.set_status(ContainerStatus::Running);
    assert!(s.check_startable("alp-test").is_err());
}

#[test]
fn kill_refuses_stopped_container() {
    assert_eq!(
        state(ContainerStatus::Stopped, 5).check_killable("c"),
        Err(KuroError::InvalidArgs("Container 'c' is already stopped".to_string()))
    );
    assert_eq!(state(ContainerStatus::Running, 5).check_killable("c"), Ok(()));
}

#[test]
fn kill_refuses_containers_without_own_process() {
    for pid in [-1, 0, 1] {
        for status in [ContainerStatus::Creating, ContainerStatus::Created, ContainerStatus::Running] {
            assert_eq!(
                state(status, pid).check_killable("c"),
                Err(KuroError::InvalidArgs("Container 'c' has no process to signal".to_string()))
            );
        }
    }
    assert_eq!(
        state(ContainerStatus::Stopped, -1).check_killable("c"),
        Err(KuroError::InvalidArgs("Container 'c' is already stopped".to_string()))
    );
    assert_eq!(state(ContainerStatus::Created, 2).check_killable("c"), Ok(()));
    let fresh = ContainerState::initial("1.3.0".to_string(), "c".to_string(), "/b".to_string(), vec![]);
    assert!(fresh.check_killable("c").is_err());
}

#[test]
fn status_names_are_debug_names() {
    for s in [ContainerStatus::Creating, ContainerStatus::Created, ContainerStatus::Running, ContainerStatus::Stopped] {
        assert_eq!(s.name(), format!("{:?}", s));
    }
}
