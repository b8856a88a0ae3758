use kuro::cli::commands::Commands;
use kuro::cli::handle::{
    check_bundle_dir, check_deletable, check_rootfs, ensure_not_existing, rootfs_path,
    state_not_found,
};
use kuro::container::state::{ContainerState, ContainerStatus};
use kuro::error::KuroError;

fn state(status: ContainerStatus, pid: i32) -> ContainerState {
    let mut s = ContainerState::initial("1".to_string(), "c".to_string(), "/b".to_string(), vec![]);
    s.status = status;
    s.pid = pid;
    s
}

#[test]
fn create_refuses_existing_container() {
    assert_eq!(
        ensure_not_existing("c", true),
        Err(KuroError::ContainerAlreadyExists { id: "c".to_string() })
    );
    assert_eq!(ensure_not_existing("c", false), Ok(()));
}

#[test]
fn create_checks_the_bundle() {
    assert_eq!(
        check_bundle_dir("./alpinefs", false),
        Err(KuroError::InvalidArgs(
            "bundle_path './alpinefs' does not exist or is not a directory".to_string()
        ))
    );
    assert_eq!(check_bundle_dir("./alpinefs", true), Ok(()));
    assert_eq!(rootfs_path("/b", Some("rootfs")), Ok("/b/rootfs".to_string()));
    assert_eq!(
        rootfs_path("/b", None),
        Err(KuroError::InvalidBundle {
            path: "/b".to_string(),
            reason: "config.json is missing the 'root' section".to_string()
        })
    );
    assert_eq!(
        check_rootfs("rootfs", false),
        Err(KuroError::InvalidArgs(
            "bundle_path does not contain rootfs directory at 'rootfs'".to_string()
        ))
    );
}

#[test]
fn delete_needs_a_state_and_force_for_running() {
    assert_eq!(
        check_deletable(None, "c", true),
        Err(KuroError::ContainerNotFound { id: "c".to_string() })
    );
    assert_eq!(
        check_deletable(Some(&state(ContainerStatus::Running, 7)), "c", false),
        Err(KuroError::InvalidArgs(
            "Container c is currently running; use '--force' to kill a running container".to_string()
        ))
    );
    assert_eq!(check_deletable(Some(&state(ContainerStatus::Running, 7)), "c", true), Ok(7));
    assert_eq!(check_deletable(Some(&state(ContainerStatus::Stopped, 7)), "c", false), Ok(7));
}

#[test]
fn missing_state_error_names_the_id() {
    assert_eq!(state_not_found("x"), KuroError::ContainerStateNotFound { id: "x".to_string() });
}

#[test]
fn every_command_names_its_container() {
    let cmds = vec![
        Commands::Create { bundle: "/b".into(), pid_file: None, console_socket: None, container_id: "a".into() },
        Commands::Start { container_id: "b".into() },
        Commands::State { container_id: "c".into() },
        Commands::Kill { container_id: "d".into(), signal: "9".into() },
        Commands::Delete { force: false, container_id: "e".into() },
    ];
    let ids: Vec<&String> = cmds.iter().map(|c| c.container_id()).collect();
    assert_eq!(ids, vec!["a", "b", "c", "d", "e"]);
}
