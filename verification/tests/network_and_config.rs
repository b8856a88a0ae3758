use kuro::config::spec::{check_config_file, config_file, wants_terminal, ContainerConfig, ProcessConfig, UserConfig};
use kuro::error::KuroError;
use kuro::namespaces::netns::NetMgr;

#[test]
fn loopback_command_and_result() {
    assert_eq!(NetMgr::loopback_command(), vec!["ip", "link", "set", "dev", "lo", "up"]);
    assert_eq!(NetMgr::setup_network(Ok(true)), Ok(()));
    assert_eq!(
        NetMgr::setup_network(Ok(false)),
        Err(KuroError::Netns("Failed to bring up loopback device".to_string()))
    );
    assert_eq!(
        NetMgr::setup_network(Err("No such file or directory (os error 2)".to_string())),
        Err(KuroError::Io("No such file or directory (os error 2)".to_string()))
    );
}

#[test]
fn config_file_of_bundle() {
    assert_eq!(config_file("/b"), "/b/config.json");
    assert_eq!(check_config_file("/b/config.json", true), Ok(()));
    assert_eq!(
        check_config_file("/b/config.json", false),
        Err(KuroError::InvalidBundle {
            path: "/b/config.json".to_string(),
            reason: "Missing config.json in bundle directory".to_string()
        })
    );
}

#[test]
fn terminal_defaults_to_false() {
    let mut c = ContainerConfig {
        version: "1.0.2".into(),
        root_path: None,
        hostname: None,
        annotations: vec![],
        process: None,
        hooks: None,
        linux: None,
        mounts: None,
    };
    assert!(!wants_terminal(&c));
    c.process = Some(ProcessConfig {
        terminal: Some(true),
        args: None,
        env: None,
        rlimits: None,
        no_new_privileges: None,
        capabilities: None,
        user: UserConfig { uid: 0, gid: 0, additional_gids: None },
    });
    assert!(wants_terminal(&c));
}
