use kuro::config::spec::{HookConfig, HooksConfig, NamespaceConfig, NamespaceKind, ProcessConfig, UserConfig};
use kuro::container::builder::{CBuilder, CloneFlag, CloneFlagSet, HookStage, NsStep};
use kuro::error::KuroError;

fn ns(kind: NamespaceKind, path: Option<&str>) -> NamespaceConfig {
    NamespaceConfig { kind, path: path.map(|p| p.to_string()) }
}

fn process(args: Option<Vec<&str>>, env: Option<Vec<&str>>) -> ProcessConfig {
    ProcessConfig {
        terminal: None,
        args: args.map(|v| v.into_iter().map(String::from).collect()),
        env: env.map(|v| v.into_iter().map(String::from).collect()),
        rlimits: None,
        no_new_privileges: None,
        capabilities: None,
        user: UserConfig { uid: 0, gid: 0, additional_gids: None },
    }
}

#[test]
fn clone_flags_cover_namespaces_without_paths() {
    let nss = vec![
        ns(NamespaceKind::Pid, None),
        ns(NamespaceKind::Network, Some("/proc/1/ns/net")),
        ns(NamespaceKind::Mount, None),
        ns(NamespaceKind::Time, None),
        ns(NamespaceKind::User, None),
    ];
    let flags = CBuilder::get_clone_flags(&Some(nss));
    assert_eq!(
        flags,
        CloneFlagSet { pid: true, net: false, ipc: false, uts: false, ns: true, cgroup: false, user: true }
    );
    let none = CBuilder::get_clone_flags(&None);
    assert_eq!(none, CloneFlagSet { pid: false, net: false, ipc: false, uts: false, ns: false, cgroup: false, user: false });
    assert_eq!(CBuilder::get_clone_flag(NamespaceKind::Time), None);
    assert_eq!(CBuilder::get_clone_flag(NamespaceKind::Mount), Some(CloneFlag::NewNs));
}

#[test]
fn namespace_steps() {
    assert!(matches!(CBuilder::setup_ns(NamespaceKind::User, &Some("/x".into())), Ok(NsStep::Skip)));
    match CBuilder::setup_ns(NamespaceKind::Pid, &Some("/proc/1/ns/pid".into())) {
        Ok(NsStep::Join { path }) => assert_eq!(path, "/proc/1/ns/pid"),
        other => panic!("unexpected {:?}", other),
    }
    assert!(matches!(CBuilder::setup_ns(NamespaceKind::Network, &None), Ok(NsStep::SetupNetwork)));
    assert!(matches!(CBuilder::setup_ns(NamespaceKind::Ipc, &None), Ok(NsStep::Nothing)));
    assert_eq!(
        CBuilder::setup_ns(NamespaceKind::Time, &None).unwrap_err(),
        KuroError::Namespace("Unsupported namespace type".to_string())
    );
    assert_eq!(
        CBuilder::join_flag(NamespaceKind::Time),
        Err(KuroError::Namespace("Unsupported namespace type: time".to_string()))
    );
    assert_eq!(CBuilder::join_flag(NamespaceKind::Network), Ok(CloneFlag::NewNet));
}

#[test]
fn hook_stages() {
    let hooks = Some(HooksConfig {
        prestart: None,
        create_runtime: None,
        create_container: None,
        start_container: None,
        poststart: Some(vec![]),
        poststop: None,
    });
    assert_eq!(CBuilder::hook_stage(&hooks, "poststart"), Ok(Some(HookStage::Poststart)));
    assert_eq!(CBuilder::hook_stage(&hooks, "createRuntime"), Ok(Some(HookStage::CreateRuntime)));
    assert_eq!(
        CBuilder::hook_stage(&hooks, "bogus"),
        Err(KuroError::Hook("Unknown hook type: bogus".to_string()))
    );
    assert_eq!(CBuilder::hook_stage(&None, "bogus"), Ok(None));
    assert!(CBuilder::stage_hooks(hooks.as_ref().unwrap(), HookStage::Poststart).is_some());
    assert!(CBuilder::stage_hooks(hooks.as_ref().unwrap(), HookStage::Prestart).is_none());
}

#[test]
fn hook_command_skips_argv0_and_splits_env() {
    let h = HookConfig {
        path: "/usr/bin/hook".to_string(),
        args: Some(vec!["hook".into(), "--flag".into(), "x".into()]),
        env: Some(vec!["A=1".into(), "junk".into()]),
    };
    let c = CBuilder::hook_command(&h);
    assert_eq!(c.program, "/usr/bin/hook");
    assert_eq!(c.args, vec!["--flag", "x"]);
    assert_eq!(c.env, vec![("A".to_string(), "1".to_string())]);
    let h = HookConfig { path: "/h".into(), args: Some(vec!["only".into()]), env: None };
    let c = CBuilder::hook_command(&h);
    assert!(c.args.is_empty());
    assert!(c.env.is_empty());
}

#[test]
fn exec_plan_checks_process() {
    assert_eq!(
        CBuilder::exec_plan(&None).unwrap_err(),
        KuroError::InvalidSpec("Missing 'process' field in spec".to_string())
    );
    assert_eq!(
        CBuilder::exec_plan(&Some(process(None, None))).unwrap_err(),
        KuroError::InvalidSpec("Missing 'process.args' field in spec".to_string())
    );
    assert_eq!(
        CBuilder::exec_plan(&Some(process(Some(vec![]), None))).unwrap_err(),
        KuroError::InvalidSpec("process.args cannot be empty".to_string())
    );
    let plan = CBuilder::exec_plan(&Some(process(Some(vec!["/bin/sh", "-c", "ls"]), Some(vec!["PATH=/bin"])))).unwrap();
    assert_eq!(plan.program, "/bin/sh");
    assert_eq!(plan.argv, vec!["/bin/sh", "-c", "ls"]);
    assert_eq!(plan.envp, vec!["PATH=/bin"]);
    let plan = CBuilder::exec_plan(&Some(process(Some(vec!["/bin/true"]), None))).unwrap();
    assert!(plan.envp.is_empty());
}

#[test]
fn builder_records_pid() {
    let mut b = CBuilder::new("c".into(), "/b".into());
    assert_eq!(b.pid, None);
    b.record_pid(42);
    assert_eq!(b.pid, Some(42));
}
