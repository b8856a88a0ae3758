use kuro::config::spec::HooksConfig;
use kuro::container::builder::{CBuilder, ChildStep, CreateAction, CreatePhase, HookStage};
use kuro::container::state::{ContainerState, ContainerStatus};
use kuro::error::KuroError;
use kuro::sync::pipe::SyncResult;

#[test]
fn first_ready_runs_runtime_hooks_and_releases_child() {
    let (next, actions) = CBuilder::create_next(CreatePhase::AwaitSetup { pid: 4242 }, SyncResult::Ready);
    assert_eq!(next, CreatePhase::AwaitInit { pid: 4242 });
    assert_eq!(actions.len(), 3);
    assert!(matches!(actions[0], CreateAction::RunHooks(HookStage::Prestart)));
    assert!(matches!(actions[1], CreateAction::RunHooks(HookStage::CreateRuntime)));
    assert!(matches!(actions[2], CreateAction::SendReady));
}

#[test]
fn second_ready_records_created_with_pid() {
    let (next, actions) = CBuilder::create_next(CreatePhase::AwaitInit { pid: 4242 }, SyncResult::Ready);
    assert_eq!(next, CreatePhase::Done);
    assert_eq!(actions.len(), 2);
    assert!(matches!(actions[0], CreateAction::Save { status: ContainerStatus::Created, pid: 4242 }));
    assert!(matches!(actions[1], CreateAction::Finish(4242)));
}

#[test]
fn child_error_fails_create() {
    for phase in [CreatePhase::AwaitSetup { pid: 7 }, CreatePhase::AwaitInit { pid: 7 }] {
        let (next, actions) = CBuilder::create_next(phase, SyncResult::Error("mount failed".to_string()));
        assert_eq!(next, CreatePhase::Done);
        assert_eq!(actions.len(), 1);
        match &actions[0] {
            CreateAction::Fail(e) => assert_eq!(
                *e,
                KuroError::ExecFailed("Child initialization failed: mount failed".to_string())
            ),
            _ => panic!("expected a failure"),
        }
    }
}

#[test]
fn closed_pipe_fails_create() {
    let (next, actions) = CBuilder::create_next(CreatePhase::AwaitSetup { pid: 9 }, SyncResult::Eof);
    assert_eq!(next, CreatePhase::Done);
    assert_eq!(actions.len(), 1);
    match &actions[0] {
        CreateAction::Fail(e) => assert_eq!(
            *e,
            KuroError::ExecFailed("Child initialization failed: the child closed the sync pipe".to_string())
        ),
        _ => panic!("expected a failure"),
    }
}

#[test]
fn done_phase_does_nothing_more() {
    let (next, actions) = CBuilder::create_next(CreatePhase::Done, SyncResult::Ready);
    assert_eq!(next, CreatePhase::Done);
    assert!(actions.is_empty());
}

#[test]
fn full_run_saves_exactly_once() {
    let mut phase = CreatePhase::AwaitSetup { pid: 311 };
    let mut saves = 0;
    let mut finished = None;
    for _ in 0..4 {
        let (next, actions) = CBuilder::create_next(phase, SyncResult::Ready);
        for a in &actions {
            match a {
                CreateAction::Save { status, pid } => {
                    assert_eq!(*status, ContainerStatus::Created);
                    assert_eq!(*pid, 311);
                    saves += 1;
                }
                CreateAction::Finish(p) => finished = Some(*p),
                _ => {}
            }
        }
        phase = next;
    }
    assert_eq!(saves, 1);
    assert_eq!(finished, Some(311));
}

#[test]
fn child_sets_up_terminal_only_after_ready_and_start() {
    let plan = CBuilder::child_init_plan();
    assert_eq!(plan.len(), 15);
    assert_eq!(plan[0], ChildStep::WaitForParent);
    assert_eq!(plan[14], ChildStep::Exec);
    let terminal = plan.iter().position(|s| *s == ChildStep::SetupTerminal).unwrap();
    let last_ready = plan.iter().rposition(|s| *s == ChildStep::SignalReady).unwrap();
    let start = plan.iter().position(|s| *s == ChildStep::WaitForStart).unwrap();
    assert!(last_ready < start && start < terminal);
    assert_eq!(plan[9], ChildStep::RunHooks(HookStage::CreateContainer));
    assert_eq!(plan[13], ChildStep::RunHooks(HookStage::StartContainer));
}

#[test]
fn stage_names_read_back() {
    let hooks = Some(HooksConfig {
        prestart: None,
        create_runtime: None,
        create_container: None,
        start_container: None,
        poststart: None,
        poststop: None,
    });
    for stage in [
        HookStage::Prestart,
        HookStage::CreateRuntime,
        HookStage::CreateContainer,
        HookStage::StartContainer,
        HookStage::Poststart,
        HookStage::Poststop,
    ] {
        let name = CBuilder::stage_name(stage);
        assert_eq!(CBuilder::hook_stage(&hooks, &name), Ok(Some(stage)));
    }
    assert_eq!(CBuilder::stage_name(HookStage::CreateRuntime), "createRuntime");
}

#[test]
fn record_process_keeps_identity() {
    let mut s = ContainerState::initial("1.3.0".to_string(), "c1".to_string(), "/b".to_string(), vec![]);
    s.record_process(ContainerStatus::Created, 1234);
    assert_eq!(s.status, ContainerStatus::Created);
    assert_eq!(s.pid, 1234);
    assert_eq!(s.id, "c1");
    assert_eq!(s.bundle, "/b");
}
