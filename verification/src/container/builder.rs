//! The decisions of building a container: which namespaces to create or
//! join, which hooks to run, and what to execute.
use vstd::prelude::*;

use crate::config::spec::{HookConfig, HooksConfig, NamespaceConfig, NamespaceKind, ProcessConfig};
use crate::container::state::ContainerStatus;
use crate::error::{ErrorView, KuroError};
use crate::namespaces::security::{env_pairs, pairs_view, SecMgr};
use crate::sync::pipe::SyncResult;
use crate::text::{concat2, concat3, texts_view};

verus! {

/// The builder of one container.
#[derive(Debug, Clone)]
pub struct CBuilder {
    pub container_id: String,
    pub bundle_path: String,
    pub pid: Option<i32>,
}

/// The namespace flags of `clone(2)` and `setns(2)`.
#[derive(Debug, Clone, Copy, PartialEq, Eq, Structural)]
pub enum CloneFlag {
    NewPid,
    NewNet,
    NewIpc,
    NewUts,
    NewNs,
    NewCgroup,
    NewUser,
}

/// A set of clone flags.
#[derive(Debug, Clone, Copy, PartialEq, Eq, Structural)]
pub struct CloneFlagSet {
    pub pid: bool,
    pub net: bool,
    pub ipc: bool,
    pub uts: bool,
    pub ns: bool,
    pub cgroup: bool,
    pub user: bool,
}

impl CloneFlagSet {
    /// Whether `f` is in the set.
    pub open spec fn has(self, f: CloneFlag) -> bool {
        match f {
            CloneFlag::NewPid => self.pid,
            CloneFlag::NewNet => self.net,
            CloneFlag::NewIpc => self.ipc,
            CloneFlag::NewUts => self.uts,
            CloneFlag::NewNs => self.ns,
            CloneFlag::NewCgroup => self.cgroup,
            CloneFlag::NewUser => self.user,
        }
    }
}

/// The clone flag of a namespace kind; time namespaces have none.
pub open spec fn clone_flag_of(kind: NamespaceKind) -> Option<CloneFlag> {
    match kind {
        NamespaceKind::Pid => Some(CloneFlag::NewPid),
        NamespaceKind::Network => Some(CloneFlag::NewNet),
        NamespaceKind::Ipc => Some(CloneFlag::NewIpc),
        NamespaceKind::Uts => Some(CloneFlag::NewUts),
        NamespaceKind::Mount => Some(CloneFlag::NewNs),
        NamespaceKind::Cgroup => Some(CloneFlag::NewCgroup),
        NamespaceKind::User => Some(CloneFlag::NewUser),
        NamespaceKind::Time => None,
    }
}

/// Whether some namespace without a path asks for flag `f`.
pub open spec fn flag_requested(nss: Seq<NamespaceConfig>, f: CloneFlag) -> bool {
    exists|i: int|
        0 <= i < nss.len() && (#[trigger] nss[i]).path is None && clone_flag_of(nss[i].kind)
            == Some(f)
}

/// Whether some namespace of `kind` is configured without a path to join.
pub open spec fn kind_requested(nss: Seq<NamespaceConfig>, kind: NamespaceKind) -> bool {
    exists|i: int| 0 <= i < nss.len() && (#[trigger] nss[i]).path is None && nss[i].kind == kind
}

/// Each namespace kind but time has the clone flag of that same kind, and
/// no two kinds share a flag.
pub proof fn law_clone_flag_matches_kind(a: NamespaceKind, b: NamespaceKind)
    ensures
        clone_flag_of(NamespaceKind::Pid) == Some(CloneFlag::NewPid),
        clone_flag_of(NamespaceKind::Network) == Some(CloneFlag::NewNet),
        clone_flag_of(NamespaceKind::Ipc) == Some(CloneFlag::NewIpc),
        clone_flag_of(NamespaceKind::Uts) == Some(CloneFlag::NewUts),
        clone_flag_of(NamespaceKind::Mount) == Some(CloneFlag::NewNs),
        clone_flag_of(NamespaceKind::Cgroup) == Some(CloneFlag::NewCgroup),
        clone_flag_of(NamespaceKind::User) == Some(CloneFlag::NewUser),
        clone_flag_of(NamespaceKind::Time) is None,
        (clone_flag_of(a) is Some && clone_flag_of(a) == clone_flag_of(b)) ==> a == b,
{
}

/// A clone flag is asked for exactly when a namespace of its own kind is
/// configured without a path: a `uts` namespace to create puts `NEWUTS` in
/// the set, and so on for each kind; a time namespace asks for none.
pub proof fn law_flags_follow_kinds(nss: Seq<NamespaceConfig>)
    ensures
        flag_requested(nss, CloneFlag::NewPid) == kind_requested(nss, NamespaceKind::Pid),
        flag_requested(nss, CloneFlag::NewNet) == kind_requested(nss, NamespaceKind::Network),
        flag_requested(nss, CloneFlag::NewIpc) == kind_requested(nss, NamespaceKind::Ipc),
        flag_requested(nss, CloneFlag::NewUts) == kind_requested(nss, NamespaceKind::Uts),
        flag_requested(nss, CloneFlag::NewNs) == kind_requested(nss, NamespaceKind::Mount),
        flag_requested(nss, CloneFlag::NewCgroup) == kind_requested(nss, NamespaceKind::Cgroup),
        flag_requested(nss, CloneFlag::NewUser) == kind_requested(nss, NamespaceKind::User),
{
    assert forall|f: CloneFlag, k: NamespaceKind|
        clone_flag_of(k) == Some(f) implies (match f {
            CloneFlag::NewPid => k == NamespaceKind::Pid,
            CloneFlag::NewNet => k == NamespaceKind::Network,
            CloneFlag::NewIpc => k == NamespaceKind::Ipc,
            CloneFlag::NewUts => k == NamespaceKind::Uts,
            CloneFlag::NewNs => k == NamespaceKind::Mount,
            CloneFlag::NewCgroup => k == NamespaceKind::Cgroup,
            CloneFlag::NewUser => k == NamespaceKind::User,
        }) by {}
}

/// How a namespace kind is named in messages.
pub open spec fn namespace_name(kind: NamespaceKind) -> Seq<char> {
    match kind {
        NamespaceKind::Mount => "mnt"@,
        NamespaceKind::Cgroup => "cgroup"@,
        NamespaceKind::Uts => "uts"@,
        NamespaceKind::Ipc => "ipc"@,
        NamespaceKind::User => "user"@,
        NamespaceKind::Pid => "pid"@,
        NamespaceKind::Network => "net"@,
        NamespaceKind::Time => "time"@,
    }
}

/// What the container's first process does for one configured namespace.
#[derive(Debug, Clone)]
pub enum NsStep {
    /// Nothing: user namespaces are mapped by the runtime beforehand.
    Skip,
    /// Join the namespace at `path`.
    Join { path: String },
    /// The namespace was created by `clone`; bring up its loopback device.
    SetupNetwork,
    /// The namespace was created by `clone`; nothing more to do.
    Nothing,
}

/// The lifecycle stages that have hooks.
#[derive(Debug, Clone, Copy, PartialEq, Eq, Structural)]
pub enum HookStage {
    Prestart,
    CreateRuntime,
    CreateContainer,
    StartContainer,
    Poststart,
    Poststop,
}

/// The stage a hook name denotes.
pub open spec fn stage_of(name: Seq<char>) -> Option<HookStage> {
    if name == "prestart"@ {
        Some(HookStage::Prestart)
    } else if name == "createRuntime"@ {
        Some(HookStage::CreateRuntime)
    } else if name == "createContainer"@ {
        Some(HookStage::CreateContainer)
    } else if name == "startContainer"@ {
        Some(HookStage::StartContainer)
    } else if name == "poststart"@ {
        Some(HookStage::Poststart)
    } else if name == "poststop"@ {
        Some(HookStage::Poststop)
    } else {
        None
    }
}

/// The hooks configured for a stage.
pub open spec fn stage_hooks(h: HooksConfig, st: HookStage) -> Option<Vec<HookConfig>> {
    match st {
        HookStage::Prestart => h.prestart,
        HookStage::CreateRuntime => h.create_runtime,
        HookStage::CreateContainer => h.create_container,
        HookStage::StartContainer => h.start_container,
        HookStage::Poststart => h.poststart,
        HookStage::Poststop => h.poststop,
    }
}

/// How a hook is run: its program, the arguments after the first (the
/// first names the program) and its environment.
#[derive(Debug, Clone)]
pub struct HookCommand {
    pub program: String,
    pub args: Vec<String>,
    pub env: Vec<(String, String)>,
}

/// What the container's first process finally executes.
#[derive(Debug, Clone)]
pub struct ExecPlan {
    pub program: String,
    pub argv: Vec<String>,
    pub envp: Vec<String>,
}

/// The arguments a hook is run with.
pub open spec fn hook_args(args: Option<Vec<String>>) -> Seq<Seq<char>> {
    match args {
        Some(a) => if a@.len() > 1 {
            texts_view(a@).skip(1)
        } else {
            seq![]
        },
        None => seq![],
    }
}

/// The environment a hook is run with.
pub open spec fn hook_env(env: Option<Vec<String>>) -> Seq<(Seq<char>, Seq<char>)> {
    match env {
        Some(e) => env_pairs(texts_view(e@)),
        None => seq![],
    }
}

/// What `exec_plan` decides for a process configuration: the error, or
/// the program, arguments and environment.
pub open spec fn exec_plan_of(process: Option<ProcessConfig>) -> Result<
    (Seq<char>, Seq<Seq<char>>, Seq<Seq<char>>),
    ErrorView,
> {
    match process {
        None => Err(ErrorView::InvalidSpec("Missing 'process' field in spec"@)),
        Some(p) => match p.args {
            None => Err(ErrorView::InvalidSpec("Missing 'process.args' field in spec"@)),
            Some(a) => if a@.len() == 0 {
                Err(ErrorView::InvalidSpec("process.args cannot be empty"@))
            } else {
                Ok(
                    (
                        a@[0]@,
                        texts_view(a@),
                        match p.env {
                            Some(e) => texts_view(e@),
                            None => seq![],
                        },
                    ),
                )
            },
        },
    }
}

/// Where the runtime stands while it waits on the container's first
/// process during `create`.
#[derive(Debug, Clone, Copy, PartialEq, Eq, Structural)]
pub enum CreatePhase {
    /// The host set up the child; waiting for the child's own setup.
    AwaitSetup { pid: i32 },
    /// The runtime hooks ran; waiting for the child to be paused.
    AwaitInit { pid: i32 },
    /// The protocol has ended.
    Done,
}

/// What the runtime does next during `create`.
#[derive(Debug, Clone)]
pub enum CreateAction {
    /// Run the hooks of a stage.
    RunHooks(HookStage),
    /// Tell the child to go on.
    SendReady,
    /// Save the container's state with this status and pid.
    Save { status: ContainerStatus, pid: i32 },
    /// Stop with this error.
    Fail(KuroError),
    /// The container is created, with this pid.
    Finish(i32),
}

/// The phase after a reply; any reply other than ready ends the protocol.
pub open spec fn next_phase(phase: CreatePhase, ready: bool) -> CreatePhase {
    if !ready {
        CreatePhase::Done
    } else {
        match phase {
            CreatePhase::AwaitSetup { pid } => CreatePhase::AwaitInit { pid },
            CreatePhase::AwaitInit { .. } => CreatePhase::Done,
            CreatePhase::Done => CreatePhase::Done,
        }
    }
}

/// Whether a reply makes the runtime record the container as created: a
/// ready reply while waiting for the child to be paused.
pub open spec fn records_created(phase: CreatePhase, ready: bool) -> bool {
    ready && phase is AwaitInit
}

/// Whether the container is recorded as created along a run of replies
/// (true for ready, false for an error or the end of the pipe).
pub open spec fn saves_created(phase: CreatePhase, readies: Seq<bool>) -> bool
    decreases readies.len(),
{
    if readies.len() == 0 {
        false
    } else {
        records_created(phase, readies[0]) || saves_created(
            next_phase(phase, readies[0]),
            readies.drop_first(),
        )
    }
}

pub open spec fn child_closed_msg() -> Seq<char> {
    "Child initialization failed: the child closed the sync pipe"@
}

/// One step of the container's first process, from its clone to `exec`.
#[derive(Debug, Clone, Copy, PartialEq, Eq, Structural)]
pub enum ChildStep {
    WaitForParent,
    OpenStartFifo,
    SetupNamespaces,
    SetHostname,
    SetupMounts,
    CreateDevices,
    ApplyDeviceRules,
    SignalReady,
    RunHooks(HookStage),
    WaitForStart,
    SetupTerminal,
    Exec,
}

/// The steps of the container's first process, in order. Its standard
/// streams are only taken over (the terminal is set up) once it has told
/// the runtime it is ready and has been released by `start`.
pub open spec fn child_plan() -> Seq<ChildStep> {
    seq![
        ChildStep::WaitForParent,
        ChildStep::OpenStartFifo,
        ChildStep::SetupNamespaces,
        ChildStep::SetHostname,
        ChildStep::SetupMounts,
        ChildStep::CreateDevices,
        ChildStep::ApplyDeviceRules,
        ChildStep::SignalReady,
        ChildStep::WaitForParent,
        ChildStep::RunHooks(HookStage::CreateContainer),
        ChildStep::SignalReady,
        ChildStep::WaitForStart,
        ChildStep::SetupTerminal,
        ChildStep::RunHooks(HookStage::StartContainer),
        ChildStep::Exec,
    ]
}

/// The hook name of a stage.
pub open spec fn stage_name(st: HookStage) -> Seq<char> {
    match st {
        HookStage::Prestart => "prestart"@,
        HookStage::CreateRuntime => "createRuntime"@,
        HookStage::CreateContainer => "createContainer"@,
        HookStage::StartContainer => "startContainer"@,
        HookStage::Poststart => "poststart"@,
        HookStage::Poststop => "poststop"@,
    }
}

/// A copy of a list of texts.
pub fn clone_texts(v: &Vec<String>) -> (r: Vec<String>)
    ensures
        texts_view(r@) == texts_view(v@),
{
    let mut out: Vec<String> = Vec::new();
    let mut i: usize = 0;
    while i < v.len()
        invariant
            i <= v@.len(),
            texts_view(out@) == texts_view(v@).take(i as int),
        decreases v@.len() - i,
    {
        let ghost before = texts_view(out@);
        out.push(v[i].clone());
        assert(texts_view(out@) =~= before.push(v@[i as int]@));
        assert(texts_view(v@).take(i + 1) =~= texts_view(v@).take(i as int).push(v@[i as int]@));
        i = i + 1;
    }
    assert(texts_view(v@).take(v@.len() as int) =~= texts_view(v@));
    out
}

impl CBuilder {
    /// The runtime's side of `create`, one reply of the child at a time: a
    /// first ready reply runs the `prestart` and `createRuntime` hooks and
    /// releases the child; a second records the container as `Created` with
    /// its pid and ends; an error or the end of the pipe fails.
    pub fn create_next(phase: CreatePhase, reply: SyncResult) -> (r: (CreatePhase, Vec<CreateAction>))
        ensures
            r.0 == next_phase(phase, reply is Ready),
            reply matches SyncResult::Error(m) ==> (r.1@.len() == 1 && (r.1@[0] matches CreateAction::Fail(e)
                && e@ == ErrorView::ExecFailed("Child initialization failed: "@ + m@))),
            reply is Eof ==> (r.1@.len() == 1 && (r.1@[0] matches CreateAction::Fail(e) && e@
                == ErrorView::ExecFailed(child_closed_msg()))),
            (phase is AwaitSetup && reply is Ready) ==> r.1@ == seq![
                CreateAction::RunHooks(HookStage::Prestart),
                CreateAction::RunHooks(HookStage::CreateRuntime),
                CreateAction::SendReady,
            ],
            (phase is AwaitInit && reply is Ready) ==> r.1@ == seq![
                CreateAction::Save { status: ContainerStatus::Created, pid: phase->AwaitInit_pid },
                CreateAction::Finish(phase->AwaitInit_pid),
            ],
            (phase is Done && reply is Ready) ==> r.1@.len() == 0,
            records_created(phase, reply is Ready) <==> exists|i: int|
                0 <= i < r.1@.len() && r.1@[i] is Save,
    {
        let mut actions: Vec<CreateAction> = Vec::new();
        match reply {
            SyncResult::Error(m) => {
                actions.push(
                    CreateAction::Fail(
                        KuroError::ExecFailed(concat2("Child initialization failed: ", m.as_str())),
                    ),
                );
                (CreatePhase::Done, actions)
            },
            SyncResult::Eof => {
                actions.push(
                    CreateAction::Fail(
                        KuroError::ExecFailed(
                            String::from_str(
                                "Child initialization failed: the child closed the sync pipe",
                            ),
                        ),
                    ),
                );
                (CreatePhase::Done, actions)
            },
            SyncResult::Ready => match phase {
                CreatePhase::AwaitSetup { pid } => {
                    actions.push(CreateAction::RunHooks(HookStage::Prestart));
                    actions.push(CreateAction::RunHooks(HookStage::CreateRuntime));
                    actions.push(CreateAction::SendReady);
                    assert(actions@ =~= seq![
                        CreateAction::RunHooks(HookStage::Prestart),
                        CreateAction::RunHooks(HookStage::CreateRuntime),
                        CreateAction::SendReady,
                    ]);
                    (CreatePhase::AwaitInit { pid }, actions)
                },
                CreatePhase::AwaitInit { pid } => {
                    actions.push(CreateAction::Save { status: ContainerStatus::Created, pid });
                    actions.push(CreateAction::Finish(pid));
                    assert(actions@ =~= seq![
                        CreateAction::Save { status: ContainerStatus::Created, pid },
                        CreateAction::Finish(pid),
                    ]);
                    assert(actions@[0] is Save);
                    (CreatePhase::Done, actions)
                },
                CreatePhase::Done => (CreatePhase::Done, actions),
            },
        }
    }

    /// The steps of the container's first process.
    pub fn child_init_plan() -> (r: Vec<ChildStep>)
        ensures
            r@ == child_plan(),
    {
        let mut v: Vec<ChildStep> = Vec::new();
        v.push(ChildStep::WaitForParent);
        v.push(ChildStep::OpenStartFifo);
        v.push(ChildStep::SetupNamespaces);
        v.push(ChildStep::SetHostname);
        v.push(ChildStep::SetupMounts);
        v.push(ChildStep::CreateDevices);
        v.push(ChildStep::ApplyDeviceRules);
        v.push(ChildStep::SignalReady);
        v.push(ChildStep::WaitForParent);
        v.push(ChildStep::RunHooks(HookStage::CreateContainer));
        v.push(ChildStep::SignalReady);
        v.push(ChildStep::WaitForStart);
        v.push(ChildStep::SetupTerminal);
        v.push(ChildStep::RunHooks(HookStage::StartContainer));
        v.push(ChildStep::Exec);
        assert(v@ =~= child_plan());
        v
    }

    /// The hook name of a stage, as `hook_stage` reads it back.
    pub fn stage_name(stage: HookStage) -> (r: String)
        ensures
            r@ == stage_name(stage),
            stage_of(r@) == Some(stage),
    {
        proof {
            reveal_strlit("prestart");
            reveal_strlit("createRuntime");
            reveal_strlit("createContainer");
            reveal_strlit("startContainer");
            reveal_strlit("poststart");
            reveal_strlit("poststop");
            assert("prestart"@.len() == 8);
            assert("createRuntime"@.len() == 13);
            assert("createContainer"@.len() == 15);
            assert("startContainer"@.len() == 14);
            assert("poststart"@.len() == 9);
            assert("poststop"@.len() == 8);
            assert("prestart"@[1] == 'r');
            assert("poststop"@[1] == 'o');
            assert(stage_of("prestart"@) == Some(HookStage::Prestart));
            assert(stage_of("createRuntime"@) == Some(HookStage::CreateRuntime));
            assert(stage_of("createContainer"@) == Some(HookStage::CreateContainer));
            assert(stage_of("startContainer"@) == Some(HookStage::StartContainer));
            assert(stage_of("poststart"@) == Some(HookStage::Poststart));
            assert(stage_of("poststop"@) == Some(HookStage::Poststop));
        }
        match stage {
            HookStage::Prestart => String::from_str("prestart"),
            HookStage::CreateRuntime => String::from_str("createRuntime"),
            HookStage::CreateContainer => String::from_str("createContainer"),
            HookStage::StartContainer => String::from_str("startContainer"),
            HookStage::Poststart => String::from_str("poststart"),
            HookStage::Poststop => String::from_str("poststop"),
        }
    }

    /// A builder for `container_id` from `bundle_path`, with no process yet.
    pub fn new(container_id: String, bundle_path: String) -> (r: CBuilder)
        ensures
            r.container_id == container_id,
            r.bundle_path == bundle_path,
            r.pid is None,
    {
        CBuilder { container_id, bundle_path, pid: None }
    }

    /// Records the pid of the container's first process.
    pub fn record_pid(&mut self, pid: i32)
        ensures
            final(self).pid == Some(pid),
            final(self).container_id == old(self).container_id,
            final(self).bundle_path == old(self).bundle_path,
    {
        self.pid = Some(pid);
    }

    /// The clone flag of a namespace kind.
    pub fn get_clone_flag(kind: NamespaceKind) -> (r: Option<CloneFlag>)
        ensures
            r == clone_flag_of(kind),
    {
        match kind {
            NamespaceKind::Pid => Some(CloneFlag::NewPid),
            NamespaceKind::Network => Some(CloneFlag::NewNet),
            NamespaceKind::Ipc => Some(CloneFlag::NewIpc),
            NamespaceKind::Uts => Some(CloneFlag::NewUts),
            NamespaceKind::Mount => Some(CloneFlag::NewNs),
            NamespaceKind::Cgroup => Some(CloneFlag::NewCgroup),
            NamespaceKind::User => Some(CloneFlag::NewUser),
            NamespaceKind::Time => None,
        }
    }

    /// The flags the container's first process is cloned with: the flag of
    /// every configured namespace that has no path to join.
    pub fn get_clone_flags(namespaces: &Option<Vec<NamespaceConfig>>) -> (r: CloneFlagSet)
        ensures
            forall|f: CloneFlag|
                #[trigger] r.has(f) == (namespaces matches Some(nss) && flag_requested(nss@, f)),
            r.pid == (namespaces matches Some(nss) && kind_requested(nss@, NamespaceKind::Pid)),
            r.net == (namespaces matches Some(nss) && kind_requested(nss@, NamespaceKind::Network)),
            r.ipc == (namespaces matches Some(nss) && kind_requested(nss@, NamespaceKind::Ipc)),
            r.uts == (namespaces matches Some(nss) && kind_requested(nss@, NamespaceKind::Uts)),
            r.ns == (namespaces matches Some(nss) && kind_requested(nss@, NamespaceKind::Mount)),
            r.cgroup == (namespaces matches Some(nss) && kind_requested(nss@, NamespaceKind::Cgroup)),
            r.user == (namespaces matches Some(nss) && kind_requested(nss@, NamespaceKind::User)),
    {
        let mut set = CloneFlagSet {
            pid: false,
            net: false,
            ipc: false,
            uts: false,
            ns: false,
            cgroup: false,
            user: false,
        };
        if let Some(nss) = namespaces {
            let mut i: usize = 0;
            while i < nss.len()
                invariant
                    i <= nss@.len(),
                    forall|f: CloneFlag|
                        #[trigger] set.has(f) == flag_requested(nss@.take(i as int), f),
                decreases nss@.len() - i,
            {
                let ghost before = set;
                let ns = &nss[i];
                let mut added: Option<CloneFlag> = None;
                if ns.path.is_none() {
                    added = Self::get_clone_flag(ns.kind);
                    match added {
                        Some(CloneFlag::NewPid) => set.pid = true,
                        Some(CloneFlag::NewNet) => set.net = true,
                        Some(CloneFlag::NewIpc) => set.ipc = true,
                        Some(CloneFlag::NewUts) => set.uts = true,
                        Some(CloneFlag::NewNs) => set.ns = true,
                        Some(CloneFlag::NewCgroup) => set.cgroup = true,
                        Some(CloneFlag::NewUser) => set.user = true,
                        None => {},
                    }
                }
                assert(added == if nss@[i as int].path is None {
                    clone_flag_of(nss@[i as int].kind)
                } else {
                    None
                });
                assert(forall|f: CloneFlag| #[trigger]
                    set.has(f) == (before.has(f) || added == Some(f)));
                assert forall|f: CloneFlag| #[trigger]
                    set.has(f) == flag_requested(nss@.take(i + 1), f) by {
                    let a = nss@.take(i as int);
                    let b = nss@.take(i + 1);
                    if flag_requested(b, f) {
                        let j = choose|j: int|
                            0 <= j < b.len() && (#[trigger] b[j]).path is None && clone_flag_of(
                                b[j].kind,
                            ) == Some(f);
                        if j < i {
                            assert(a[j] == b[j]);
                        } else {
                            assert(b[j] == nss@[i as int]);
                        }
                    }
                    if flag_requested(a, f) {
                        let j = choose|j: int|
                            0 <= j < a.len() && (#[trigger] a[j]).path is None && clone_flag_of(
                                a[j].kind,
                            ) == Some(f);
                        assert(b[j] == a[j]);
                    }
                    if added == Some(f) {
                        assert(b[i as int] == nss@[i as int]);
                    }
                }
                i = i + 1;
            }
            assert(nss@.take(nss@.len() as int) =~= nss@);
            proof {
                law_flags_follow_kinds(nss@);
                assert(set.pid == set.has(CloneFlag::NewPid));
                assert(set.net == set.has(CloneFlag::NewNet));
                assert(set.ipc == set.has(CloneFlag::NewIpc));
                assert(set.uts == set.has(CloneFlag::NewUts));
                assert(set.ns == set.has(CloneFlag::NewNs));
                assert(set.cgroup == set.has(CloneFlag::NewCgroup));
                assert(set.user == set.has(CloneFlag::NewUser));
            }
        }
        set
    }

    /// What to do for one configured namespace: user namespaces are
    /// skipped; a namespace with a path is joined; otherwise the namespace
    /// was created by `clone` and a network namespace gets its loopback
    /// device. Creating a time namespace is not supported.
    pub fn setup_ns(kind: NamespaceKind, path: &Option<String>) -> (r: Result<NsStep, KuroError>)
        ensures
            kind == NamespaceKind::User ==> (r matches Ok(NsStep::Skip)),
            kind != NamespaceKind::User && path is Some ==> (r matches Ok(NsStep::Join { path: p })
                && p@ == path->0@),
            kind != NamespaceKind::User && path is None ==> ({
                if kind == NamespaceKind::Network {
                    r matches Ok(NsStep::SetupNetwork)
                } else if kind == NamespaceKind::Time {
                    r matches Err(e) && e@ == ErrorView::Namespace(
                        "Unsupported namespace type"@,
                    )
                } else {
                    r matches Ok(NsStep::Nothing)
                }
            }),
    {
        if kind == NamespaceKind::User {
            return Ok(NsStep::Skip);
        }
        match path {
            Some(p) => Ok(NsStep::Join { path: p.clone() }),
            None => match kind {
                NamespaceKind::Network => Ok(NsStep::SetupNetwork),
                NamespaceKind::Mount | NamespaceKind::Pid | NamespaceKind::Uts | NamespaceKind::Ipc
                | NamespaceKind::Cgroup => Ok(NsStep::Nothing),
                _ => Err(KuroError::Namespace(String::from_str("Unsupported namespace type"))),
            },
        }
    }

    /// The name of a namespace kind in messages.
    pub fn namespace_name(kind: NamespaceKind) -> (r: String)
        ensures
            r@ == namespace_name(kind),
    {
        match kind {
            NamespaceKind::Mount => String::from_str("mnt"),
            NamespaceKind::Cgroup => String::from_str("cgroup"),
            NamespaceKind::Uts => String::from_str("uts"),
            NamespaceKind::Ipc => String::from_str("ipc"),
            NamespaceKind::User => String::from_str("user"),
            NamespaceKind::Pid => String::from_str("pid"),
            NamespaceKind::Network => String::from_str("net"),
            NamespaceKind::Time => String::from_str("time"),
        }
    }

    /// The flag to join an opened namespace with; namespaces without a
    /// clone flag (time) cannot be joined.
    pub fn join_flag(kind: NamespaceKind) -> (r: Result<CloneFlag, KuroError>)
        ensures
            clone_flag_of(kind) matches Some(f) ==> r == Ok::<CloneFlag, KuroError>(f),
            clone_flag_of(kind) is None ==> (r matches Err(e) && e@ == ErrorView::Namespace(
                "Unsupported namespace type: "@ + namespace_name(kind),
            )),
    {
        match Self::get_clone_flag(kind) {
            Some(f) => Ok(f),
            None => {
                let name = Self::namespace_name(kind);
                Err(KuroError::Namespace(concat2("Unsupported namespace type: ", name.as_str())))
            },
        }
    }

    /// The stage a hook name denotes. Without any hooks configured every
    /// name is accepted and nothing runs; with hooks, an unknown name is an
    /// error.
    pub fn hook_stage(hooks: &Option<HooksConfig>, name: &str) -> (r: Result<
        Option<HookStage>,
        KuroError,
    >)
        ensures
            hooks is None ==> r == Ok::<Option<HookStage>, KuroError>(None),
            hooks is Some ==> match stage_of(name@) {
                Some(st) => r == Ok::<Option<HookStage>, KuroError>(Some(st)),
                None => r matches Err(e) && e@ == ErrorView::Hook(
                    "Unknown hook type: "@ + name@,
                ),
            },
    {
        if hooks.is_none() {
            return Ok(None);
        }
        if crate::text::str_eq(name, "prestart") {
            Ok(Some(HookStage::Prestart))
        } else if crate::text::str_eq(name, "createRuntime") {
            Ok(Some(HookStage::CreateRuntime))
        } else if crate::text::str_eq(name, "createContainer") {
            Ok(Some(HookStage::CreateContainer))
        } else if crate::text::str_eq(name, "startContainer") {
            Ok(Some(HookStage::StartContainer))
        } else if crate::text::str_eq(name, "poststart") {
            Ok(Some(HookStage::Poststart))
        } else if crate::text::str_eq(name, "poststop") {
            Ok(Some(HookStage::Poststop))
        } else {
            Err(KuroError::Hook(concat2("Unknown hook type: ", name)))
        }
    }

    /// The hooks configured for a stage.
    pub fn stage_hooks(hooks: &HooksConfig, stage: HookStage) -> (r: &Option<Vec<HookConfig>>)
        ensures
            *r == stage_hooks(*hooks, stage),
    {
        match stage {
            HookStage::Prestart => &hooks.prestart,
            HookStage::CreateRuntime => &hooks.create_runtime,
            HookStage::CreateContainer => &hooks.create_container,
            HookStage::StartContainer => &hooks.start_container,
            HookStage::Poststart => &hooks.poststart,
            HookStage::Poststop => &hooks.poststop,
        }
    }

    /// How a hook is run: its path as the program, its arguments after the
    /// first, and its `KEY=VALUE` environment split at the first `=`.
    pub fn hook_command(hook: &HookConfig) -> (r: HookCommand)
        ensures
            r.program@ == hook.path@,
            texts_view(r.args@) == hook_args(hook.args),
            pairs_view(r.env@) == hook_env(hook.env),
    {
        let mut args: Vec<String> = Vec::new();
        if let Some(a) = &hook.args {
            if a.len() > 1 {
                let mut i: usize = 1;
                while i < a.len()
                    invariant
                        1 <= i <= a@.len(),
                        texts_view(args@) == texts_view(a@).subrange(1, i as int),
                    decreases a@.len() - i,
                {
                    let ghost before = texts_view(args@);
                    args.push(a[i].clone());
                    assert(texts_view(args@) =~= before.push(a@[i as int]@));
                    assert(texts_view(a@).subrange(1, i + 1) =~= texts_view(a@).subrange(
                        1,
                        i as int,
                    ).push(a@[i as int]@));
                    i = i + 1;
                }
                assert(texts_view(a@).subrange(1, a@.len() as int) =~= texts_view(a@).skip(1));
            }
        }
        if args.len() == 0 {
            assert(texts_view(args@) =~= hook_args(hook.args));
        }
        let env = match &hook.env {
            Some(e) => SecMgr::env_vars(e),
            None => {
                let v: Vec<(String, String)> = Vec::new();
                assert(pairs_view(v@) =~= Seq::<(Seq<char>, Seq<char>)>::empty());
                v
            },
        };
        HookCommand { program: hook.path.clone(), args, env }
    }

    /// What the container's first process executes: the configured
    /// arguments (the first names the program) and environment. A missing
    /// process, missing arguments or empty arguments are errors.
    pub fn exec_plan(process: &Option<ProcessConfig>) -> (r: Result<ExecPlan, KuroError>)
        ensures
            match (r, exec_plan_of(*process)) {
                (Ok(p), Ok(q)) => p.program@ == q.0 && texts_view(p.argv@) == q.1 && texts_view(
                    p.envp@,
                ) == q.2,
                (Err(e), Err(f)) => e@ == f,
                _ => false,
            },
    {
        let p = match process {
            None => {
                return Err(
                    KuroError::InvalidSpec(String::from_str("Missing 'process' field in spec")),
                );
            },
            Some(p) => p,
        };
        let args = match &p.args {
            None => {
                return Err(
                    KuroError::InvalidSpec(
                        String::from_str("Missing 'process.args' field in spec"),
                    ),
                );
            },
            Some(a) => a,
        };
        if args.len() == 0 {
            return Err(KuroError::InvalidSpec(String::from_str("process.args cannot be empty")));
        }
        let envp = match &p.env {
            Some(e) => clone_texts(e),
            None => {
                let v: Vec<String> = Vec::new();
                assert(texts_view(v@) =~= Seq::<Seq<char>>::empty());
                v
            },
        };
        Ok(ExecPlan { program: args[0].clone(), argv: clone_texts(args), envp })
    }
}

proof fn lemma_done_never_saves(readies: Seq<bool>)
    ensures
        !saves_created(CreatePhase::Done, readies),
    decreases readies.len(),
{
    if readies.len() > 0 {
        lemma_done_never_saves(readies.drop_first());
    }
}

/// `create` records the container as `Created` exactly when the child's
/// first two replies are both ready: an error or the end of the pipe at
/// either point means it is never recorded.
pub proof fn law_created_only_after_two_ready(pid: i32, readies: Seq<bool>)
    ensures
        saves_created(CreatePhase::AwaitSetup { pid }, readies) <==> (readies.len() >= 2
            && readies[0] && readies[1]),
{
    let start = CreatePhase::AwaitSetup { pid };
    if readies.len() > 0 {
        let r1 = readies.drop_first();
        assert(!records_created(start, readies[0]));
        assert(saves_created(start, readies) == saves_created(next_phase(start, readies[0]), r1));
        if readies[0] {
            let mid = CreatePhase::AwaitInit { pid };
            assert(next_phase(start, readies[0]) == mid);
            if r1.len() > 0 {
                lemma_done_never_saves(r1.drop_first());
                assert(readies[1] == r1[0]);
                assert(next_phase(mid, r1[0]) == CreatePhase::Done);
                assert(saves_created(mid, r1) == (records_created(mid, r1[0]) || saves_created(
                    CreatePhase::Done,
                    r1.drop_first(),
                )));
            } else {
                assert(!saves_created(mid, r1));
            }
        } else {
            assert(next_phase(start, readies[0]) == CreatePhase::Done);
            lemma_done_never_saves(r1);
        }
    } else {
        assert(!saves_created(start, readies));
    }
}

/// The first process takes over its standard streams only after every
/// ready signal it sends and after `start` released it: the terminal step
/// comes once, after all of them.
pub proof fn law_terminal_after_ready()
    ensures
        child_plan()[12] == ChildStep::SetupTerminal,
        child_plan()[11] == ChildStep::WaitForStart,
        forall|i: int| 0 <= i < child_plan().len() && child_plan()[i] == ChildStep::SignalReady ==> i < 12,
        forall|i: int| 0 <= i < child_plan().len() && child_plan()[i] == ChildStep::SetupTerminal ==> i == 12,
{
    let p = child_plan();
    assert forall|i: int| 0 <= i < p.len() && (p[i] == ChildStep::SignalReady || p[i] == ChildStep::SetupTerminal)
        implies (p[i] == ChildStep::SignalReady ==> i < 12) && (p[i] == ChildStep::SetupTerminal ==> i == 12) by {
        assert(p.len() == 15);
        if i == 13 { assert(p[13] == ChildStep::RunHooks(HookStage::StartContainer)); }
        if i == 14 { assert(p[14] == ChildStep::Exec); }
        if i < 12 { assert(p[i] != ChildStep::SetupTerminal) by {
            assert(p[0] == ChildStep::WaitForParent);
            assert(p[1] == ChildStep::OpenStartFifo);
            assert(p[2] == ChildStep::SetupNamespaces);
            assert(p[3] == ChildStep::SetHostname);
            assert(p[4] == ChildStep::SetupMounts);
            assert(p[5] == ChildStep::CreateDevices);
            assert(p[6] == ChildStep::ApplyDeviceRules);
            assert(p[7] == ChildStep::SignalReady);
            assert(p[8] == ChildStep::WaitForParent);
            assert(p[9] == ChildStep::RunHooks(HookStage::CreateContainer));
            assert(p[10] == ChildStep::SignalReady);
            assert(p[11] == ChildStep::WaitForStart);
        } }
    }
}

/// Each hook stage has the name of the configuration's hook lists, and the
/// name reads back as that stage; no other text names a stage.
pub proof fn law_stage_names(st: HookStage, name: Seq<char>)
    ensures
        stage_name(HookStage::Prestart) == "prestart"@,
        stage_name(HookStage::CreateRuntime) == "createRuntime"@,
        stage_name(HookStage::CreateContainer) == "createContainer"@,
        stage_name(HookStage::StartContainer) == "startContainer"@,
        stage_name(HookStage::Poststart) == "poststart"@,
        stage_name(HookStage::Poststop) == "poststop"@,
        stage_of(stage_name(st)) == Some(st),
        stage_of(name) matches Some(s) ==> name == stage_name(s),
{
    reveal_strlit("prestart");
    reveal_strlit("createRuntime");
    reveal_strlit("createContainer");
    reveal_strlit("startContainer");
    reveal_strlit("poststart");
    reveal_strlit("poststop");
    assert("prestart"@.len() == 8 && "poststop"@.len() == 8);
    assert("createRuntime"@.len() == 13 && "createContainer"@.len() == 15);
    assert("startContainer"@.len() == 14 && "poststart"@.len() == 9);
    assert("prestart"@[1] == 'r' && "poststop"@[1] == 'o');
}

/// Each namespace kind is named in messages as the kernel names it under
/// `/proc/<pid>/ns`.
pub proof fn law_namespace_names()
    ensures
        namespace_name(NamespaceKind::Mount) == "mnt"@,
        namespace_name(NamespaceKind::Cgroup) == "cgroup"@,
        namespace_name(NamespaceKind::Uts) == "uts"@,
        namespace_name(NamespaceKind::Ipc) == "ipc"@,
        namespace_name(NamespaceKind::User) == "user"@,
        namespace_name(NamespaceKind::Pid) == "pid"@,
        namespace_name(NamespaceKind::Network) == "net"@,
        namespace_name(NamespaceKind::Time) == "time"@,
{
}

/// A process can be run exactly when it has a non-empty argument list: the
/// program is the first argument, the program is given all the arguments,
/// itself first, and the configured environment (none when unset).
pub proof fn law_exec_plan_runs_first_argument(process: Option<ProcessConfig>)
    ensures
        exec_plan_of(process) is Ok <==> (process matches Some(p) && p.args matches Some(a)
            && a@.len() > 0),
        exec_plan_of(process) matches Ok(q) ==> ({
            let p = process.unwrap();
            &&& q.1 == texts_view(p.args.unwrap()@)
            &&& q.1.len() > 0 && q.0 == q.1[0]
            &&& q.2 == match p.env {
                Some(e) => texts_view(e@),
                None => Seq::<Seq<char>>::empty(),
            }
        }),
{
}

} // verus!
