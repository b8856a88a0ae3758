//! A container's persisted state, where it is kept, and the lifecycle
//! rules that read it.
use vstd::prelude::*;

use crate::config::spec::keys_distinct;
use crate::error::{ErrorView, KuroError};
use crate::text::{concat3, int_text, join_path, path_join, u64_text};

verus! {

/// Where a container stands in its lifecycle.
#[derive(Debug, Clone, Copy, PartialEq, Eq, Structural)]
pub enum ContainerStatus {
    Creating,
    Created,
    Running,
    Stopped,
}

/// How a status is written in messages (its `Debug` form).
pub open spec fn status_name(s: ContainerStatus) -> Seq<char> {
    match s {
        ContainerStatus::Creating => "Creating"@,
        ContainerStatus::Created => "Created"@,
        ContainerStatus::Running => "Running"@,
        ContainerStatus::Stopped => "Stopped"@,
    }
}

impl ContainerStatus {
    /// The status's name, as its `Debug` form writes it.
    pub fn name(&self) -> (r: String)
        ensures
            r@ == status_name(*self),
    {
        match self {
            ContainerStatus::Creating => String::from_str("Creating"),
            ContainerStatus::Created => String::from_str("Created"),
            ContainerStatus::Running => String::from_str("Running"),
            ContainerStatus::Stopped => String::from_str("Stopped"),
        }
    }
}

/// The state record of one container, as kept in its state file.
#[derive(Debug, Clone)]
pub struct ContainerState {
    pub oci_version: String,
    pub id: String,
    pub status: ContainerStatus,
    pub pid: i32,
    pub bundle: String,
    /// Key and value of each annotation; each key occurs once
    /// (`keys_distinct`).
    pub annotations: Vec<(String, String)>,
}

/// What the runtime learns of its caller before it computes paths: the
/// effective user id and the value of `XDG_RUNTIME_DIR`, when set.
#[derive(Debug, Clone)]
pub struct RuntimeEnv {
    pub euid: u32,
    pub runtime_dir: Option<String>,
}

pub open spec fn opt_text(o: Option<String>) -> Option<Seq<char>> {
    match o {
        Some(s) => Some(s@),
        None => None,
    }
}

/// The directory under which every container's state lives: `/run/kuro`
/// for root; otherwise `kuro` under `XDG_RUNTIME_DIR`, or under
/// `/run/user/<euid>` when that is not set.
pub open spec fn state_root(euid: u32, runtime_dir: Option<Seq<char>>) -> Seq<char> {
    if euid == 0 {
        "/run/kuro"@
    } else {
        match runtime_dir {
            Some(d) => path_join(d, "kuro"@),
            None => path_join("/run/user/"@ + int_text(euid as int), "kuro"@),
        }
    }
}

/// A container's state directory.
pub open spec fn state_dir(id: Seq<char>, euid: u32, runtime_dir: Option<Seq<char>>) -> Seq<char> {
    path_join(state_root(euid, runtime_dir), id)
}

/// A container's state file.
pub open spec fn state_file(id: Seq<char>, euid: u32, runtime_dir: Option<Seq<char>>) -> Seq<
    char,
> {
    path_join(state_dir(id, euid, runtime_dir), "state.json"@)
}

/// Whether the status claims a live process: a `Running` or `Created`
/// container with a positive pid.
pub open spec fn claims_live_process(status: ContainerStatus, pid: i32) -> bool {
    (status == ContainerStatus::Running || status == ContainerStatus::Created) && pid > 0
}

pub open spec fn not_startable_status_msg(id: Seq<char>, status: ContainerStatus) -> Seq<char> {
    "Container '"@ + id + "' is in "@ + status_name(status) + " state, expected Created"@
}

pub open spec fn no_pid_msg(id: Seq<char>) -> Seq<char> {
    "Container '"@ + id
        + "' has not been created properly, and has no PID (check by running 'kuro state')"@
}

/// The error, if any, for starting a container in `status` with `pid`.
pub open spec fn start_error(id: Seq<char>, status: ContainerStatus, pid: i32) -> Option<
    ErrorView,
> {
    if status != ContainerStatus::Created {
        Some(ErrorView::Start(not_startable_status_msg(id, status)))
    } else if pid < 2 {
        Some(ErrorView::Start(no_pid_msg(id)))
    } else {
        None
    }
}

/// The error, if any, for signalling a container in `status` with `pid`.
pub open spec fn kill_error(id: Seq<char>, status: ContainerStatus, pid: i32) -> Option<ErrorView> {
    if kill_refused(status) {
        Some(ErrorView::InvalidArgs("Container '"@ + id + "' is already stopped"@))
    } else if pid <= 1 {
        Some(ErrorView::InvalidArgs("Container '"@ + id + "' has no process to signal"@))
    } else {
        None
    }
}

/// The status a container has once the liveness probe has answered.
pub open spec fn status_after_probe(status: ContainerStatus, pid: i32, alive: bool) -> ContainerStatus {
    if claims_live_process(status, pid) && !alive {
        ContainerStatus::Stopped
    } else {
        status
    }
}

/// Whether `kuro kill` refuses a container in `status`.
pub open spec fn kill_refused(status: ContainerStatus) -> bool {
    status == ContainerStatus::Stopped
}

/// Whether `kuro delete` refuses a container in `status`.
pub open spec fn delete_refused(status: ContainerStatus, force: bool) -> bool {
    status == ContainerStatus::Running && !force
}

impl ContainerState {
    /// The state directory of `container_id` for the caller in `env`.
    pub fn get_state_dir(container_id: &str, env: &RuntimeEnv) -> (r: String)
        ensures
            r@ == state_dir(container_id@, env.euid, opt_text(env.runtime_dir)),
    {
        let base = if env.euid == 0 {
            String::from_str("/run/kuro")
        } else {
            match &env.runtime_dir {
                Some(d) => join_path(d.as_str(), "kuro"),
                None => {
                    let uid = u64_text(env.euid as u64);
                    let mut user_dir = String::from_str("/run/user/");
                    user_dir.append(uid.as_str());
                    join_path(user_dir.as_str(), "kuro")
                },
            }
        };
        join_path(base.as_str(), container_id)
    }

    /// The state file of `container_id`: `state.json` in its state directory.
    pub fn get_state_file(container_id: &str, env: &RuntimeEnv) -> (r: String)
        ensures
            r@ == state_file(container_id@, env.euid, opt_text(env.runtime_dir)),
    {
        let dir = Self::get_state_dir(container_id, env);
        join_path(dir.as_str(), "state.json")
    }

    /// The first state of a container being created: status `Creating` and
    /// no process yet (pid -1).
    pub fn initial(
        oci_version: String,
        id: String,
        bundle: String,
        annotations: Vec<(String, String)>,
    ) -> (r: ContainerState)
        requires
            keys_distinct(annotations@),
        ensures
            r.oci_version == oci_version,
            r.id == id,
            r.bundle == bundle,
            r.annotations == annotations,
            r.status == ContainerStatus::Creating,
            keys_distinct(r.annotations@),
            r.pid == -1,
    {
        ContainerState {
            oci_version,
            id,
            status: ContainerStatus::Creating,
            pid: -1,
            bundle,
            annotations,
        }
    }

    /// Whether loading must check that the recorded process still exists.
    pub fn needs_liveness_probe(&self) -> (r: bool)
        ensures
            r == claims_live_process(self.status, self.pid),
    {
        (self.status == ContainerStatus::Running || self.status == ContainerStatus::Created)
            && self.pid > 0
    }

    /// Takes in the answer of the liveness probe: a container that claims a
    /// live process whose process is gone becomes `Stopped`. Returns whether
    /// the state changed (and so must be saved again).
    pub fn record_liveness(&mut self, alive: bool) -> (changed: bool)
        ensures
            changed == (claims_live_process(old(self).status, old(self).pid) && !alive),
            final(self).status == status_after_probe(old(self).status, old(self).pid, alive),
            final(self).pid == old(self).pid,
            final(self).id == old(self).id,
            final(self).bundle == old(self).bundle,
            final(self).oci_version == old(self).oci_version,
            final(self).annotations == old(self).annotations,
    {
        if self.needs_liveness_probe() && !alive {
            self.status = ContainerStatus::Stopped;
            true
        } else {
            false
        }
    }

    /// Sets the lifecycle status and leaves the rest of the record alone.
    pub fn set_status(&mut self, status: ContainerStatus)
        ensures
            final(self).status == status,
            final(self).pid == old(self).pid,
            final(self).id == old(self).id,
            final(self).bundle == old(self).bundle,
            final(self).oci_version == old(self).oci_version,
            final(self).annotations == old(self).annotations,
    {
        self.status = status;
    }

    /// Records the status together with the pid of the container's first
    /// process, leaving the rest of the record alone.
    pub fn record_process(&mut self, status: ContainerStatus, pid: i32)
        ensures
            final(self).status == status,
            final(self).pid == pid,
            final(self).id == old(self).id,
            final(self).bundle == old(self).bundle,
            final(self).oci_version == old(self).oci_version,
            final(self).annotations == old(self).annotations,
    {
        self.status = status;
        self.pid = pid;
    }

    /// `kuro start` may proceed only for a `Created` container whose
    /// recorded pid is at least 2.
    pub fn check_startable(&self, container_id: &str) -> (r: Result<(), KuroError>)
        ensures
            r is Ok <==> start_error(container_id@, self.status, self.pid) is None,
            r matches Err(e) ==> Some(e@) == start_error(container_id@, self.status, self.pid),
    {
        if self.status != ContainerStatus::Created {
            let name = self.status.name();
            let mut msg = concat3("Container '", container_id, "' is in ");
            msg.append(name.as_str());
            msg.append(" state, expected Created");
            return Err(KuroError::Start(msg));
        }
        if self.pid < 2 {
            return Err(
                KuroError::Start(
                    concat3(
                        "Container '",
                        container_id,
                        "' has not been created properly, and has no PID (check by running 'kuro state')",
                    ),
                ),
            );
        }
        Ok(())
    }

    /// `kuro kill` refuses a container that is already `Stopped`, and one
    /// whose recorded pid is not that of a process of its own (at most 1:
    /// pid 0 would reach the caller's process group, -1 every process the
    /// caller may signal, 1 the init process).
    pub fn check_killable(&self, container_id: &str) -> (r: Result<(), KuroError>)
        ensures
            r is Err <==> kill_error(container_id@, self.status, self.pid) is Some,
            r is Err <==> (kill_refused(self.status) || self.pid <= 1),
            r matches Err(e) ==> Some(e@) == kill_error(container_id@, self.status, self.pid),
    {
        if self.status == ContainerStatus::Stopped {
            return Err(
                KuroError::InvalidArgs(
                    concat3("Container '", container_id, "' is already stopped"),
                ),
            );
        }
        if self.pid <= 1 {
            return Err(
                KuroError::InvalidArgs(
                    concat3("Container '", container_id, "' has no process to signal"),
                ),
            );
        }
        Ok(())
    }
}

/// A container whose recorded process has died is found `Stopped`: it can
/// no longer be signalled, and it can be deleted without `--force`.
pub proof fn law_dead_process_means_stopped(status: ContainerStatus, pid: i32, force: bool)
    requires
        claims_live_process(status, pid),
    ensures
        status_after_probe(status, pid, false) == ContainerStatus::Stopped,
        kill_refused(status_after_probe(status, pid, false)),
        !delete_refused(status_after_probe(status, pid, false), force),
{
}

/// A live process, or a container that claims none, is left as it was.
pub proof fn law_probe_keeps_live_state(status: ContainerStatus, pid: i32, alive: bool)
    requires
        alive || !claims_live_process(status, pid),
    ensures
        status_after_probe(status, pid, alive) == status,
{
}

/// A signal is only ever sent to a container's own process: whenever
/// `kuro kill` is allowed, the recorded pid is at least 2 and the container
/// is not stopped.
pub proof fn law_kill_only_own_process(id: Seq<char>, status: ContainerStatus, pid: i32)
    ensures
        kill_error(id, status, pid) is None ==> pid >= 2 && status != ContainerStatus::Stopped,
        pid <= 1 ==> kill_error(id, status, pid) is Some,
{
}

/// Only a `Created` container can be started: once it is `Running` (or in
/// any other status) starting it again is refused.
pub proof fn law_start_only_from_created(id: Seq<char>, status: ContainerStatus, pid: i32)
    ensures
        start_error(id, status, pid) is None ==> status == ContainerStatus::Created && pid >= 2,
        status != ContainerStatus::Created ==> start_error(id, status, pid) is Some,
{
}

/// Joining a part that is not absolute onto a path keeps that path as its
/// beginning.
pub proof fn lemma_join_keeps_base(base: Seq<char>, part: Seq<char>)
    requires
        !(part.len() > 0 && part[0] == '/'),
    ensures
        path_join(base, part).len() >= base.len(),
        path_join(base, part).take(base.len() as int) == base,
{
    assert(path_join(base, part).take(base.len() as int) =~= base);
}

/// A container id that does not begin with `/` keeps the container's state
/// directory and state file under the runtime's state root.
pub proof fn law_state_stays_under_root(id: Seq<char>, euid: u32, runtime_dir: Option<Seq<char>>)
    requires
        !(id.len() > 0 && id[0] == '/'),
    ensures
        ({
            let root = state_root(euid, runtime_dir);
            &&& state_dir(id, euid, runtime_dir).take(root.len() as int) == root
            &&& state_file(id, euid, runtime_dir).take(root.len() as int) == root
        }),
{
    let root = state_root(euid, runtime_dir);
    let dir = state_dir(id, euid, runtime_dir);
    lemma_join_keeps_base(root, id);
    reveal_strlit("state.json");
    lemma_join_keeps_base(dir, "state.json"@);
    assert(state_file(id, euid, runtime_dir).take(root.len() as int) =~= dir.take(
        root.len() as int,
    ));
}

/// Root keeps every container's state under `/run/kuro`, whatever
/// `XDG_RUNTIME_DIR` says; any other user keeps it in a `kuro` directory of
/// its own runtime directory, so two users never share a state root.
pub proof fn law_root_state_under_run_kuro(id: Seq<char>, euid: u32, runtime_dir: Option<Seq<char>>)
    ensures
        euid == 0 ==> state_root(euid, runtime_dir) == "/run/kuro"@,
        euid == 0 ==> state_dir(id, euid, runtime_dir) == path_join("/run/kuro"@, id),
        euid != 0 ==> state_root(euid, runtime_dir) == match runtime_dir {
            Some(d) => path_join(d, "kuro"@),
            None => path_join("/run/user/"@ + int_text(euid as int), "kuro"@),
        },
        state_root(0, runtime_dir) == state_root(0, None),
{
}

/// The four statuses are written by their own names, and no two share one.
pub proof fn law_status_names(a: ContainerStatus, b: ContainerStatus)
    ensures
        status_name(ContainerStatus::Creating) == "Creating"@,
        status_name(ContainerStatus::Created) == "Created"@,
        status_name(ContainerStatus::Running) == "Running"@,
        status_name(ContainerStatus::Stopped) == "Stopped"@,
        status_name(a) == status_name(b) ==> a == b,
{
    reveal_strlit("Creating");
    reveal_strlit("Created");
    reveal_strlit("Running");
    reveal_strlit("Stopped");
    assert("Creating"@.len() == 8 && "Created"@.len() == 7);
    assert("Created"@[0] == 'C' && "Running"@[0] == 'R' && "Stopped"@[0] == 'S');
}

/// Deleting without `--force` is refused for a running container only; a
/// created, stopped or half-made container can always be deleted, and
/// `--force` deletes any.
pub proof fn law_delete_refusal(status: ContainerStatus, force: bool)
    ensures
        force ==> !delete_refused(status, force),
        status != ContainerStatus::Running ==> !delete_refused(status, force),
        (status == ContainerStatus::Running && !force) ==> delete_refused(status, force),
{
}

} // verus!
