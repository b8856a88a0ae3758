//! What removing a container touches, and which process it may kill.
use vstd::prelude::*;

use crate::container::state::{opt_text, state_dir, ContainerState, RuntimeEnv};
use crate::text::{join_path, path_join};

verus! {

/// The parent of every container's cgroup.
pub open spec fn cgroup_base() -> Seq<char> {
    "/sys/fs/cgroup/kuro"@
}

/// Everything that cleaning up one container acts on.
#[derive(Debug, Clone)]
pub struct ContainerCleanup {
    pub container_id: String,
    pub pid: Option<i32>,
    pub cgroup_path: String,
    pub state_dir: String,
}

/// What cleanup does about the container's process.
#[derive(Debug, Clone, Copy, PartialEq, Eq, Structural)]
pub enum KillDecision {
    /// No process was recorded.
    NoProcess,
    /// Send `SIGKILL` to this pid.
    Kill(i32),
    /// The recorded pid is 0, 1, negative or the runtime's own: leave it.
    Skip(i32),
}

impl ContainerCleanup {
    /// The cleaner for `container_id`: its cgroup under
    /// `/sys/fs/cgroup/kuro` and its state directory.
    pub fn new(container_id: &str, pid: Option<i32>, env: &RuntimeEnv) -> (r: ContainerCleanup)
        ensures
            r.container_id@ == container_id@,
            r.pid == pid,
            r.cgroup_path@ == path_join(cgroup_base(), container_id@),
            r.state_dir@ == state_dir(container_id@, env.euid, opt_text(env.runtime_dir)),
    {
        let cgroup_path = join_path("/sys/fs/cgroup/kuro", container_id);
        let state_dir = ContainerState::get_state_dir(container_id, env);
        ContainerCleanup {
            container_id: String::from_str(container_id),
            pid,
            cgroup_path,
            state_dir,
        }
    }

    /// Whether to kill the recorded process, given the runtime's own pid:
    /// only a pid above 1 that is not the runtime itself is ever killed.
    pub fn kill_decision(&self, current_pid: i32) -> (r: KillDecision)
        ensures
            self.pid is None ==> r == KillDecision::NoProcess,
            self.pid matches Some(p) ==> r == (if p > 1 && p != current_pid {
                KillDecision::Kill(p)
            } else {
                KillDecision::Skip(p)
            }),
            r matches KillDecision::Kill(p) ==> p > 1 && p != current_pid,
    {
        match self.pid {
            None => KillDecision::NoProcess,
            Some(p) => {
                if p > 1 && p != current_pid {
                    KillDecision::Kill(p)
                } else {
                    KillDecision::Skip(p)
                }
            },
        }
    }
}

} // verus!
