//! The parts of an OCI runtime configuration (`config.json`) that the
//! runtime reads, held as plain values.
use vstd::prelude::*;

use crate::error::{ErrorView, KuroError};
use crate::text::{join_path, path_join};

verus! {

/// A container configuration.
#[derive(Debug, Clone)]
pub struct ContainerConfig {
    pub version: String,
    pub root_path: Option<String>,
    pub hostname: Option<String>,
    /// Key and value of each annotation; each key occurs once
    /// (`keys_distinct`).
    pub annotations: Vec<(String, String)>,
    pub process: Option<ProcessConfig>,
    pub hooks: Option<HooksConfig>,
    pub linux: Option<LinuxConfig>,
    pub mounts: Option<Vec<MountConfig>>,
}

/// Whether no key occurs twice among key and value pairs, as in a map.
pub open spec fn keys_distinct(entries: Seq<(String, String)>) -> bool {
    forall|i: int, j: int|
        0 <= i < entries.len() && 0 <= j < entries.len() && i != j ==> entries[i].0@
            != entries[j].0@
}

/// The container's process.
#[derive(Debug, Clone)]
pub struct ProcessConfig {
    pub terminal: Option<bool>,
    pub args: Option<Vec<String>>,
    pub env: Option<Vec<String>>,
    pub rlimits: Option<Vec<RlimitConfig>>,
    pub no_new_privileges: Option<bool>,
    pub capabilities: Option<CapabilityConfig>,
    pub user: UserConfig,
}

/// Capability sets, each capability by the name the configuration's
/// capability type displays.
#[derive(Debug, Clone)]
pub struct CapabilityConfig {
    pub bounding: Option<Vec<String>>,
    pub effective: Option<Vec<String>>,
    pub inheritable: Option<Vec<String>>,
    pub permitted: Option<Vec<String>>,
    pub ambient: Option<Vec<String>>,
}

/// One resource limit; the type by its name (such as `RLIMIT_NOFILE`).
#[derive(Debug, Clone)]
pub struct RlimitConfig {
    pub typ: String,
    pub hard: u64,
    pub soft: u64,
}

/// The user the process runs as.
#[derive(Debug, Clone)]
pub struct UserConfig {
    pub uid: u32,
    pub gid: u32,
    pub additional_gids: Option<Vec<u32>>,
}

/// One lifecycle hook.
#[derive(Debug, Clone)]
pub struct HookConfig {
    pub path: String,
    pub args: Option<Vec<String>>,
    pub env: Option<Vec<String>>,
}

/// The hooks of every lifecycle stage.
#[derive(Debug, Clone)]
pub struct HooksConfig {
    pub prestart: Option<Vec<HookConfig>>,
    pub create_runtime: Option<Vec<HookConfig>>,
    pub create_container: Option<Vec<HookConfig>>,
    pub start_container: Option<Vec<HookConfig>>,
    pub poststart: Option<Vec<HookConfig>>,
    pub poststop: Option<Vec<HookConfig>>,
}

/// The kinds of Linux namespace.
#[derive(Debug, Clone, Copy, PartialEq, Eq, Structural)]
pub enum NamespaceKind {
    Mount,
    Cgroup,
    Uts,
    Ipc,
    User,
    Pid,
    Network,
    Time,
}

/// A namespace to create, or to join at `path`.
#[derive(Debug, Clone)]
pub struct NamespaceConfig {
    pub kind: NamespaceKind,
    pub path: Option<String>,
}

/// One line of a uid or gid map.
#[derive(Debug, Clone, Copy, PartialEq, Eq, Structural)]
pub struct IdMapping {
    pub container_id: u32,
    pub host_id: u32,
    pub size: u32,
}

/// Memory limits.
#[derive(Debug, Clone, Copy)]
pub struct MemoryConfig {
    pub limit: Option<i64>,
    pub swap: Option<i64>,
}

/// CPU limits and placement.
#[derive(Debug, Clone)]
pub struct CpuConfig {
    pub shares: Option<u64>,
    pub quota: Option<i64>,
    pub period: Option<u64>,
    pub cpus: Option<String>,
    pub mems: Option<String>,
}

/// A device cgroup rule.
#[derive(Debug, Clone)]
pub struct DeviceRule {
    pub allow: bool,
    pub major: Option<i64>,
    pub minor: Option<i64>,
    pub access: Option<String>,
}

/// Resource limits of the container's cgroup.
#[derive(Debug, Clone)]
pub struct ResourcesConfig {
    pub memory: Option<MemoryConfig>,
    pub pids_limit: Option<i64>,
    pub cpu: Option<CpuConfig>,
    pub devices: Option<Vec<DeviceRule>>,
}

/// The kinds of device node.
#[derive(Debug, Clone, Copy, PartialEq, Eq, Structural)]
pub enum DeviceKind {
    All,
    Block,
    Char,
    Unbuffered,
    Fifo,
}

/// A device node to create in the container.
#[derive(Debug, Clone)]
pub struct DeviceConfig {
    pub path: String,
    pub kind: DeviceKind,
    pub major: i64,
    pub minor: i64,
    pub file_mode: Option<u32>,
    pub uid: Option<u32>,
    pub gid: Option<u32>,
}

/// The actions a seccomp rule can name.
#[derive(Debug, Clone, Copy, PartialEq, Eq, Structural)]
pub enum SeccompActionKind {
    Kill,
    KillThread,
    KillProcess,
    Trap,
    Errno,
    Notify,
    Trace,
    Log,
    Allow,
}

/// One seccomp rule: an action for the named system calls.
#[derive(Debug, Clone)]
pub struct SyscallRule {
    pub names: Vec<String>,
    pub action: SeccompActionKind,
}

/// The seccomp filter.
#[derive(Debug, Clone)]
pub struct SeccompConfig {
    pub default_action: SeccompActionKind,
    pub syscalls: Option<Vec<SyscallRule>>,
}

/// The Linux-specific part of the configuration.
#[derive(Debug, Clone)]
pub struct LinuxConfig {
    pub namespaces: Option<Vec<NamespaceConfig>>,
    pub uid_mappings: Option<Vec<IdMapping>>,
    pub gid_mappings: Option<Vec<IdMapping>>,
    pub resources: Option<ResourcesConfig>,
    pub devices: Option<Vec<DeviceConfig>>,
    pub masked_paths: Option<Vec<String>>,
    pub readonly_paths: Option<Vec<String>>,
    pub seccomp: Option<SeccompConfig>,
}

/// One mount.
#[derive(Debug, Clone)]
pub struct MountConfig {
    pub destination: String,
    pub source: Option<String>,
    pub typ: Option<String>,
    pub options: Option<Vec<String>>,
}

/// Where a bundle keeps its configuration.
pub fn config_file(bundle: &str) -> (r: String)
    ensures
        r@ == path_join(bundle@, "config.json"@),
{
    join_path(bundle, "config.json")
}

/// A bundle without its configuration file is refused.
pub fn check_config_file(config_path: &str, is_file: bool) -> (r: Result<(), KuroError>)
    ensures
        r is Err <==> !is_file,
        r matches Err(e) ==> e@ == (ErrorView::InvalidBundle {
            path: config_path@,
            reason: "Missing config.json in bundle directory"@,
        }),
{
    if !is_file {
        return Err(
            KuroError::InvalidBundle {
                path: String::from_str(config_path),
                reason: String::from_str("Missing config.json in bundle directory"),
            },
        );
    }
    Ok(())
}

/// Whether the process asks for a terminal (`process.terminal`, false
/// when absent).
pub fn wants_terminal(config: &ContainerConfig) -> (r: bool)
    ensures
        r == (config.process matches Some(p) && p.terminal == Some(true)),
{
    match &config.process {
        Some(p) => match p.terminal {
            Some(t) => t,
            None => false,
        },
        None => false,
    }
}

} // verus!
