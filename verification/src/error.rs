//! The runtime's error type and the container id check.
use vstd::prelude::*;

use crate::text::{all_ws, is_blank, trim};

verus! {

/// Every error the runtime reports. Errors that come from the operating
/// system or from a decoder carry their text (or, for system calls, the
/// errno) as plain values.
#[derive(Debug, Clone, PartialEq, Eq)]
pub enum KuroError {
    Io(String),
    Nix(i32),
    Json(String),
    Hook(String),
    InvalidArgs(String),
    InvalidBundle { path: String, reason: String },
    InvalidSpec(String),
    ContainerStateNotFound { id: String },
    ContainerNotFound { id: String },
    ContainerAlreadyExists { id: String },
    OciSpecError(String),
    Namespace(String),
    Userns(String),
    Netns(String),
    Cgroup(String),
    Mount(String),
    MountFailed { target: String, errno: i32 },
    Capability(String),
    Rlimits(String),
    NoNewPrivs(String),
    Seccomp(String),
    SyncPipe(String),
    ExecFailed(String),
    Start(String),
    Other(String),
}

/// A `KuroError` with its texts taken as character sequences.
pub enum ErrorView {
    Io(Seq<char>),
    Nix(i32),
    Json(Seq<char>),
    Hook(Seq<char>),
    InvalidArgs(Seq<char>),
    InvalidBundle { path: Seq<char>, reason: Seq<char> },
    InvalidSpec(Seq<char>),
    ContainerStateNotFound { id: Seq<char> },
    ContainerNotFound { id: Seq<char> },
    ContainerAlreadyExists { id: Seq<char> },
    OciSpecError(Seq<char>),
    Namespace(Seq<char>),
    Userns(Seq<char>),
    Netns(Seq<char>),
    Cgroup(Seq<char>),
    Mount(Seq<char>),
    MountFailed { target: Seq<char>, errno: i32 },
    Capability(Seq<char>),
    Rlimits(Seq<char>),
    NoNewPrivs(Seq<char>),
    Seccomp(Seq<char>),
    SyncPipe(Seq<char>),
    ExecFailed(Seq<char>),
    Start(Seq<char>),
    Other(Seq<char>),
}

impl View for KuroError {
    type V = ErrorView;

    open spec fn view(&self) -> ErrorView {
        match self {
            KuroError::Io(m) => ErrorView::Io(m@),
            KuroError::Nix(e) => ErrorView::Nix(*e),
            KuroError::Json(m) => ErrorView::Json(m@),
            KuroError::Hook(m) => ErrorView::Hook(m@),
            KuroError::InvalidArgs(m) => ErrorView::InvalidArgs(m@),
            KuroError::InvalidBundle { path, reason } => ErrorView::InvalidBundle {
                path: path@,
                reason: reason@,
            },
            KuroError::InvalidSpec(m) => ErrorView::InvalidSpec(m@),
            KuroError::ContainerStateNotFound { id } => ErrorView::ContainerStateNotFound {
                id: id@,
            },
            KuroError::ContainerNotFound { id } => ErrorView::ContainerNotFound { id: id@ },
            KuroError::ContainerAlreadyExists { id } => ErrorView::ContainerAlreadyExists {
                id: id@,
            },
            KuroError::OciSpecError(m) => ErrorView::OciSpecError(m@),
            KuroError::Namespace(m) => ErrorView::Namespace(m@),
            KuroError::Userns(m) => ErrorView::Userns(m@),
            KuroError::Netns(m) => ErrorView::Netns(m@),
            KuroError::Cgroup(m) => ErrorView::Cgroup(m@),
            KuroError::Mount(m) => ErrorView::Mount(m@),
            KuroError::MountFailed { target, errno } => ErrorView::MountFailed {
                target: target@,
                errno: *errno,
            },
            KuroError::Capability(m) => ErrorView::Capability(m@),
            KuroError::Rlimits(m) => ErrorView::Rlimits(m@),
            KuroError::NoNewPrivs(m) => ErrorView::NoNewPrivs(m@),
            KuroError::Seccomp(m) => ErrorView::Seccomp(m@),
            KuroError::SyncPipe(m) => ErrorView::SyncPipe(m@),
            KuroError::ExecFailed(m) => ErrorView::ExecFailed(m@),
            KuroError::Start(m) => ErrorView::Start(m@),
            KuroError::Other(m) => ErrorView::Other(m@),
        }
    }
}

/// The result of a unit-returning step, taken by views.
pub open spec fn unit_result_view(r: Result<(), KuroError>) -> Result<(), ErrorView> {
    match r {
        Ok(_) => Ok(()),
        Err(e) => Err(e@),
    }
}

/// The error `validate_id` gives for a blank id.
pub open spec fn empty_id_error() -> ErrorView {
    ErrorView::InvalidArgs("container_id cannot be empty"@)
}

/// Rejects a container id that is empty once surrounding whitespace is
/// trimmed; accepts every other id.
pub fn validate_id(container_id: &str) -> (r: Result<(), KuroError>)
    ensures
        r is Err <==> trim(container_id@).len() == 0,
        r is Err <==> all_ws(container_id@),
        r matches Err(e) ==> e@ == empty_id_error(),
{
    if is_blank(container_id) {
        return Err(KuroError::InvalidArgs(String::from_str("container_id cannot be empty")));
    }
    Ok(())
}

} // verus!
