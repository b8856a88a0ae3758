//! The command line of the runtime.
use vstd::prelude::*;


verus! {

/// The parsed command line.
#[derive(Debug, Clone)]
pub struct CliArgs {
    pub command: Commands,
}

/// The commands of the OCI runtime command line.
#[derive(Debug, Clone)]
pub enum Commands {
    Create {
        bundle: String,
        pid_file: Option<String>,
        console_socket: Option<String>,
        container_id: String,
    },
    Start { container_id: String },
    State { container_id: String },
    Kill { container_id: String, signal: String },
    Delete { force: bool, container_id: String },
}

impl Commands {
    /// The container the command is about.
    pub fn container_id(&self) -> (r: &String)
        ensures
            r == match self {
                Commands::Create { container_id, .. } => container_id,
                Commands::Start { container_id } => container_id,
                Commands::State { container_id } => container_id,
                Commands::Kill { container_id, .. } => container_id,
                Commands::Delete { container_id, .. } => container_id,
            },
    {
        match self {
            Commands::Create { container_id, .. } => container_id,
            Commands::Start { container_id } => container_id,
            Commands::State { container_id } => container_id,
            Commands::Kill { container_id, .. } => container_id,
            Commands::Delete { container_id, .. } => container_id,
        }
    }
}

} // verus!
