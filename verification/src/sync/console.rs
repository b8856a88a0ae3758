//! The socket over which the container's terminal is handed to `start`.
use vstd::prelude::*;

use crate::text::{join_path, path_join};

verus! {

/// The console socket of a container.
pub struct ConsoleSocket;

impl ConsoleSocket {
    /// The socket inside a container's state directory.
    pub fn socket_path(state_dir: &str) -> (r: String)
        ensures
            r@ == path_join(state_dir@, "console.sock"@),
    {
        join_path(state_dir, "console.sock")
    }

    /// The one data byte sent along with the terminal's descriptor.
    pub fn marker_byte() -> (r: u8)
        ensures
            r == 99,
    {
        99u8
    }
}

} // verus!
