//! The FIFO on which the container's first process waits for `start`.
use vstd::prelude::*;

use crate::text::{join_path, path_join};

verus! {

/// The start FIFO of a container.
pub struct ExecFifo;

impl ExecFifo {
    /// The FIFO inside a container's state directory.
    pub fn create_path(container_dir: &str) -> (r: String)
        ensures
            r@ == path_join(container_dir@, "exec.fifo"@),
    {
        join_path(container_dir, "exec.fifo")
    }

    /// The byte written to release the waiting process.
    pub fn start_byte() -> (r: u8)
        ensures
            r == 1,
    {
        1u8
    }
}

} // verus!
