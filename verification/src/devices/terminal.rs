//! The container's standard streams.
use vstd::prelude::*;

verus! {

/// The manager of the container's terminal and standard streams.
pub struct TermMgr;

impl TermMgr {
    /// How `/dev/null` is opened to stand in for a closed standard stream:
    /// for reading in place of standard input (0), for writing otherwise.
    pub fn null_access(fd: i32) -> (r: (bool, bool))
        ensures
            r == (fd == 0, fd != 0),
    {
        (fd == 0, fd != 0)
    }
}

} // verus!
