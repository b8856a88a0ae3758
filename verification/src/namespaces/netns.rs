//! The container's network namespace.
use vstd::prelude::*;

use crate::error::{ErrorView, KuroError};
use crate::text::texts_view;

verus! {

/// The manager of the container's network namespace.
pub struct NetMgr;

/// The command that brings up the loopback device.
pub open spec fn loopback_argv() -> Seq<Seq<char>> {
    seq!["ip"@, "link"@, "set"@, "dev"@, "lo"@, "up"@]
}

impl NetMgr {
    /// The command, program first, that brings up the loopback device.
    pub fn loopback_command() -> (r: Vec<String>)
        ensures
            texts_view(r@) == loopback_argv(),
    {
        let mut v: Vec<String> = Vec::new();
        v.push(String::from_str("ip"));
        v.push(String::from_str("link"));
        v.push(String::from_str("set"));
        v.push(String::from_str("dev"));
        v.push(String::from_str("lo"));
        v.push(String::from_str("up"));
        assert(texts_view(v@) =~= loopback_argv());
        v
    }

    /// Configures a new network namespace from how the loopback command
    /// ran: `Err(text)` when it could not be started (an I/O error),
    /// `Ok(success)` when it exited. A failed command is a network
    /// namespace error.
    pub fn setup_network(loopback: Result<bool, String>) -> (r: Result<(), KuroError>)
        ensures
            loopback matches Ok(true) ==> r is Ok,
            loopback matches Ok(false) ==> (r matches Err(e) && e@ == ErrorView::Netns(
                "Failed to bring up loopback device"@,
            )),
            loopback matches Err(m) ==> (r matches Err(e) && e@ == ErrorView::Io(m@)),
    {
        match loopback {
            Ok(true) => Ok(()),
            Ok(false) => Err(
                KuroError::Netns(String::from_str("Failed to bring up loopback device")),
            ),
            Err(m) => Err(KuroError::Io(m)),
        }
    }
}

} // verus!
