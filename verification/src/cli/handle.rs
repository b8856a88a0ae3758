//! The checks each command makes before it acts.
use vstd::prelude::*;

use crate::container::state::{ContainerState, ContainerStatus};
use crate::error::{ErrorView, KuroError};
use crate::text::{concat3, join_path, path_join};

verus! {

/// The error for a container whose state file does not exist.
pub fn state_not_found(container_id: &str) -> (e: KuroError)
    ensures
        e@ == (ErrorView::ContainerStateNotFound { id: container_id@ }),
{
    KuroError::ContainerStateNotFound { id: String::from_str(container_id) }
}

/// `kuro create` refuses an id whose state can already be loaded.
pub fn ensure_not_existing(container_id: &str, state_loaded: bool) -> (r: Result<(), KuroError>)
    ensures
        r is Err <==> state_loaded,
        r matches Err(e) ==> e@ == (ErrorView::ContainerAlreadyExists { id: container_id@ }),
{
    if state_loaded {
        return Err(KuroError::ContainerAlreadyExists { id: String::from_str(container_id) });
    }
    Ok(())
}

/// The bundle given to `kuro create` must be an existing directory.
pub fn check_bundle_dir(bundle: &str, is_existing_dir: bool) -> (r: Result<(), KuroError>)
    ensures
        r is Err <==> !is_existing_dir,
        r matches Err(e) ==> e@ == ErrorView::InvalidArgs(
            "bundle_path '"@ + bundle@ + "' does not exist or is not a directory"@,
        ),
{
    if !is_existing_dir {
        return Err(
            KuroError::InvalidArgs(
                concat3("bundle_path '", bundle, "' does not exist or is not a directory"),
            ),
        );
    }
    Ok(())
}

/// The root filesystem of a bundle: the configuration's `root.path` under
/// the bundle directory. A configuration without `root` is refused.
pub fn rootfs_path(bundle: &str, root_path: Option<&str>) -> (r: Result<String, KuroError>)
    ensures
        r is Err <==> root_path is None,
        r matches Ok(p) ==> p@ == path_join(bundle@, root_path->0@),
        r matches Err(e) ==> e@ == (ErrorView::InvalidBundle {
            path: bundle@,
            reason: "config.json is missing the 'root' section"@,
        }),
{
    match root_path {
        Some(rel) => Ok(join_path(bundle, rel)),
        None => Err(
            KuroError::InvalidBundle {
                path: String::from_str(bundle),
                reason: String::from_str("config.json is missing the 'root' section"),
            },
        ),
    }
}

/// The root filesystem named by the configuration must exist.
pub fn check_rootfs(root_rel_path: &str, exists: bool) -> (r: Result<(), KuroError>)
    ensures
        r is Err <==> !exists,
        r matches Err(e) ==> e@ == ErrorView::InvalidArgs(
            "bundle_path does not contain rootfs directory at '"@ + root_rel_path@ + "'"@,
        ),
{
    if !exists {
        return Err(
            KuroError::InvalidArgs(
                concat3("bundle_path does not contain rootfs directory at '", root_rel_path, "'"),
            ),
        );
    }
    Ok(())
}

/// `kuro delete` needs a loaded state, and refuses a `Running` container
/// unless forced. On success it gives the pid that cleanup is to take.
pub fn check_deletable(state: Option<&ContainerState>, container_id: &str, force: bool) -> (r:
    Result<i32, KuroError>)
    ensures
        state is None ==> (r matches Err(e) && e@ == (ErrorView::ContainerNotFound {
            id: container_id@,
        })),
        state matches Some(s) ==> {
            if s.status == ContainerStatus::Running && !force {
                (r matches Err(e) && e@ == ErrorView::InvalidArgs(
                    "Container "@ + container_id@
                        + " is currently running; use '--force' to kill a running container"@,
                ))
            } else {
                r == Ok::<i32, KuroError>(s.pid)
            }
        },
{
    match state {
        None => Err(KuroError::ContainerNotFound { id: String::from_str(container_id) }),
        Some(s) => {
            if s.status == ContainerStatus::Running && !force {
                Err(
                    KuroError::InvalidArgs(
                        concat3(
                            "Container ",
                            container_id,
                            " is currently running; use '--force' to kill a running container",
                        ),
                    ),
                )
            } else {
                Ok(s.pid)
            }
        },
    }
}

} // verus!
