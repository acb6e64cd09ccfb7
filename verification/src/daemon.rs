//! The daemon's start.

use crate::sticky::StickySet;
use crate::watcher::Watcher;
use vstd::prelude::*;

verus! {

/// Why the daemon does not start.
#[derive(Clone, Copy, Debug, PartialEq, Eq, Structural)]
pub enum StartupError {
    /// The control socket could not be bound.
    ControlSocketUnavailable,
    /// The place of the compositor's socket is not configured.
    CompositorNotConfigured,
}

/// What a daemon that has started holds: the one sticky set that the control server and
/// the reconciler share, and the state of the reconciler.
pub struct Daemon {
    pub sticky: StickySet,
    pub watcher: Watcher,
}

/// Whether the daemon starts, and why not if it does not.
pub open spec fn startup(control_socket_bound: bool, compositor_configured: bool) -> Result<
    (),
    StartupError,
> {
    if !control_socket_bound {
        Err(StartupError::ControlSocketUnavailable)
    } else if !compositor_configured {
        Err(StartupError::CompositorNotConfigured)
    } else {
        Ok(())
    }
}

/// Starts the daemon, or refuses to: it runs with both its control socket and the place
/// of the compositor's socket or not at all. It starts with no sticky window and a
/// reconciler that is not connected yet.
pub fn start(control_socket_bound: bool, compositor_configured: bool) -> (r: Result<
    Daemon,
    StartupError,
>)
    ensures
        match r {
            Ok(daemon) => {
                &&& startup(control_socket_bound, compositor_configured) is Ok
                &&& daemon.sticky@ == Set::<u64>::empty()
                &&& daemon.watcher == Watcher::Disconnected
            },
            Err(error) => startup(control_socket_bound, compositor_configured) == Err::<
                (),
                StartupError,
            >(error),
        },
{
    if !control_socket_bound {
        Err(StartupError::ControlSocketUnavailable)
    } else if !compositor_configured {
        Err(StartupError::CompositorNotConfigured)
    } else {
        Ok(Daemon { sticky: StickySet::new(), watcher: Watcher::Disconnected })
    }
}

} // verus!
