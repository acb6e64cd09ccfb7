use nsticky::daemon::{start, StartupError};
use nsticky::watcher::Watcher;

#[test]
fn the_daemon_starts_empty_and_disconnected() {
    let daemon = start(true, true).ok().unwrap();
    assert_eq!(daemon.sticky.snapshot(), Vec::<u64>::new());
    assert_eq!(daemon.watcher, Watcher::Disconnected);
}

#[test]
fn the_daemon_does_not_start_without_its_control_socket() {
    assert_eq!(start(false, true).err(), Some(StartupError::ControlSocketUnavailable));
    assert_eq!(start(false, false).err(), Some(StartupError::ControlSocketUnavailable));
}

#[test]
fn the_daemon_does_not_start_without_the_compositor() {
    assert_eq!(start(true, false).err(), Some(StartupError::CompositorNotConfigured));
}
