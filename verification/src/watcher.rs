//! The event reconciler's decisions: when a workspace becomes active, the sticky windows
//! that still exist move there and the others are forgotten.
//!
//! The caller owns the connection to the compositor. It hands each thing that happens to
//! [`run_watcher`], does what the returned action says, and comes back with the outcome,
//! until it is told to stop.
//!
//! A reconciler that has lost its connection stops for good: it does not connect again.
//! The sticky set stays as it is and the control server goes on, but no window moves
//! until the daemon is started anew.

use crate::compositor::{CompositorError, CompositorEvent};
use crate::sticky::{is_listing_of, StickySet};
use std::collections::HashSet;
use vstd::prelude::*;

verus! {

broadcast use vstd::std_specs::hash::group_hash_axioms;

/// Where the reconciler stands.
#[derive(Clone, Copy, Debug, PartialEq, Eq, Structural)]
pub enum Watcher {
    /// No connection to the compositor.
    Disconnected,
    /// Connected; the event stream is not asked for yet.
    Connected,
    /// The event stream is asked for; no event was read yet.
    Subscribed,
    /// Events are being read.
    Streaming,
    /// The workspace with this id became active; the list of windows is awaited.
    Reconciling(u64),
    /// The stream has ended. Nothing more happens.
    Stopped,
}

/// What happened to the reconciler.
#[derive(Debug)]
pub enum WatchEvent {
    /// The reconciler is started.
    Start,
    /// The connection to the compositor is open.
    Connected,
    /// The request for the event stream is sent.
    Subscribed,
    /// A line of the stream was read and decoded.
    Stream(CompositorEvent),
    /// The compositor was asked for its windows.
    Windows(Result<HashSet<u64>, CompositorError>),
    /// The moves were asked for, whether or not each one succeeded.
    Moved,
    /// The connection could not be opened, or it has ended or failed.
    Lost,
}

/// What the caller does next for the reconciler.
#[derive(Debug, PartialEq, Eq)]
pub enum WatchAction {
    /// Connect to the compositor, and come back with `WatchEvent::Connected`.
    Connect,
    /// Send the request for the event stream, and come back with `WatchEvent::Subscribed`.
    Subscribe,
    /// Read a line of the stream, and come back with `WatchEvent::Stream`.
    ReadLine,
    /// Ask the compositor for its windows, and come back with `WatchEvent::Windows`.
    QueryWindows,
    /// Ask the compositor to move each of these windows to the workspace, go on after a
    /// move that fails, and come back with `WatchEvent::Moved`.
    Move(Vec<u64>, u64),
    /// Give up.
    Stop,
}

/// The windows that a query found. A query that failed found none.
pub open spec fn found(windows: Result<HashSet<u64>, CompositorError>) -> Set<u64> {
    match windows {
        Ok(ids) => ids@,
        Err(_) => Set::empty(),
    }
}

/// One step of the reconciler: in state `state` with the sticky set `before`, the event
/// `event` leads to the state `next`, the action `action` and the sticky set `after`.
///
/// Only the list of windows that a reconciliation waited for changes the sticky set. An
/// event that the state does not wait for stops the reconciler.
pub open spec fn watched(
    state: Watcher,
    event: WatchEvent,
    before: Set<u64>,
    next: Watcher,
    action: WatchAction,
    after: Set<u64>,
) -> bool {
    match (state, event) {
        (Watcher::Disconnected, WatchEvent::Start) => {
            &&& after == before
            &&& next == Watcher::Disconnected
            &&& action == WatchAction::Connect
        },
        (Watcher::Disconnected, WatchEvent::Connected) => {
            &&& after == before
            &&& next == Watcher::Connected
            &&& action == WatchAction::Subscribe
        },
        (Watcher::Connected, WatchEvent::Subscribed) => {
            &&& after == before
            &&& next == Watcher::Subscribed
            &&& action == WatchAction::ReadLine
        },
        (Watcher::Subscribed, WatchEvent::Stream(seen)) | (
            Watcher::Streaming,
            WatchEvent::Stream(seen),
        ) => {
            &&& after == before
            &&& match seen {
                CompositorEvent::WorkspaceActivated(workspace) => {
                    &&& next == Watcher::Reconciling(workspace)
                    &&& action == WatchAction::QueryWindows
                },
                _ => next == Watcher::Streaming && action == WatchAction::ReadLine,
            }
        },
        (Watcher::Reconciling(workspace), WatchEvent::Windows(windows)) => {
            &&& after == before.intersect(found(windows))
            &&& next == Watcher::Streaming
            &&& action matches WatchAction::Move(survivors, to)
            &&& to == workspace
            &&& is_listing_of(survivors@, after)
        },
        (Watcher::Streaming, WatchEvent::Moved) => {
            &&& after == before
            &&& next == Watcher::Streaming
            &&& action == WatchAction::ReadLine
        },
        _ => after == before && next == Watcher::Stopped && action == WatchAction::Stop,
    }
}

/// Forgets the sticky windows that are not among `windows`, and lists those that are left.
pub fn reconcile(sticky: &mut StickySet, windows: &HashSet<u64>) -> (survivors: Vec<u64>)
    ensures
        final(sticky)@ == old(sticky)@.intersect(windows@),
        is_listing_of(survivors@, final(sticky)@),
{
    let exists_now = |id: u64| -> (keep: bool)
        ensures
            keep == windows@.contains(id),
        { windows.contains(&id) };
    sticky.retain(exists_now);
    assert(sticky@ =~= old(sticky)@.intersect(windows@));
    sticky.snapshot()
}

/// Decides what the reconciler does about an event.
///
/// The reconciler starts in `Watcher::Disconnected` with `WatchEvent::Start`. The caller
/// keeps the sticky set to itself for the length of this call only, and does what the
/// action asks without it.
pub fn run_watcher(state: Watcher, event: WatchEvent, sticky: &mut StickySet) -> (step: (
    Watcher,
    WatchAction,
))
    ensures
        watched(state, event, old(sticky)@, step.0, step.1, final(sticky)@),
{
    match (state, event) {
        (Watcher::Disconnected, WatchEvent::Start) => (Watcher::Disconnected, WatchAction::Connect),
        (Watcher::Disconnected, WatchEvent::Connected) => (
            Watcher::Connected,
            WatchAction::Subscribe,
        ),
        (Watcher::Connected, WatchEvent::Subscribed) => (Watcher::Subscribed, WatchAction::ReadLine),
        (Watcher::Subscribed, WatchEvent::Stream(seen)) | (
            Watcher::Streaming,
            WatchEvent::Stream(seen),
        ) => match seen {
            CompositorEvent::WorkspaceActivated(workspace) => (
                Watcher::Reconciling(workspace),
                WatchAction::QueryWindows,
            ),
            _ => (Watcher::Streaming, WatchAction::ReadLine),
        },
        (Watcher::Reconciling(workspace), WatchEvent::Windows(windows)) => {
            let survivors = match windows {
                Ok(ids) => reconcile(sticky, &ids),
                Err(_) => reconcile(sticky, &HashSet::new()),
            };
            (Watcher::Streaming, WatchAction::Move(survivors, workspace))
        },
        (Watcher::Streaming, WatchEvent::Moved) => (Watcher::Streaming, WatchAction::ReadLine),
        _ => (Watcher::Stopped, WatchAction::Stop),
    }
}

} // verus!
