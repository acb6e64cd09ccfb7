//! The control server's decisions: what a request does to the sticky set and what the
//! client is told.
//!
//! The caller owns the socket and the compositor. It hands each thing that happens on a
//! connection to [`handle_cli_connection`], does what the returned action says, and comes
//! back with the outcome, until the connection is closed.

use crate::compositor::CompositorError;
use crate::protocol::{parse_command, parse_line, refusal, Command, Reply};
use crate::sticky::{is_listing_of, AddOutcome, RemoveOutcome, StickySet};
use std::collections::HashSet;
use vstd::prelude::*;

verus! {

broadcast use vstd::std_specs::hash::group_hash_axioms;

/// What `add <id>` does: nothing for a window that does not exist, else `id` becomes a member.
pub open spec fn add_effect(sticky: Set<u64>, windows: Set<u64>, id: u64) -> (Set<u64>, Reply) {
    if !windows.contains(id) {
        (sticky, Reply::WindowNotFound)
    } else if sticky.contains(id) {
        (sticky, Reply::AlreadySticky)
    } else {
        (sticky.insert(id), Reply::Added)
    }
}

/// What `remove <id>` does: nothing for a window that does not exist, else `id` is no
/// member any more.
pub open spec fn remove_effect(sticky: Set<u64>, windows: Set<u64>, id: u64) -> (Set<u64>, Reply) {
    if !windows.contains(id) {
        (sticky, Reply::WindowNotFound)
    } else if sticky.contains(id) {
        (sticky.remove(id), Reply::Removed)
    } else {
        (sticky, Reply::NotSticky)
    }
}

/// What `toggle_active` does once the focused window `id` is known: nothing for a window
/// that does not exist, else `id` changes sides.
pub open spec fn toggle_effect(sticky: Set<u64>, windows: Set<u64>, id: u64) -> (Set<u64>, Reply) {
    if !windows.contains(id) {
        (sticky, Reply::ActiveNotFound)
    } else if sticky.contains(id) {
        (sticky.remove(id), Reply::ActiveRemoved)
    } else {
        (sticky.insert(id), Reply::ActiveAdded)
    }
}

/// What `list` answers: the ids of the snapshot that are windows, in the snapshot's order.
pub open spec fn listed(snapshot: Seq<u64>, windows: Set<u64>) -> Seq<u64> {
    snapshot.filter(|id: u64| windows.contains(id))
}

/// Serves `add <id>` against the windows that exist.
pub fn add_window(sticky: &mut StickySet, windows: &HashSet<u64>, id: u64) -> (reply: Reply)
    ensures
        final(sticky)@ == add_effect(old(sticky)@, windows@, id).0,
        reply == add_effect(old(sticky)@, windows@, id).1,
{
    if !windows.contains(&id) {
        return Reply::WindowNotFound;
    }
    match sticky.add(id) {
        AddOutcome::Inserted => Reply::Added,
        AddOutcome::AlreadyPresent => {
            assert(sticky@ =~= old(sticky)@);
            Reply::AlreadySticky
        },
    }
}

/// Serves `remove <id>` against the windows that exist.
pub fn remove_window(sticky: &mut StickySet, windows: &HashSet<u64>, id: u64) -> (reply: Reply)
    ensures
        final(sticky)@ == remove_effect(old(sticky)@, windows@, id).0,
        reply == remove_effect(old(sticky)@, windows@, id).1,
{
    if !windows.contains(&id) {
        return Reply::WindowNotFound;
    }
    match sticky.remove(id) {
        RemoveOutcome::Removed => Reply::Removed,
        RemoveOutcome::NotPresent => {
            assert(sticky@ =~= old(sticky)@);
            Reply::NotSticky
        },
    }
}

/// Serves `toggle_active` for the focused window `id` against the windows that exist.
pub fn toggle_window(sticky: &mut StickySet, windows: &HashSet<u64>, id: u64) -> (reply: Reply)
    ensures
        final(sticky)@ == toggle_effect(old(sticky)@, windows@, id).0,
        reply == toggle_effect(old(sticky)@, windows@, id).1,
{
    if !windows.contains(&id) {
        return Reply::ActiveNotFound;
    }
    if sticky.contains(id) {
        sticky.remove(id);
        Reply::ActiveRemoved
    } else {
        sticky.add(id);
        Reply::ActiveAdded
    }
}

/// Serves `list`: drops from a snapshot of the sticky set what is no window any more.
pub fn list_windows(snapshot: &Vec<u64>, windows: &HashSet<u64>) -> (listing: Vec<u64>)
    ensures
        listing@ == listed(snapshot@, windows@),
{
    let ghost exists_now = |id: u64| windows@.contains(id);
    let mut listing: Vec<u64> = Vec::new();
    let mut at: usize = 0;
    proof {
        reveal(Seq::filter);
        assert(snapshot@.take(0) =~= Seq::<u64>::empty());
    }
    while at < snapshot.len()
        invariant
            at <= snapshot.len(),
            exists_now == |id: u64| windows@.contains(id),
            listing@ == snapshot@.take(at as int).filter(exists_now),
        decreases snapshot.len() - at,
    {
        let id = snapshot[at];
        proof {
            reveal(Seq::filter);
            assert(snapshot@.take(at + 1).drop_last() =~= snapshot@.take(at as int));
        }
        if windows.contains(&id) {
            listing.push(id);
        }
        at += 1;
    }
    assert(snapshot@.take(at as int) =~= snapshot@);
    listing
}

/// A request that waits for the list of windows.
#[derive(Debug, PartialEq, Eq)]
pub enum Pending {
    Add(u64),
    Remove(u64),
    /// `toggle_active`, with the focused window.
    Toggle(u64),
    /// `list`, with the snapshot of the sticky set that was taken when the request came.
    List(Vec<u64>),
}

/// Where a control connection stands.
#[derive(Debug, PartialEq, Eq)]
pub enum Connection {
    /// The request line has not come yet.
    Reading,
    /// `toggle_active` waits for the focused window.
    Focusing,
    /// A request waits for the list of windows.
    Validating(Pending),
    /// Nothing more happens on this connection.
    Closed,
}

/// What happened on a control connection.
#[derive(Debug)]
pub enum Event {
    /// The client sent this line.
    Line(String),
    /// The client closed the connection without a line.
    EndOfInput,
    /// The compositor was asked for the focused window.
    Focused(Result<u64, CompositorError>),
    /// The compositor was asked for its windows.
    Windows(Result<HashSet<u64>, CompositorError>),
}

/// What the caller does next on a control connection.
#[derive(Debug, PartialEq, Eq)]
pub enum Action {
    /// Ask the compositor for the focused window, and come back with `Event::Focused`.
    QueryFocused,
    /// Ask the compositor for its windows, and come back with `Event::Windows`.
    QueryWindows,
    /// Send the reply and close the connection.
    Reply(Reply),
    /// Close the connection without a reply.
    Close,
}

/// What the request line `line` starts, given the sticky set as it is.
pub open spec fn begun(line: Seq<char>, sticky: Set<u64>, next: Connection, action: Action) -> bool {
    match parse_line(line) {
        Ok(Command::Add(id)) => next == Connection::Validating(Pending::Add(id)) && action
            == Action::QueryWindows,
        Ok(Command::Remove(id)) => next == Connection::Validating(Pending::Remove(id)) && action
            == Action::QueryWindows,
        Ok(Command::List) => {
            &&& next matches Connection::Validating(Pending::List(snapshot))
            &&& is_listing_of(snapshot@, sticky)
            &&& action == Action::QueryWindows
        },
        Ok(Command::ToggleActive) => next == Connection::Focusing && action == Action::QueryFocused,
        Err(error) => next == Connection::Closed && action == Action::Reply(refusal(error)),
    }
}

/// What the list of windows settles for the request that waited for it.
pub open spec fn settled(
    pending: Pending,
    windows: Set<u64>,
    before: Set<u64>,
    action: Action,
    after: Set<u64>,
) -> bool {
    match pending {
        Pending::Add(id) => after == add_effect(before, windows, id).0 && action == Action::Reply(
            add_effect(before, windows, id).1,
        ),
        Pending::Remove(id) => after == remove_effect(before, windows, id).0 && action
            == Action::Reply(remove_effect(before, windows, id).1),
        Pending::Toggle(id) => after == toggle_effect(before, windows, id).0 && action
            == Action::Reply(toggle_effect(before, windows, id).1),
        Pending::List(snapshot) => {
            &&& after == before
            &&& action matches Action::Reply(Reply::Listing(ids))
            &&& ids@ == listed(snapshot@, windows)
        },
    }
}

/// One step of a control connection: in state `conn` with the sticky set `before`, the
/// event `event` leads to the state `next`, the action `action` and the sticky set `after`.
///
/// An event that the state does not wait for closes the connection.
pub open spec fn handled(
    conn: Connection,
    event: Event,
    before: Set<u64>,
    next: Connection,
    action: Action,
    after: Set<u64>,
) -> bool {
    match (conn, event) {
        (Connection::Reading, Event::Line(line)) => after == before && begun(
            line@,
            before,
            next,
            action,
        ),
        (Connection::Focusing, Event::Focused(Ok(id))) => {
            &&& after == before
            &&& next == Connection::Validating(Pending::Toggle(id))
            &&& action == Action::QueryWindows
        },
        (Connection::Focusing, Event::Focused(Err(_))) => {
            &&& after == before
            &&& next == Connection::Closed
            &&& action == Action::Reply(Reply::ActiveUnknown)
        },
        (Connection::Validating(pending), Event::Windows(Ok(windows))) => {
            &&& next == Connection::Closed
            &&& settled(pending, windows@, before, action, after)
        },
        (Connection::Validating(_), Event::Windows(Err(_))) => {
            &&& after == before
            &&& next == Connection::Closed
            &&& action == Action::Reply(Reply::WindowsUnknown)
        },
        _ => after == before && next == Connection::Closed && action == Action::Close,
    }
}

/// Starts the request that `line` holds.
fn begin(line: &str, sticky: &StickySet) -> (step: (Connection, Action))
    ensures
        begun(line@, sticky@, step.0, step.1),
{
    match parse_command(line) {
        Ok(Command::Add(id)) => (Connection::Validating(Pending::Add(id)), Action::QueryWindows),
        Ok(Command::Remove(id)) => (
            Connection::Validating(Pending::Remove(id)),
            Action::QueryWindows,
        ),
        Ok(Command::List) => (
            Connection::Validating(Pending::List(sticky.snapshot())),
            Action::QueryWindows,
        ),
        Ok(Command::ToggleActive) => (Connection::Focusing, Action::QueryFocused),
        Err(error) => (Connection::Closed, Action::Reply(error.reply())),
    }
}

/// Settles the request that waited for the list of windows.
fn settle(pending: Pending, windows: &HashSet<u64>, sticky: &mut StickySet) -> (action: Action)
    ensures
        settled(pending, windows@, old(sticky)@, action, final(sticky)@),
{
    match pending {
        Pending::Add(id) => Action::Reply(add_window(sticky, windows, id)),
        Pending::Remove(id) => Action::Reply(remove_window(sticky, windows, id)),
        Pending::Toggle(id) => Action::Reply(toggle_window(sticky, windows, id)),
        Pending::List(snapshot) => Action::Reply(Reply::Listing(list_windows(&snapshot, windows))),
    }
}

/// Decides what a control connection does about an event.
///
/// A connection starts in `Connection::Reading` and serves one request. The caller keeps
/// the sticky set to itself for the length of this call only, and does what the action
/// asks without it.
pub fn handle_cli_connection(conn: Connection, event: Event, sticky: &mut StickySet) -> (step: (
    Connection,
    Action,
))
    ensures
        handled(conn, event, old(sticky)@, step.0, step.1, final(sticky)@),
{
    match (conn, event) {
        (Connection::Reading, Event::Line(line)) => begin(line.as_str(), sticky),
        (Connection::Focusing, Event::Focused(Ok(id))) => (
            Connection::Validating(Pending::Toggle(id)),
            Action::QueryWindows,
        ),
        (Connection::Focusing, Event::Focused(Err(_))) => (
            Connection::Closed,
            Action::Reply(Reply::ActiveUnknown),
        ),
        (Connection::Validating(pending), Event::Windows(Ok(windows))) => (
            Connection::Closed,
            settle(pending, &windows, sticky),
        ),
        (Connection::Validating(_), Event::Windows(Err(_))) => (
            Connection::Closed,
            Action::Reply(Reply::WindowsUnknown),
        ),
        _ => (Connection::Closed, Action::Close),
    }
}

} // verus!
