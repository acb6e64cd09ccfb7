use nsticky::compositor::{CompositorError, CompositorEvent};
use nsticky::sticky::StickySet;
use nsticky::watcher::{reconcile, run_watcher, WatchAction, WatchEvent, Watcher};
use std::collections::HashSet;

fn set(ids: &[u64]) -> HashSet<u64> {
    ids.iter().copied().collect()
}

fn sticky(ids: &[u64]) -> StickySet {
    let mut sticky = StickySet::new();
    for id in ids {
        sticky.add(*id);
    }
    sticky
}

#[test]
fn reconciliation_drops_the_window_that_is_gone_and_moves_the_others() {
    let mut sticky = sticky(&[1, 2, 3]);
    let (state, action) = run_watcher(
        Watcher::Streaming,
        WatchEvent::Stream(CompositorEvent::WorkspaceActivated(9)),
        &mut sticky,
    );
    assert_eq!((state, action), (Watcher::Reconciling(9), WatchAction::QueryWindows));
    assert_eq!(sticky.snapshot(), vec![1, 2, 3]);
    let (state, action) = run_watcher(state, WatchEvent::Windows(Ok(set(&[1, 3]))), &mut sticky);
    assert_eq!((state, action), (Watcher::Streaming, WatchAction::Move(vec![1, 3], 9)));
    assert_eq!(sticky.snapshot(), vec![1, 3]);
    let (state, action) = run_watcher(state, WatchEvent::Moved, &mut sticky);
    assert_eq!((state, action), (Watcher::Streaming, WatchAction::ReadLine));
    assert_eq!(sticky.snapshot(), vec![1, 3]);
}

#[test]
fn reconcile_keeps_what_exists() {
    let mut set_a = sticky(&[1, 2, 3]);
    assert_eq!(reconcile(&mut set_a, &set(&[1, 3])), vec![1, 3]);
    assert_eq!(set_a.snapshot(), vec![1, 3]);
    assert_eq!(reconcile(&mut set_a, &set(&[1, 3, 4, 5])), vec![1, 3]);
    assert_eq!(reconcile(&mut set_a, &set(&[4])), Vec::<u64>::new());
    assert_eq!(set_a.snapshot(), Vec::<u64>::new());
    assert_eq!(reconcile(&mut StickySet::new(), &set(&[4])), Vec::<u64>::new());
}

#[test]
fn a_failed_window_query_counts_as_no_windows() {
    let mut sticky = sticky(&[1, 2]);
    let (state, action) = run_watcher(
        Watcher::Reconciling(4),
        WatchEvent::Windows(Err(CompositorError::QueryFailed)),
        &mut sticky,
    );
    assert_eq!((state, action), (Watcher::Streaming, WatchAction::Move(vec![], 4)));
    assert_eq!(sticky.snapshot(), Vec::<u64>::new());
}

#[test]
fn the_reconciler_connects_subscribes_and_reads() {
    let mut sticky = sticky(&[1]);
    let (state, action) = run_watcher(Watcher::Disconnected, WatchEvent::Start, &mut sticky);
    assert_eq!((state, action), (Watcher::Disconnected, WatchAction::Connect));
    let (state, action) = run_watcher(state, WatchEvent::Connected, &mut sticky);
    assert_eq!((state, action), (Watcher::Connected, WatchAction::Subscribe));
    let (state, action) = run_watcher(state, WatchEvent::Subscribed, &mut sticky);
    assert_eq!((state, action), (Watcher::Subscribed, WatchAction::ReadLine));
    let (state, action) = run_watcher(state, WatchEvent::Stream(CompositorEvent::Other), &mut sticky);
    assert_eq!((state, action), (Watcher::Streaming, WatchAction::ReadLine));
    assert_eq!(sticky.snapshot(), vec![1]);
}

#[test]
fn the_first_line_of_the_stream_may_be_an_activation() {
    let mut sticky = StickySet::new();
    let (state, action) = run_watcher(
        Watcher::Subscribed,
        WatchEvent::Stream(CompositorEvent::WorkspaceActivated(2)),
        &mut sticky,
    );
    assert_eq!((state, action), (Watcher::Reconciling(2), WatchAction::QueryWindows));
}

#[test]
fn other_events_and_undecodable_lines_are_skipped() {
    let mut sticky = sticky(&[1, 2]);
    for seen in [CompositorEvent::Other, CompositorEvent::Undecodable] {
        for state in [Watcher::Subscribed, Watcher::Streaming] {
            let step = run_watcher(state, WatchEvent::Stream(seen), &mut sticky);
            assert_eq!(step, (Watcher::Streaming, WatchAction::ReadLine));
        }
    }
    assert_eq!(sticky.snapshot(), vec![1, 2]);
}

#[test]
fn a_lost_connection_stops_the_reconciler_for_good() {
    let mut sticky = sticky(&[1]);
    for state in [
        Watcher::Disconnected,
        Watcher::Connected,
        Watcher::Subscribed,
        Watcher::Streaming,
        Watcher::Reconciling(3),
        Watcher::Stopped,
    ] {
        let step = run_watcher(state, WatchEvent::Lost, &mut sticky);
        assert_eq!(step, (Watcher::Stopped, WatchAction::Stop));
    }
    for event in [
        WatchEvent::Start,
        WatchEvent::Connected,
        WatchEvent::Subscribed,
        WatchEvent::Stream(CompositorEvent::WorkspaceActivated(1)),
        WatchEvent::Windows(Ok(set(&[]))),
        WatchEvent::Moved,
    ] {
        let step = run_watcher(Watcher::Stopped, event, &mut sticky);
        assert_eq!(step, (Watcher::Stopped, WatchAction::Stop));
    }
    assert_eq!(sticky.snapshot(), vec![1]);
}

#[test]
fn an_event_that_is_not_awaited_stops_the_reconciler() {
    let mut sticky = sticky(&[1]);
    let steps = [
        (Watcher::Disconnected, WatchEvent::Subscribed),
        (Watcher::Connected, WatchEvent::Connected),
        (Watcher::Connected, WatchEvent::Stream(CompositorEvent::WorkspaceActivated(1))),
        (Watcher::Subscribed, WatchEvent::Windows(Ok(set(&[])))),
        (Watcher::Streaming, WatchEvent::Windows(Ok(set(&[])))),
        (Watcher::Reconciling(1), WatchEvent::Moved),
        (Watcher::Reconciling(1), WatchEvent::Stream(CompositorEvent::Other)),
    ];
    for (state, event) in steps {
        let step = run_watcher(state, event, &mut sticky);
        assert_eq!(step, (Watcher::Stopped, WatchAction::Stop));
    }
    assert_eq!(sticky.snapshot(), vec![1]);
}
