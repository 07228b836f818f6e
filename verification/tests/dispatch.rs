use std::path::PathBuf;

use apache_log_exporter::fs_watcher::after_unwatch;
use apache_log_exporter::fs_watcher::may_watch_after;
use apache_log_exporter::fs_watcher::Delivery;
use apache_log_exporter::fs_watcher::FsEventCallbacks;
use apache_log_exporter::fs_watcher::SendOutcome;
use notify::event::DataChange;
use notify::event::ModifyKind;
use notify::Event;
use notify::EventKind;
use tokio::sync::mpsc::channel;

fn modified(paths: &[&str]) -> Event {
    let mut event = Event::new(EventKind::Modify(ModifyKind::Data(DataChange::Any)));
    for path in paths {
        event = event.add_path(PathBuf::from(path));
    }
    event
}

fn delivered(target: usize) -> Delivery {
    Delivery { target, outcome: SendOutcome::Delivered }
}

#[test]
fn an_event_reaches_the_consumer_of_its_path() {
    let (a, mut a_rx) = channel::<Event>(20);
    let (b, mut b_rx) = channel::<Event>(20);
    let mut callbacks = FsEventCallbacks::new();
    callbacks.register("/log/a.log", a);
    callbacks.register("/log/b.log", b);
    assert_eq!(callbacks.len(), 2);
    let deliveries = callbacks.handle_event(&modified(&["/log/b.log"]));
    assert_eq!(deliveries, vec![delivered(1)]);
    assert!(a_rx.try_recv().is_err());
    let got = b_rx.try_recv().unwrap();
    assert_eq!(got.paths, vec![PathBuf::from("/log/b.log")]);
    assert!(b_rx.try_recv().is_err());
}

#[test]
fn an_event_about_several_paths_goes_to_each_consumer() {
    let (a, mut a_rx) = channel::<Event>(20);
    let (b, mut b_rx) = channel::<Event>(20);
    let mut callbacks = FsEventCallbacks::new();
    callbacks.register("/log/a.log", a);
    callbacks.register("/log/b.log", b);
    let deliveries = callbacks.handle_event(&modified(&["/log/b.log", "/log/none.log", "/log/a.log"]));
    assert_eq!(deliveries, vec![delivered(1), delivered(0)]);
    assert!(a_rx.try_recv().is_ok());
    assert!(b_rx.try_recv().is_ok());
}

#[test]
fn an_event_about_no_registered_path_goes_nowhere() {
    let (a, mut a_rx) = channel::<Event>(20);
    let mut callbacks = FsEventCallbacks::new();
    callbacks.register("/log/a.log", a);
    assert_eq!(callbacks.handle_event(&modified(&["/log/a.log.1"])), vec![]);
    assert_eq!(callbacks.handle_event(&modified(&["/log"])), vec![]);
    assert_eq!(callbacks.handle_event(&modified(&[])), vec![]);
    assert!(a_rx.try_recv().is_err());
}

#[test]
fn registering_a_path_again_replaces_its_consumer() {
    let (first, mut first_rx) = channel::<Event>(20);
    let (other, mut other_rx) = channel::<Event>(20);
    let (second, mut second_rx) = channel::<Event>(20);
    let mut callbacks = FsEventCallbacks::new();
    callbacks.register("/log/a.log", first);
    callbacks.register("/log/b.log", other);
    callbacks.register("/log/a.log", second);
    assert_eq!(callbacks.len(), 2);
    assert_eq!(callbacks.position("/log/a.log"), Some(0));
    assert_eq!(callbacks.position("/log/b.log"), Some(1));
    assert_eq!(callbacks.position("/log/c.log"), None);
    assert_eq!(callbacks.path_of(0), "/log/a.log");
    assert_eq!(callbacks.handle_event(&modified(&["/log/a.log"])), vec![delivered(0)]);
    assert!(second_rx.try_recv().is_ok());
    assert!(first_rx.try_recv().is_err());
    assert!(other_rx.try_recv().is_err());
}

#[test]
fn a_full_queue_holds_up_nobody_else() {
    let (slow, mut slow_rx) = channel::<Event>(2);
    let (fast, mut fast_rx) = channel::<Event>(20);
    let mut callbacks = FsEventCallbacks::new();
    callbacks.register("/log/slow.log", slow);
    callbacks.register("/log/fast.log", fast);
    for round in 0..10 {
        let deliveries = callbacks.handle_event(&modified(&["/log/slow.log", "/log/fast.log"]));
        let slow_outcome = if round < 2 { SendOutcome::Delivered } else { SendOutcome::Full };
        assert_eq!(
            deliveries,
            vec![Delivery { target: 0, outcome: slow_outcome }, delivered(1)]
        );
    }
    let mut fast_got = 0;
    while fast_rx.try_recv().is_ok() {
        fast_got += 1;
    }
    assert_eq!(fast_got, 10);
    let mut slow_got = 0;
    while slow_rx.try_recv().is_ok() {
        slow_got += 1;
    }
    assert_eq!(slow_got, 2);
}

#[test]
fn a_closed_queue_is_reported_and_passed_over() {
    let (gone, gone_rx) = channel::<Event>(2);
    let (live, mut live_rx) = channel::<Event>(2);
    drop(gone_rx);
    let mut callbacks = FsEventCallbacks::new();
    callbacks.register("/log/gone.log", gone);
    callbacks.register("/log/live.log", live);
    let deliveries = callbacks.handle_event(&modified(&["/log/gone.log", "/log/live.log"]));
    assert_eq!(
        deliveries,
        vec![Delivery { target: 0, outcome: SendOutcome::Closed }, delivered(1)]
    );
    assert!(live_rx.try_recv().is_ok());
}

#[test]
fn targets_follow_the_order_of_the_events_paths() {
    let (a, _a_rx) = channel::<Event>(2);
    let (b, _b_rx) = channel::<Event>(2);
    let mut callbacks = FsEventCallbacks::new();
    callbacks.register("/log/a.log", a);
    callbacks.register("/log/b.log", b);
    let paths = vec![
        Some("/log/b.log".to_string()),
        None,
        Some("/log/x.log".to_string()),
        Some("/log/a.log".to_string()),
        Some("/log/b.log".to_string()),
    ];
    assert_eq!(callbacks.targets(&paths), vec![1, 0, 1]);
    let deliveries = callbacks.dispatch(&modified(&[]), &paths);
    assert_eq!(
        deliveries,
        vec![
            delivered(1),
            delivered(0),
            delivered(1),
        ]
    );
}

#[test]
fn a_missing_watch_does_not_stand_in_the_way() {
    assert!(after_unwatch(Ok(())).is_ok());
    assert!(after_unwatch(Err(notify::Error::new(notify::ErrorKind::WatchNotFound))).is_ok());
    let failed = after_unwatch(Err(notify::Error::new(notify::ErrorKind::PathNotFound)));
    assert!(matches!(failed, Err(e) if matches!(e.kind, notify::ErrorKind::PathNotFound)));
    let failed = after_unwatch(Err(notify::Error::generic("broken")));
    assert!(matches!(failed, Err(e) if matches!(e.kind, notify::ErrorKind::Generic(_))));
}

#[test]
fn when_a_path_may_be_watched() {
    assert!(may_watch_after(false, false));
    assert!(may_watch_after(false, true));
    assert!(may_watch_after(true, true));
    assert!(!may_watch_after(true, false));
}
