use apache_log_exporter::startup::begin;
use apache_log_exporter::startup::StartupAction;
use apache_log_exporter::startup::StartupEvent;
use apache_log_exporter::startup::StartupFailure;
use apache_log_exporter::startup::StartupState;
use apache_log_exporter::startup::StartupStep;

fn actions(files: usize, events: &[StartupEvent]) -> Vec<StartupAction> {
    let mut step = begin(files);
    let mut asked = vec![step.action];
    for event in events {
        step = step.next.step(*event, files);
        asked.push(step.action);
    }
    asked
}

#[test]
fn every_file_passes_before_a_tailer_starts() {
    let asked = actions(2, &[StartupEvent::Succeeded; 5]);
    assert_eq!(
        asked,
        vec![
            StartupAction::CreateWatcher,
            StartupAction::WatchDirectory(0),
            StartupAction::WatchDirectory(1),
            StartupAction::OpenFile(0),
            StartupAction::OpenFile(1),
            StartupAction::SpawnTailers,
        ]
    );
}

#[test]
fn one_file_takes_three_steps() {
    let asked = actions(1, &[StartupEvent::Succeeded; 4]);
    assert_eq!(
        asked,
        vec![
            StartupAction::CreateWatcher,
            StartupAction::WatchDirectory(0),
            StartupAction::OpenFile(0),
            StartupAction::SpawnTailers,
            StartupAction::Idle,
        ]
    );
}

#[test]
fn nothing_to_watch_is_a_failure() {
    assert_eq!(
        begin(0),
        StartupStep { next: StartupState::Failed, action: StartupAction::Abort(StartupFailure::NothingToWatch) }
    );
    assert_eq!(actions(0, &[StartupEvent::Succeeded]).last(), Some(&StartupAction::Idle));
}

#[test]
fn any_failure_ends_the_startup_without_a_tailer() {
    let reasons = [
        StartupFailure::WatcherNotCreated,
        StartupFailure::DirectoryNotWatched(0),
        StartupFailure::DirectoryNotWatched(1),
        StartupFailure::DirectoryNotWatched(2),
        StartupFailure::FileNotOpened(0),
        StartupFailure::FileNotOpened(1),
        StartupFailure::FileNotOpened(2),
    ];
    for (failing, reason) in reasons.iter().enumerate() {
        let mut events = vec![StartupEvent::Succeeded; failing];
        events.push(StartupEvent::Failed);
        events.extend(vec![StartupEvent::Succeeded; 10]);
        let asked = actions(3, &events);
        assert_eq!(asked[failing + 1], StartupAction::Abort(*reason));
        assert!(!asked.contains(&StartupAction::SpawnTailers));
        assert!(asked[failing + 2..].iter().all(|a| *a == StartupAction::Idle));
    }
}

#[test]
fn a_state_beyond_the_files_is_refused() {
    let refused = StartupStep {
        next: StartupState::Failed,
        action: StartupAction::Abort(StartupFailure::UnexpectedState),
    };
    assert_eq!(StartupState::Subscribing(2).step(StartupEvent::Succeeded, 2), refused);
    assert_eq!(StartupState::Opening(5).step(StartupEvent::Succeeded, 2), refused);
    assert_eq!(StartupState::CreatingWatcher.step(StartupEvent::Succeeded, 0), refused);
}

#[test]
fn a_running_watch_asks_for_nothing() {
    let idle = StartupStep { next: StartupState::Running, action: StartupAction::Idle };
    assert_eq!(StartupState::Running.step(StartupEvent::Succeeded, 2), idle);
    assert_eq!(StartupState::Running.step(StartupEvent::Failed, 2), idle);
}
