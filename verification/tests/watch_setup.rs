use apache_log_exporter::log_file_pattern::LogFilePath;
use apache_log_exporter::log_file_watcher::ask_platform;
use apache_log_exporter::log_file_watcher::check_watch_target;
use apache_log_exporter::log_file_watcher::start_log_watcher;
use apache_log_exporter::log_file_watcher::watch_target;
use apache_log_exporter::log_file_watcher::LogFileKind;
use apache_log_exporter::log_file_watcher::LogFileMetadata;
use apache_log_exporter::log_file_watcher::LogWatcherConfiguration;
use apache_log_exporter::log_file_watcher::PathAnswer;
use apache_log_exporter::log_file_watcher::StartError;
use apache_log_exporter::log_file_watcher::EVENT_QUEUE_CAPACITY;
use apache_log_exporter::metrics::Metrics;
use apache_log_exporter::web::handle;
use notify::event::DataChange;
use notify::event::ModifyKind;
use notify::Event;
use notify::EventKind;
use std::path::PathBuf;

fn file(path: &str, label: &str) -> LogFilePath {
    LogFilePath { path: path.to_string(), label: label.to_string() }
}

fn modified(path: &str) -> Event {
    Event::new(EventKind::Modify(ModifyKind::Data(DataChange::Any))).add_path(PathBuf::from(path))
}

fn has_line(text: &str, line: &str) -> bool {
    text.lines().any(|l| l == line)
}

#[test]
fn watching_nothing_is_an_error() {
    let (_registry, mut metrics) = Metrics::new();
    assert_eq!(LogWatcherConfiguration::new().start(&mut metrics).err(), Some(StartError::NoLogFiles));
    assert_eq!(start_log_watcher(vec![], vec![], &mut metrics).err(), Some(StartError::NoLogFiles));
}

#[test]
fn a_relative_path_fails_the_startup() {
    let (registry, mut metrics) = Metrics::new();
    let result = start_log_watcher(vec![file("logs/access.log", "a")], vec![], &mut metrics);
    assert_eq!(result.err(), Some(StartError::PathNotAbsolute));
    let result = start_log_watcher(
        vec![file("/log/a.log", "a")],
        vec![file("/log/e.log", "e"), file("logs/error.log", "r")],
        &mut metrics,
    );
    assert_eq!(result.err(), Some(StartError::PathNotAbsolute));
    assert!(!handle(Some(&registry)).body.contains("file="));
}

#[test]
fn a_path_without_parent_fails_the_startup() {
    let (registry, mut metrics) = Metrics::new();
    let result = start_log_watcher(vec![file("/log/a.log", "a"), file("/", "root")], vec![], &mut metrics);
    assert_eq!(result.err(), Some(StartError::PathHasNoParent));
    assert!(!handle(Some(&registry)).body.contains("file="));
}

#[test]
fn the_first_file_that_cannot_be_watched_gives_the_error() {
    let (_registry, mut metrics) = Metrics::new();
    let result = start_log_watcher(vec![file("/", "root"), file("a.log", "a")], vec![], &mut metrics);
    assert_eq!(result.err(), Some(StartError::PathHasNoParent));
    let result = start_log_watcher(vec![file("a.log", "a")], vec![file("/", "root")], &mut metrics);
    assert_eq!(result.err(), Some(StartError::PathNotAbsolute));
}

#[test]
fn the_answer_kept_with_a_file_decides() {
    let (_registry, mut metrics) = Metrics::new();
    let mut configuration = LogWatcherConfiguration::new();
    configuration.add_file_with_answer(
        file("/log/a.log", "a"),
        LogFileKind::Access,
        PathAnswer { is_absolute: true, parent: Some("/log".to_string()) },
    );
    configuration.add_file_with_answer(
        file("/log/b.log", "b"),
        LogFileKind::Access,
        PathAnswer { is_absolute: false, parent: Some("/log".to_string()) },
    );
    assert_eq!(configuration.directories(), Err(StartError::PathNotAbsolute));
    assert_eq!(configuration.start(&mut metrics).err(), Some(StartError::PathNotAbsolute));

    let mut configuration = LogWatcherConfiguration::new();
    configuration.add_file_with_answer(
        file("/log/a.log", "a"),
        LogFileKind::Access,
        PathAnswer { is_absolute: true, parent: Some("/elsewhere".to_string()) },
    );
    assert_eq!(configuration.directories(), Ok(vec!["/elsewhere".to_string()]));
    let watch = configuration.start(&mut metrics).ok().unwrap();
    assert_eq!(watch.files[0].directory, "/elsewhere");
}

#[test]
fn the_platform_is_asked_about_each_path() {
    let answer = ask_platform("/var/log/access.log");
    assert!(answer.is_absolute);
    assert_eq!(answer.parent, Some("/var/log".to_string()));
    let answer = ask_platform("access.log");
    assert!(!answer.is_absolute);
    assert_eq!(answer.parent, Some("".to_string()));
    let answer = ask_platform("");
    assert!(!answer.is_absolute);
    assert_eq!(answer.parent, None);
}

#[test]
fn every_file_has_its_directory() {
    let (_registry, mut metrics) = Metrics::new();
    let watch = start_log_watcher(
        vec![file("/var/log/a/access.log", "a")],
        vec![file("/var/log/error.log", "")],
        &mut metrics,
    )
    .ok()
    .unwrap();
    let directories: Vec<String> = watch.files.iter().map(|f| f.directory.clone()).collect();
    assert_eq!(directories, vec!["/var/log/a".to_string(), "/var/log".to_string()]);
}

#[test]
fn the_counters_of_every_file_exist_after_the_start() {
    let (registry, mut metrics) = Metrics::new();
    metrics.record_line(&LogFileMetadata { kind: LogFileKind::Access, label: "a".to_string() });
    let watch = start_log_watcher(
        vec![file("/log/a.log", "a"), file("/log/b.log", "b")],
        vec![file("/log/e.log", "e")],
        &mut metrics,
    );
    assert!(watch.is_ok());
    let body = handle(Some(&registry)).body;
    assert!(has_line(&body, "apache_requests_total{file=\"a\"} 1"));
    assert!(has_line(&body, "apache_errors_total{file=\"a\"} 0"));
    assert!(has_line(&body, "apache_requests_total{file=\"b\"} 0"));
    assert!(has_line(&body, "apache_errors_total{file=\"b\"} 0"));
    assert!(has_line(&body, "apache_requests_total{file=\"e\"} 0"));
    assert!(has_line(&body, "apache_errors_total{file=\"e\"} 0"));
}

#[test]
fn files_are_counted_by_kind() {
    let mut configuration = LogWatcherConfiguration::new();
    assert_eq!(configuration.len(), 0);
    assert_eq!(configuration.count_files_of_kind(LogFileKind::Access), 0);
    configuration.add_file(file("/log/a.log", "a"), LogFileKind::Access);
    configuration.add_file(file("/log/e.log", "e"), LogFileKind::Error);
    configuration.add_file(file("/log/b.log", "b"), LogFileKind::Access);
    assert_eq!(configuration.len(), 3);
    assert_eq!(configuration.count_files_of_kind(LogFileKind::Access), 2);
    assert_eq!(configuration.count_files_of_kind(LogFileKind::Error), 1);
}

#[test]
fn every_file_gets_its_own_queue() {
    let (_registry, mut metrics) = Metrics::new();
    let watch = start_log_watcher(
        vec![file("/log/a.log", "a"), file("/log/b.log", "b")],
        vec![file("/log/e.log", "")],
        &mut metrics,
    )
    .ok()
    .unwrap();
    let mut files = watch.files;
    let described: Vec<(String, LogFileKind, String)> =
        files.iter().map(|f| (f.path.clone(), f.metadata.kind, f.metadata.label.clone())).collect();
    assert_eq!(
        described,
        vec![
            ("/log/a.log".to_string(), LogFileKind::Access, "a".to_string()),
            ("/log/b.log".to_string(), LogFileKind::Access, "b".to_string()),
            ("/log/e.log".to_string(), LogFileKind::Error, "".to_string()),
        ]
    );
    assert_eq!(watch.callbacks.len(), 3);
    assert_eq!(watch.callbacks.position("/log/e.log"), Some(2));
    assert_eq!(watch.callbacks.handle_event(&modified("/log/b.log")).len(), 1);
    assert!(files[0].fs_event_receiver.try_recv().is_err());
    assert!(files[1].fs_event_receiver.try_recv().is_ok());
    assert!(files[2].fs_event_receiver.try_recv().is_err());
}

#[test]
fn a_queue_holds_a_short_burst_and_no_more() {
    assert_eq!(EVENT_QUEUE_CAPACITY, 20);
    let (_registry, mut metrics) = Metrics::new();
    let watch =
        start_log_watcher(vec![file("/log/a.log", "a")], vec![file("/log/e.log", "e")], &mut metrics).ok().unwrap();
    let mut files = watch.files;
    for _ in 0..25 {
        watch.callbacks.handle_event(&modified("/log/a.log"));
    }
    watch.callbacks.handle_event(&modified("/log/e.log"));
    let mut got = 0;
    while files[0].fs_event_receiver.try_recv().is_ok() {
        got += 1;
    }
    assert_eq!(got, 20);
    assert!(files[1].fs_event_receiver.try_recv().is_ok());
}

#[test]
fn a_path_given_twice_is_registered_once() {
    let (_registry, mut metrics) = Metrics::new();
    let watch =
        start_log_watcher(vec![file("/log/a.log", "a")], vec![file("/log/a.log", "a")], &mut metrics).ok().unwrap();
    let mut files = watch.files;
    assert_eq!(files.len(), 2);
    assert_eq!(watch.callbacks.len(), 1);
    watch.callbacks.handle_event(&modified("/log/a.log"));
    assert!(files[0].fs_event_receiver.try_recv().is_err());
    assert!(files[1].fs_event_receiver.try_recv().is_ok());
}

#[test]
fn the_directory_of_a_file_is_what_is_subscribed() {
    assert_eq!(watch_target("/var/log/apache2/access.log"), Ok("/var/log/apache2".to_string()));
    assert_eq!(watch_target("/access.log"), Ok("/".to_string()));
}

#[test]
fn a_relative_path_cannot_be_watched() {
    assert_eq!(watch_target("logs/access.log"), Err(StartError::PathNotAbsolute));
    assert_eq!(watch_target("access.log"), Err(StartError::PathNotAbsolute));
    assert_eq!(watch_target(""), Err(StartError::PathNotAbsolute));
}

#[test]
fn a_path_without_parent_cannot_be_watched() {
    assert_eq!(watch_target("/"), Err(StartError::PathHasNoParent));
}

#[test]
fn the_relative_path_is_found_wrong_first() {
    assert_eq!(check_watch_target(false, None), Err(StartError::PathNotAbsolute));
    assert_eq!(check_watch_target(false, Some("logs".to_string())), Err(StartError::PathNotAbsolute));
    assert_eq!(check_watch_target(true, None), Err(StartError::PathHasNoParent));
    assert_eq!(check_watch_target(true, Some("/logs".to_string())), Ok("/logs".to_string()));
}

#[test]
fn start_errors_in_words() {
    assert_eq!(StartError::NoLogFiles.message(""), "No log files provided");
    assert_eq!(StartError::PathNotAbsolute.message("a/b.log"), "Path is not absolute: a/b.log");
    assert_eq!(StartError::PathHasNoParent.message("/"), "Path has no parent: /");
}

#[test]
fn the_label_set_has_the_one_label_file() {
    let metadata = LogFileMetadata { kind: LogFileKind::Error, label: "site".to_string() };
    assert_eq!(metadata.get_label_set(), [("file", "site".to_string())]);
}
