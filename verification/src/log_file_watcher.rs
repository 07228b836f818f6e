//! Setting up the watch over a set of log files.
//!
//! The files to follow are collected with their kind and label, and with
//! what the platform says of their paths. Starting refuses a set that is
//! empty and a file that has no directory to subscribe; it then gives each
//! file a bounded queue for its filesystem events, registers the queue's
//! sending half under the file's path, and makes sure that the counters of
//! every file exist. The caller then creates the one watcher, subscribes
//! the directory of each file, and starts a tailer per file.

use notify::Event;
use std::path::Path;
use tokio::sync::mpsc::Receiver;
use tokio::sync::mpsc::Sender;
use vstd::prelude::*;

use crate::fs_watcher::FsEventCallbacks;
use crate::log_file_pattern::LogFilePath;
use crate::metrics::labels_of;
use crate::metrics::registered_all;
use crate::metrics::Metrics;

verus! {

/// How many filesystem events a file's queue holds before further events for
/// that file are dropped.
pub const EVENT_QUEUE_CAPACITY: usize = 20;

/// Which of the two kinds of log a file is.
#[derive(Debug, Clone, Copy, PartialEq, Eq, Structural)]
pub enum LogFileKind {
    Access,
    Error,
}

/// What is known of a file besides its path.
#[derive(Debug)]
pub struct LogFileMetadata {
    pub kind: LogFileKind,
    pub label: String,
}

impl LogFileMetadata {
    /// The labels under which the file's counters stand: the one label
    /// `file`, with the file's label as its value.
    pub fn get_label_set(&self) -> (r: [(&'static str, String); 1])
        ensures
            r@.len() == 1,
            r@[0].0@ == "file"@,
            r@[0].1@ == self.label@,
    {
        [("file", self.label.clone())]
    }
}

/// A file to follow, as plain text.
pub struct ConfiguredFile {
    pub path: Seq<char>,
    pub kind: LogFileKind,
    pub label: Seq<char>,
}

/// What the platform says of a path.
#[derive(Debug)]
pub struct PathAnswer {
    pub is_absolute: bool,
    /// The path without its last component; `None` where it has none.
    pub parent: Option<String>,
}

/// What the platform says of a path, as plain text.
pub struct PathAnswerView {
    pub is_absolute: bool,
    pub parent: Option<Seq<char>>,
}

impl View for PathAnswer {
    type V = PathAnswerView;

    open spec fn view(&self) -> PathAnswerView {
        PathAnswerView { is_absolute: self.is_absolute, parent: parent_view(self.parent) }
    }
}

/// Why the watch could not be set up.
#[derive(Debug, Clone, Copy, PartialEq, Eq, Structural)]
pub enum StartError {
    /// There is no file to follow.
    NoLogFiles,
    /// A file's path is relative.
    PathNotAbsolute,
    /// A file's path has no directory above it.
    PathHasNoParent,
}

impl StartError {
    /// The error in words; `path` is the path it is about.
    pub fn message(&self, path: &str) -> (r: String)
        ensures
            r@ == match *self {
                StartError::NoLogFiles => "No log files provided"@,
                StartError::PathNotAbsolute => "Path is not absolute: "@ + path@,
                StartError::PathHasNoParent => "Path has no parent: "@ + path@,
            },
    {
        match self {
            StartError::NoLogFiles => "No log files provided".to_owned(),
            StartError::PathNotAbsolute => "Path is not absolute: ".to_owned().concat(path),
            StartError::PathHasNoParent => "Path has no parent: ".to_owned().concat(path),
        }
    }
}

/// How many of the kinds are `kind`.
pub open spec fn count_of_kind(files: Seq<ConfiguredFile>, kind: LogFileKind) -> nat
    decreases files.len(),
{
    if files.len() == 0 {
        0
    } else {
        count_of_kind(files.drop_last(), kind) + if files.last().kind == kind {
            1nat
        } else {
            0nat
        }
    }
}

/// The paths that end up registered when the given paths are registered one
/// after the other: each path once, at the place of its first occurrence.
pub open spec fn registered_paths(paths: Seq<Seq<char>>) -> Seq<Seq<char>>
    decreases paths.len(),
{
    if paths.len() == 0 {
        Seq::empty()
    } else {
        let front = registered_paths(paths.drop_last());
        if front.contains(paths.last()) {
            front
        } else {
            front.push(paths.last())
        }
    }
}

/// A file as the configuration holds it.
struct ConfiguredEntry {
    path: String,
    metadata: LogFileMetadata,
    answer: PathAnswer,
}

/// The files to follow.
pub struct LogWatcherConfiguration {
    files: Vec<ConfiguredEntry>,
}

/// A file whose event queue is set up.
pub struct PreparedFile {
    pub path: String,
    /// The directory to subscribe for the file.
    pub directory: String,
    pub metadata: LogFileMetadata,
    /// The receiving half of the file's event queue.
    pub fs_event_receiver: Receiver<Event>,
}

impl PreparedFile {
    /// The file as plain text.
    pub open spec fn configured(self) -> ConfiguredFile {
        ConfiguredFile { path: self.path@, kind: self.metadata.kind, label: self.metadata.label@ }
    }
}

/// Everything that starting has set up.
pub struct PreparedWatch {
    /// The table of consumers, to be handed to the watcher.
    pub callbacks: FsEventCallbacks,
    /// The files, in the order in which they were added.
    pub files: Vec<PreparedFile>,
}

/// The prepared files as plain text.
pub open spec fn prepared_view(files: Seq<PreparedFile>) -> Seq<ConfiguredFile> {
    files.map_values(|f: PreparedFile| f.configured())
}

/// The directories to subscribe for the prepared files, in their order.
pub open spec fn directories_of(files: Seq<PreparedFile>) -> Seq<Seq<char>> {
    files.map_values(|f: PreparedFile| f.directory@)
}

/// The paths of files, in their order.
pub open spec fn paths_of(files: Seq<ConfiguredFile>) -> Seq<Seq<char>> {
    files.map_values(|f: ConfiguredFile| f.path)
}

/// The labels of files, in their order.
pub open spec fn labels_of_configured(files: Seq<ConfiguredFile>) -> Seq<Seq<char>> {
    files.map_values(|f: ConfiguredFile| f.label)
}

/// How many events the queue behind a sending half holds: the capacity that
/// the queue was made with.
pub uninterp spec fn queue_limit(sender: Sender<Event>) -> nat;

/// Whether what is sent into the sending half comes out of the receiving
/// half: the two are the halves of one queue.
pub uninterp spec fn feeds(sender: Sender<Event>, receiver: Receiver<Event>) -> bool;

/// Calls `tokio::sync::mpsc::channel`, which makes a bounded queue of the
/// given capacity and returns its two halves. The call panics for a
/// capacity of zero and for one above a limit that is at least
/// `usize::MAX >> 3`; both are left out.
#[verifier::external_body]
pub(crate) fn event_channel(capacity: usize) -> (r: (Sender<Event>, Receiver<Event>))
    requires
        0 < capacity <= 0x1fff_ffff,
    ensures
        queue_limit(r.0) == capacity,
        feeds(r.0, r.1),
{
    tokio::sync::mpsc::channel(capacity)
}

/// Calls `std::path::Path::is_absolute`. What makes a path absolute is the
/// platform's rule, so nothing is claimed of the result.
#[verifier::external_body]
pub(crate) fn path_is_absolute(path: &str) -> bool {
    Path::new(path).is_absolute()
}

/// Calls `std::path::Path::parent` and returns the parent as a string, or
/// `None` where the path has none. How a path divides into components is
/// the platform's rule; what holds everywhere is that the empty path has no
/// parent, and no more is claimed.
#[verifier::external_body]
pub(crate) fn path_parent(path: &str) -> (r: Option<String>)
    ensures
        path@.len() == 0 ==> r is None,
{
    Path::new(path).parent().map(|p| p.to_string_lossy().into_owned())
}

/// The directory to subscribe for a file, where the file can be watched: its
/// path must be absolute and must have a parent, and the parent is the
/// directory. A relative path is the first thing found wrong.
pub open spec fn watch_target_spec(is_absolute: bool, parent: Option<Seq<char>>) -> Result<
    Seq<char>,
    StartError,
> {
    if !is_absolute {
        Err(StartError::PathNotAbsolute)
    } else {
        match parent {
            Some(dir) => Ok(dir),
            None => Err(StartError::PathHasNoParent),
        }
    }
}

/// What the platform says of a path's parent, as plain text.
pub open spec fn parent_view(parent: Option<String>) -> Option<Seq<char>> {
    match parent {
        Some(dir) => Some(dir@),
        None => None,
    }
}

/// The outcome of looking for the directory to subscribe, with the
/// directory as plain text.
pub open spec fn target_view(r: Result<String, StartError>) -> Result<Seq<char>, StartError> {
    match r {
        Ok(dir) => Ok(dir@),
        Err(e) => Err(e),
    }
}

/// Decides from what the platform says of a path which directory to
/// subscribe for it.
pub fn check_watch_target(is_absolute: bool, parent: Option<String>) -> (r: Result<
    String,
    StartError,
>)
    ensures
        match r {
            Ok(dir) => watch_target_spec(
                is_absolute,
                match parent {
                    Some(p) => Some(p@),
                    None => None,
                },
            ) == Ok::<Seq<char>, StartError>(dir@),
            Err(e) => watch_target_spec(
                is_absolute,
                match parent {
                    Some(p) => Some(p@),
                    None => None,
                },
            ) == Err::<Seq<char>, StartError>(e),
        },
{
    if !is_absolute {
        return Err(StartError::PathNotAbsolute);
    }
    match parent {
        Some(dir) => Ok(dir),
        None => Err(StartError::PathHasNoParent),
    }
}

/// Asks the platform about a path: whether it is absolute, and what its
/// parent is. The answers are the platform's; on every platform the empty
/// path has no parent.
pub fn ask_platform(path: &str) -> (r: PathAnswer)
    ensures
        path@.len() == 0 ==> r@.parent is None,
{
    let is_absolute = path_is_absolute(path);
    let parent = path_parent(path);
    PathAnswer { is_absolute, parent }
}

/// The directory to subscribe for the file at `path`, or why the file
/// cannot be watched. Whether the path is absolute and what its parent is
/// are the platform's to say; the result is what `check_watch_target` makes
/// of the answers. On every platform the empty path has no parent, so the
/// empty path can never be watched.
pub fn watch_target(path: &str) -> (r: Result<String, StartError>)
    ensures
        exists|is_absolute: bool, parent: Option<Seq<char>>|
            (path@.len() == 0 ==> parent is None) && target_view(r) == #[trigger] watch_target_spec(
                is_absolute,
                parent,
            ),
        r matches Err(e) ==> e == StartError::PathNotAbsolute || e == StartError::PathHasNoParent,
        path@.len() == 0 ==> r is Err,
{
    let answer = ask_platform(path);
    let ghost answered = answer@;
    let r = check_watch_target(answer.is_absolute, answer.parent);
    assert(target_view(r) == watch_target_spec(answered.is_absolute, answered.parent));
    r
}

/// The directories to subscribe for files of which the platform has said
/// the given things, or the error of the first file that cannot be watched.
pub open spec fn directories_spec(answers: Seq<PathAnswerView>) -> Result<Seq<Seq<char>>, StartError>
    decreases answers.len(),
{
    if answers.len() == 0 {
        Ok(Seq::empty())
    } else {
        match directories_spec(answers.drop_last()) {
            Err(e) => Err(e),
            Ok(front) => match watch_target_spec(answers.last().is_absolute, answers.last().parent) {
                Ok(dir) => Ok(front.push(dir)),
                Err(e) => Err(e),
            },
        }
    }
}

/// Whether no file from place `from` on, up to place `to`, has the path of
/// the file at `from`.
pub open spec fn is_last_with_path(paths: Seq<Seq<char>>, from: int, to: int) -> bool {
    forall|later: int| from < later < to ==> paths[later] != paths[from]
}

/// Whether the queues of a prepared watch are as they have to be: every
/// registered sending half belongs to a queue of `EVENT_QUEUE_CAPACITY`
/// events, every file's path is registered, and the sending half
/// registered under a file's path feeds that file's receiving half. Where
/// several files have the same path, the last of them is the one that is
/// fed.
pub open spec fn queues_are_set_up(watch: PreparedWatch) -> bool {
    let paths = paths_of(prepared_view(watch.files@));
    &&& forall|k: int|
        0 <= k < watch.callbacks.senders().len() ==> queue_limit(
            #[trigger] watch.callbacks.senders()[k],
        ) == EVENT_QUEUE_CAPACITY
    &&& forall|i: int|
        0 <= i < paths.len() ==> watch.callbacks.paths().contains(#[trigger] paths[i])
    &&& forall|i: int|
        0 <= i < paths.len() && #[trigger] is_last_with_path(paths, i, paths.len() as int)
            ==> feeds(watch.callbacks.sender_of(paths[i]), watch.files@[i].fs_event_receiver)
}

/// Whether `r` is what starting the watch over `files` has to return, given
/// what the platform has said of their paths, and whether the counters are
/// as starting has to leave them.
///
/// Without files the error is `NoLogFiles`. Otherwise the first file that
/// has no directory to subscribe gives its error. In both cases no counter
/// is touched. Where every file has its directory, the result is every file
/// in its place with its directory and its own queue, a table that holds
/// each path once, and both counters of every file exist, with the values
/// they had or at zero.
pub open spec fn started(
    files: Seq<ConfiguredFile>,
    answers: Seq<PathAnswerView>,
    before: Metrics,
    after: Metrics,
    r: Result<PreparedWatch, StartError>,
) -> bool {
    if files.len() == 0 {
        &&& r is Err
        &&& r->Err_0 == StartError::NoLogFiles
        &&& after.requests() == before.requests()
        &&& after.errors() == before.errors()
    } else {
        match directories_spec(answers) {
            Err(e) => {
                &&& r is Err
                &&& r->Err_0 == e
                &&& after.requests() == before.requests()
                &&& after.errors() == before.errors()
            },
            Ok(directories) => {
                &&& r is Ok
                &&& r->Ok_0.callbacks.wf()
                &&& r->Ok_0.callbacks.paths() == registered_paths(paths_of(files))
                &&& prepared_view(r->Ok_0.files@) == files
                &&& directories_of(r->Ok_0.files@) == directories
                &&& queues_are_set_up(r->Ok_0)
                &&& after.requests() == registered_all(
                    before.requests(),
                    labels_of_configured(files),
                )
                &&& after.errors() == registered_all(before.errors(), labels_of_configured(files))
            },
        }
    }
}

/// Whether the answers are one for each file, and say of no empty path that
/// it has a parent.
pub open spec fn answers_fit(files: Seq<ConfiguredFile>, answers: Seq<PathAnswerView>) -> bool {
    &&& answers.len() == files.len()
    &&& forall|i: int|
        0 <= i < files.len() && files[i].path.len() == 0 ==> (#[trigger] answers[i]).parent is None
}

/// Files found by a pattern, taken as files of one kind.
pub open spec fn configured_as(files: Seq<LogFilePath>, kind: LogFileKind) -> Seq<ConfiguredFile> {
    files.map_values(|f: LogFilePath| ConfiguredFile { path: f.path@, kind, label: f.label@ })
}

impl LogWatcherConfiguration {
    /// The files added so far, in their order.
    pub closed spec fn files(self) -> Seq<ConfiguredFile> {
        self.files@.map_values(
            |f: ConfiguredEntry|
                ConfiguredFile { path: f.path@, kind: f.metadata.kind, label: f.metadata.label@ },
        )
    }

    /// What the platform has said of the path of each file, in the files'
    /// order.
    pub closed spec fn answers(self) -> Seq<PathAnswerView> {
        self.files@.map_values(|f: ConfiguredEntry| f.answer@)
    }

    /// The paths of the files added so far, in their order.
    pub open spec fn paths(self) -> Seq<Seq<char>> {
        paths_of(self.files())
    }

    /// There is one answer for each file.
    pub proof fn answers_are_one_per_file(self)
        ensures
            self.answers().len() == self.files().len(),
    {
    }

    /// A configuration without files.
    pub fn new() -> (r: LogWatcherConfiguration)
        ensures
            r.files() == Seq::<ConfiguredFile>::empty(),
            r.answers() == Seq::<PathAnswerView>::empty(),
    {
        let r = LogWatcherConfiguration { files: Vec::new() };
        assert(r.files() =~= Seq::<ConfiguredFile>::empty());
        assert(r.answers() =~= Seq::<PathAnswerView>::empty());
        r
    }

    /// How many files were added.
    pub fn len(&self) -> (n: usize)
        ensures
            n == self.files().len(),
    {
        self.files.len()
    }

    /// How many of the files are of the given kind.
    pub fn count_files_of_kind(&self, kind: LogFileKind) -> (n: usize)
        ensures
            n == count_of_kind(self.files(), kind),
    {
        let mut n: usize = 0;
        let mut i: usize = 0;
        while i < self.files.len()
            invariant
                i <= self.files.len(),
                n <= i,
                n == count_of_kind(self.files().take(i as int), kind),
            decreases self.files.len() - i,
        {
            proof {
                let next = self.files().take(i + 1);
                assert(next.drop_last() == self.files().take(i as int));
                assert(next.last() == self.files()[i as int]);
            }
            if self.files[i].metadata.kind == kind {
                n += 1;
            }
            i += 1;
        }
        proof {
            assert(self.files().take(self.files.len() as int) == self.files());
        }
        n
    }

    /// Adds a file of the given kind behind the files added before, with
    /// what the platform was found to say of its path.
    pub fn add_file_with_answer(&mut self, log_file: LogFilePath, kind: LogFileKind, answer: PathAnswer)
        ensures
            final(self).files() == old(self).files().push(
                ConfiguredFile { path: log_file.path@, kind, label: log_file.label@ },
            ),
            final(self).answers() == old(self).answers().push(answer@),
    {
        let path = log_file.path;
        let label = log_file.label;
        let metadata = LogFileMetadata { kind, label };
        self.files.push(ConfiguredEntry { path, metadata, answer });
        assert(self.files() =~= old(self).files().push(
            ConfiguredFile { path: log_file.path@, kind, label: log_file.label@ },
        ));
        assert(self.answers() =~= old(self).answers().push(answer@));
    }

    /// Adds a file of the given kind behind the files added before. The
    /// platform is asked about the file's path, and its answer is kept with
    /// the file; an empty path is never said to have a parent.
    pub fn add_file(&mut self, log_file: LogFilePath, kind: LogFileKind)
        ensures
            final(self).files() == old(self).files().push(
                ConfiguredFile { path: log_file.path@, kind, label: log_file.label@ },
            ),
            final(self).answers().len() == old(self).answers().len() + 1,
            final(self).answers().drop_last() == old(self).answers(),
            log_file.path@.len() == 0 ==> final(self).answers().last().parent is None,
    {
        let answer = ask_platform(log_file.path.as_str());
        self.add_file_with_answer(log_file, kind, answer);
        assert(self.answers().drop_last() =~= old(self).answers());
    }

    /// The directory to subscribe for each file, or the error of the first
    /// file that has none.
    pub fn directories(&self) -> (r: Result<Vec<String>, StartError>)
        ensures
            match r {
                Ok(dirs) => directories_spec(self.answers()) == Ok::<Seq<Seq<char>>, StartError>(
                    dirs@.map_values(|d: String| d@),
                ),
                Err(e) => directories_spec(self.answers()) == Err::<Seq<Seq<char>>, StartError>(e),
            },
    {
        let mut dirs: Vec<String> = Vec::new();
        let mut i: usize = 0;
        assert(dirs@.map_values(|d: String| d@) =~= Seq::empty());
        assert(self.answers().take(0) =~= Seq::empty());
        while i < self.files.len()
            invariant
                i <= self.files.len(),
                directories_spec(self.answers().take(i as int)) == Ok::<Seq<Seq<char>>, StartError>(
                    dirs@.map_values(|d: String| d@),
                ),
            decreases self.files.len() - i,
        {
            let answer = &self.files[i].answer;
            let parent = match &answer.parent {
                Some(p) => Some(p.clone()),
                None => None,
            };
            let ghost before = dirs@;
            proof {
                let next = self.answers().take(i + 1);
                assert(next.drop_last() == self.answers().take(i as int));
                assert(next.last() == answer@);
                assert(parent_view(parent) == answer@.parent);
            }
            match check_watch_target(answer.is_absolute, parent) {
                Ok(dir) => {
                    dirs.push(dir);
                    assert(dirs@.map_values(|d: String| d@) =~= before.map_values(|d: String| d@).push(
                        dir@,
                    ));
                },
                Err(e) => {
                    proof {
                        first_refusal_stands(self.answers(), i + 1);
                    }
                    return Err(e);
                },
            }
            i += 1;
        }
        proof {
            assert(self.answers().take(self.files.len() as int) == self.answers());
        }
        Ok(dirs)
    }
}

/// Once a file has been refused, the files behind it no longer matter: the
/// error of the first refused file stands.
pub proof fn first_refusal_stands(answers: Seq<PathAnswerView>, n: int)
    requires
        0 <= n <= answers.len(),
        directories_spec(answers.take(n)) is Err,
    ensures
        directories_spec(answers) == directories_spec(answers.take(n)),
    decreases answers.len() - n,
{
    if n == answers.len() {
        assert(answers.take(n) == answers);
    } else {
        assert(answers.take(n + 1).drop_last() == answers.take(n));
        first_refusal_stands(answers, n + 1);
    }
}

/// Where every file has a directory, there are as many directories as
/// files.
pub proof fn directories_are_one_per_file(answers: Seq<PathAnswerView>)
    ensures
        directories_spec(answers) matches Ok(directories) ==> directories.len() == answers.len(),
    decreases answers.len(),
{
    if answers.len() > 0 {
        directories_are_one_per_file(answers.drop_last());
    }
}

impl LogWatcherConfiguration {
    /// Sets up the watch. Without files there is nothing to watch, which is
    /// an error; so is a file whose path is relative or has no parent, and
    /// the first such file gives the error. Otherwise every file gets a
    /// queue of `EVENT_QUEUE_CAPACITY` events, whose sending half is
    /// registered under the file's path and whose receiving half stays with
    /// the file, and both counters of every file are made sure to exist.
    /// Where two files have the same path, the later one's queue takes the
    /// registration.
    pub fn start(self, metrics: &mut Metrics) -> (r: Result<PreparedWatch, StartError>)
        ensures
            started(self.files(), self.answers(), *old(metrics), *final(metrics), r),
    {
        if self.files.len() == 0 {
            return Err(StartError::NoLogFiles);
        }
        let directories = match self.directories() {
            Ok(directories) => directories,
            Err(e) => {
                return Err(e);
            },
        };
        let ghost dirs = directories@.map_values(|d: String| d@);
        let ghost paths = paths_of(self.files());
        proof {
            directories_are_one_per_file(self.answers());
        }
        let mut prepared: Vec<PreparedFile> = Vec::new();
        let mut callbacks = FsEventCallbacks::new();
        let mut i: usize = 0;
        assert(prepared_view(prepared@) =~= self.files().take(0));
        assert(directories_of(prepared@) =~= dirs.take(0));
        assert(paths.take(0) =~= Seq::empty());
        while i < self.files.len()
            invariant
                i <= self.files.len(),
                directories@.len() == self.files.len(),
                dirs == directories@.map_values(|d: String| d@),
                paths == paths_of(self.files()),
                callbacks.wf(),
                callbacks.paths() == registered_paths(paths.take(i as int)),
                prepared_view(prepared@) == self.files().take(i as int),
                directories_of(prepared@) == dirs.take(i as int),
                prepared@.len() == i,
                forall|k: int|
                    0 <= k < callbacks.senders().len() ==> queue_limit(
                        #[trigger] callbacks.senders()[k],
                    ) == EVENT_QUEUE_CAPACITY,
                forall|j: int| 0 <= j < i ==> callbacks.paths().contains(#[trigger] paths[j]),
                forall|j: int|
                    0 <= j < i && #[trigger] is_last_with_path(paths, j, i as int) ==> feeds(
                        callbacks.sender_of(paths[j]),
                        prepared@[j].fs_event_receiver,
                    ),
            decreases self.files.len() - i,
        {
            let path = self.files[i].path.clone();
            let directory = directories[i].clone();
            let metadata = LogFileMetadata {
                kind: self.files[i].metadata.kind,
                label: self.files[i].metadata.label.clone(),
            };
            let (sender, fs_event_receiver) = event_channel(EVENT_QUEUE_CAPACITY);
            let ghost before = prepared@;
            let ghost table = callbacks;
            proof {
                assert(paths.take(i + 1).drop_last() == paths.take(i as int));
                assert(paths.take(i + 1).last() == path@);
                assert(paths[i as int] == path@);
            }
            callbacks.register(path.as_str(), sender);
            let file = PreparedFile { path, directory, metadata, fs_event_receiver };
            prepared.push(file);
            proof {
                assert(prepared_view(prepared@) =~= prepared_view(before).push(file.configured()));
                assert(self.files().take(i + 1) =~= self.files().take(i as int).push(
                    self.files()[i as int],
                ));
                assert(directories_of(prepared@) =~= directories_of(before).push(file.directory@));
                assert(dirs.take(i + 1) =~= dirs.take(i as int).push(dirs[i as int]));
                assert forall|k: int| 0 <= k < callbacks.senders().len() implies queue_limit(
                    #[trigger] callbacks.senders()[k],
                ) == EVENT_QUEUE_CAPACITY by {
                    table.wf_means();
                    if table.paths().contains(path@) {
                        let at = table.paths().index_of(path@);
                        assert(0 <= at < table.paths().len());
                        if k != table.paths().index_of(path@) {
                            assert(callbacks.senders()[k] == table.senders()[k]);
                        }
                    } else {
                        if k < table.senders().len() {
                            assert(callbacks.senders()[k] == table.senders()[k]);
                        }
                    }
                }
                assert forall|j: int| 0 <= j < i + 1 implies callbacks.paths().contains(
                    #[trigger] paths[j],
                ) by {
                    if paths[j] != path@ {
                        assert(table.paths().contains(paths[j]));
                        assert(callbacks.sender_of(paths[j]) == table.sender_of(paths[j]));
                    }
                }
                assert forall|j: int|
                    0 <= j < i + 1 && #[trigger] is_last_with_path(paths, j, i + 1) implies feeds(
                    callbacks.sender_of(paths[j]),
                    prepared@[j].fs_event_receiver,
                ) by {
                    if j < i {
                        assert(paths[i as int] != paths[j]);
                        assert(is_last_with_path(paths, j, i as int));
                        assert(table.paths().contains(paths[j]));
                        assert(callbacks.sender_of(paths[j]) == table.sender_of(paths[j]));
                        assert(prepared@[j] == before[j]);
                    }
                }
            }
            i += 1;
        }
        proof {
            assert(self.files().take(self.files.len() as int) == self.files());
            assert(paths.take(self.files.len() as int) == paths);
            assert(dirs.take(self.files.len() as int) == dirs);
            assert(labels_of(prepared@) =~= labels_of_configured(self.files()));
        }
        metrics.register_files(&prepared);
        Ok(PreparedWatch { callbacks, files: prepared })
    }
}

/// The files to follow where access logs and error logs were found: the
/// access logs first, then the error logs, each in its order.
pub open spec fn watched_files(access: Seq<LogFilePath>, error: Seq<LogFilePath>) -> Seq<
    ConfiguredFile,
> {
    configured_as(access, LogFileKind::Access) + configured_as(error, LogFileKind::Error)
}

/// Sets up the watch over the access logs and the error logs that were
/// found: the access logs first, then the error logs, each in its order.
/// What the platform says of each path is asked on the way; whatever it
/// says, the result is what `LogWatcherConfiguration::start` makes of the
/// files and the answers.
pub fn start_log_watcher(
    access_log_files: Vec<LogFilePath>,
    error_log_files: Vec<LogFilePath>,
    metrics: &mut Metrics,
) -> (r: Result<PreparedWatch, StartError>)
    ensures
        exists|answers: Seq<PathAnswerView>|
            answers_fit(watched_files(access_log_files@, error_log_files@), answers)
                && #[trigger] started(
                watched_files(access_log_files@, error_log_files@),
                answers,
                *old(metrics),
                *final(metrics),
                r,
            ),
{
    let mut watcher = LogWatcherConfiguration::new();
    let ghost access = configured_as(access_log_files@, LogFileKind::Access);
    let ghost error = configured_as(error_log_files@, LogFileKind::Error);
    let mut i: usize = 0;
    assert(access.take(0) =~= Seq::empty());
    while i < access_log_files.len()
        invariant
            i <= access_log_files.len(),
            access == configured_as(access_log_files@, LogFileKind::Access),
            watcher.files() == access.take(i as int),
            answers_fit(watcher.files(), watcher.answers()),
        decreases access_log_files.len() - i,
    {
        let file = LogFilePath {
            path: access_log_files[i].path.clone(),
            label: access_log_files[i].label.clone(),
        };
        let ghost before = watcher;
        watcher.add_file(file, LogFileKind::Access);
        proof {
            assert(watcher.files() =~= access.take(i + 1));
            assert(watcher.files().drop_last() =~= before.files());
            kept_answers_fit(before.files(), before.answers(), watcher.files(), watcher.answers());
        }
        i += 1;
    }
    assert(access.take(access_log_files.len() as int) == access);
    let mut j: usize = 0;
    assert(access + error.take(0) =~= access);
    while j < error_log_files.len()
        invariant
            j <= error_log_files.len(),
            error == configured_as(error_log_files@, LogFileKind::Error),
            watcher.files() == access + error.take(j as int),
            answers_fit(watcher.files(), watcher.answers()),
        decreases error_log_files.len() - j,
    {
        let file = LogFilePath {
            path: error_log_files[j].path.clone(),
            label: error_log_files[j].label.clone(),
        };
        let ghost before = watcher;
        watcher.add_file(file, LogFileKind::Error);
        proof {
            assert(watcher.files() =~= access + error.take(j + 1));
            assert(watcher.files().drop_last() =~= before.files());
            kept_answers_fit(before.files(), before.answers(), watcher.files(), watcher.answers());
        }
        j += 1;
    }
    assert(error.take(error_log_files.len() as int) == error);
    let ghost files = watched_files(access_log_files@, error_log_files@);
    let ghost answers = watcher.answers();
    assert(watcher.files() == files);
    let r = watcher.start(metrics);
    assert(answers_fit(files, answers));
    assert(started(files, answers, *old(metrics), *metrics, r));
    r
}

/// Answers that fit stay fitting when one file is added whose answer says
/// of no empty path that it has a parent.
pub proof fn kept_answers_fit(
    files: Seq<ConfiguredFile>,
    answers: Seq<PathAnswerView>,
    more_files: Seq<ConfiguredFile>,
    more_answers: Seq<PathAnswerView>,
)
    requires
        answers_fit(files, answers),
        more_files.len() == files.len() + 1,
        more_files.drop_last() == files,
        more_answers.len() == answers.len() + 1,
        more_answers.drop_last() == answers,
        more_files.last().path.len() == 0 ==> more_answers.last().parent is None,
    ensures
        answers_fit(more_files, more_answers),
{
    assert forall|i: int|
        0 <= i < more_files.len() && more_files[i].path.len() == 0 implies (
    #[trigger] more_answers[i]).parent is None by {
        if i < files.len() {
            assert(more_files.drop_last()[i] == more_files[i]);
            assert(more_answers.drop_last()[i] == more_answers[i]);
        }
    }
}

} // verus!
