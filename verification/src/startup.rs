//! The order in which the watch over the log files is brought up.
//!
//! Bringing up the watch takes outside work: the one watcher is created,
//! the directory of each file is subscribed, each file is subscribed and
//! opened. Not one tailer may run before all of that has succeeded for
//! every file, and the first failure ends the startup. This machine holds
//! that order: its owner performs the action that a step asks for and
//! reports whether it succeeded.

use vstd::prelude::*;

verus! {

/// Where the startup stands.
#[derive(Debug, Clone, Copy, PartialEq, Eq, Structural)]
pub enum StartupState {
    /// The watcher is being created.
    CreatingWatcher,
    /// The directory of the file at this place is being subscribed.
    Subscribing(usize),
    /// The file at this place is being subscribed and opened.
    Opening(usize),
    /// Every file has passed; the tailers run.
    Running,
    /// The startup has failed.
    Failed,
}

/// How the action that was asked for ended.
#[derive(Debug, Clone, Copy, PartialEq, Eq, Structural)]
pub enum StartupEvent {
    Succeeded,
    Failed,
}

/// Why the startup failed.
#[derive(Debug, Clone, Copy, PartialEq, Eq, Structural)]
pub enum StartupFailure {
    /// There is no file to follow.
    NothingToWatch,
    /// The watcher could not be created.
    WatcherNotCreated,
    /// The directory of the file at this place could not be subscribed.
    DirectoryNotWatched(usize),
    /// The file at this place could not be subscribed or opened.
    FileNotOpened(usize),
    /// The state is not one that the number of files allows.
    UnexpectedState,
}

/// What the owner has to do next.
#[derive(Debug, Clone, Copy, PartialEq, Eq, Structural)]
pub enum StartupAction {
    /// Create the watcher and hand it the table of consumers.
    CreateWatcher,
    /// Subscribe the directory of the file at this place.
    WatchDirectory(usize),
    /// Subscribe and open the file at this place, and keep its tailer ready.
    OpenFile(usize),
    /// Start the tailers of all files.
    SpawnTailers,
    /// Give up: start no tailer and report the failure.
    Abort(StartupFailure),
    /// Nothing is left to do.
    Idle,
}

/// One step of the startup.
#[derive(Debug, Clone, Copy, PartialEq, Eq, Structural)]
pub struct StartupStep {
    pub next: StartupState,
    pub action: StartupAction,
}

impl StartupStep {
    /// The step that ends the startup with a failure.
    pub open spec fn fail(reason: StartupFailure) -> StartupStep {
        StartupStep { next: StartupState::Failed, action: StartupAction::Abort(reason) }
    }
}

/// How the startup of `files` files begins.
pub open spec fn begin_spec(files: nat) -> StartupStep {
    if files == 0 {
        StartupStep::fail(StartupFailure::NothingToWatch)
    } else {
        StartupStep { next: StartupState::CreatingWatcher, action: StartupAction::CreateWatcher }
    }
}

/// The step that follows an event, for a startup of `files` files.
///
/// The watcher comes first, then the directory of every file in the files'
/// order, then every file in the same order, and only then the tailers. A
/// failure at any place ends the startup.
pub open spec fn step_spec(state: StartupState, event: StartupEvent, files: nat) -> StartupStep {
    match (state, event) {
        (StartupState::Running, _) => StartupStep {
            next: StartupState::Running,
            action: StartupAction::Idle,
        },
        (StartupState::Failed, _) => StartupStep {
            next: StartupState::Failed,
            action: StartupAction::Idle,
        },
        (StartupState::CreatingWatcher, StartupEvent::Failed) => StartupStep::fail(
            StartupFailure::WatcherNotCreated,
        ),
        (StartupState::CreatingWatcher, StartupEvent::Succeeded) => if files == 0 {
            StartupStep::fail(StartupFailure::UnexpectedState)
        } else {
            StartupStep {
                next: StartupState::Subscribing(0),
                action: StartupAction::WatchDirectory(0),
            }
        },
        (StartupState::Subscribing(at), StartupEvent::Failed) => StartupStep::fail(
            StartupFailure::DirectoryNotWatched(at),
        ),
        (StartupState::Subscribing(at), StartupEvent::Succeeded) => if at >= files {
            StartupStep::fail(StartupFailure::UnexpectedState)
        } else if at + 1 < files {
            StartupStep {
                next: StartupState::Subscribing((at + 1) as usize),
                action: StartupAction::WatchDirectory((at + 1) as usize),
            }
        } else {
            StartupStep { next: StartupState::Opening(0), action: StartupAction::OpenFile(0) }
        },
        (StartupState::Opening(at), StartupEvent::Failed) => StartupStep::fail(
            StartupFailure::FileNotOpened(at),
        ),
        (StartupState::Opening(at), StartupEvent::Succeeded) => if at >= files {
            StartupStep::fail(StartupFailure::UnexpectedState)
        } else if at + 1 < files {
            StartupStep {
                next: StartupState::Opening((at + 1) as usize),
                action: StartupAction::OpenFile((at + 1) as usize),
            }
        } else {
            StartupStep { next: StartupState::Running, action: StartupAction::SpawnTailers }
        },
    }
}

/// Begins the startup of `files` files: says what to do first.
pub fn begin(files: usize) -> (r: StartupStep)
    ensures
        r == begin_spec(files as nat),
{
    if files == 0 {
        StartupStep {
            next: StartupState::Failed,
            action: StartupAction::Abort(StartupFailure::NothingToWatch),
        }
    } else {
        StartupStep { next: StartupState::CreatingWatcher, action: StartupAction::CreateWatcher }
    }
}

impl StartupState {
    /// Takes the outcome of the last action and says which state follows and
    /// what to do next, for a startup of `files` files.
    pub fn step(self, event: StartupEvent, files: usize) -> (r: StartupStep)
        ensures
            r == step_spec(self, event, files as nat),
    {
        let unexpected = StartupStep {
            next: StartupState::Failed,
            action: StartupAction::Abort(StartupFailure::UnexpectedState),
        };
        match self {
            StartupState::Running => StartupStep {
                next: StartupState::Running,
                action: StartupAction::Idle,
            },
            StartupState::Failed => StartupStep {
                next: StartupState::Failed,
                action: StartupAction::Idle,
            },
            StartupState::CreatingWatcher => match event {
                StartupEvent::Failed => StartupStep {
                    next: StartupState::Failed,
                    action: StartupAction::Abort(StartupFailure::WatcherNotCreated),
                },
                StartupEvent::Succeeded => {
                    if files == 0 {
                        unexpected
                    } else {
                        StartupStep {
                            next: StartupState::Subscribing(0),
                            action: StartupAction::WatchDirectory(0),
                        }
                    }
                },
            },
            StartupState::Subscribing(at) => match event {
                StartupEvent::Failed => StartupStep {
                    next: StartupState::Failed,
                    action: StartupAction::Abort(StartupFailure::DirectoryNotWatched(at)),
                },
                StartupEvent::Succeeded => {
                    if at >= files {
                        unexpected
                    } else if at + 1 < files {
                        StartupStep {
                            next: StartupState::Subscribing(at + 1),
                            action: StartupAction::WatchDirectory(at + 1),
                        }
                    } else {
                        StartupStep {
                            next: StartupState::Opening(0),
                            action: StartupAction::OpenFile(0),
                        }
                    }
                },
            },
            StartupState::Opening(at) => match event {
                StartupEvent::Failed => StartupStep {
                    next: StartupState::Failed,
                    action: StartupAction::Abort(StartupFailure::FileNotOpened(at)),
                },
                StartupEvent::Succeeded => {
                    if at >= files {
                        unexpected
                    } else if at + 1 < files {
                        StartupStep {
                            next: StartupState::Opening(at + 1),
                            action: StartupAction::OpenFile(at + 1),
                        }
                    } else {
                        StartupStep {
                            next: StartupState::Running,
                            action: StartupAction::SpawnTailers,
                        }
                    }
                },
            },
        }
    }
}

/// Where a startup of `files` files stands after a sequence of events, and
/// what it asked for last.
pub open spec fn startup_after(files: nat, events: Seq<StartupEvent>) -> StartupStep
    decreases events.len(),
{
    if events.len() == 0 {
        begin_spec(files)
    } else {
        step_spec(startup_after(files, events.drop_last()).next, events.last(), files)
    }
}

/// `n` successes one after the other.
pub open spec fn successes(n: nat) -> Seq<StartupEvent> {
    Seq::new(n, |i: int| StartupEvent::Succeeded)
}

/// What a startup that has met no failure has asked for last, by the number
/// of actions that have succeeded: the watcher first, then the directories
/// in the files' order, then the files in the same order, then the tailers.
pub open spec fn asked_after_successes(files: nat, done: nat) -> StartupStep {
    if files == 0 {
        if done == 0 {
            StartupStep::fail(StartupFailure::NothingToWatch)
        } else {
            StartupStep { next: StartupState::Failed, action: StartupAction::Idle }
        }
    } else if done == 0 {
        StartupStep { next: StartupState::CreatingWatcher, action: StartupAction::CreateWatcher }
    } else if done <= files {
        StartupStep {
            next: StartupState::Subscribing((done - 1) as usize),
            action: StartupAction::WatchDirectory((done - 1) as usize),
        }
    } else if done <= 2 * files {
        StartupStep {
            next: StartupState::Opening((done - files - 1) as usize),
            action: StartupAction::OpenFile((done - files - 1) as usize),
        }
    } else if done == 2 * files + 1 {
        StartupStep { next: StartupState::Running, action: StartupAction::SpawnTailers }
    } else {
        StartupStep { next: StartupState::Running, action: StartupAction::Idle }
    }
}

/// The tailers are asked for by one step only: the one that follows the
/// success of the last file.
pub proof fn tailers_follow_the_last_file(state: StartupState, event: StartupEvent, files: nat)
    ensures
        step_spec(state, event, files).action == StartupAction::SpawnTailers <==> (files > 0
            && state == StartupState::Opening((files - 1) as usize) && files - 1 <= usize::MAX
            && event == StartupEvent::Succeeded),
{
}

/// A failure ends the startup at once, whatever was being done, and a
/// startup that has failed asks for nothing more.
pub proof fn a_failure_ends_the_startup(state: StartupState, files: nat)
    ensures
        step_spec(state, StartupEvent::Failed, files).next == StartupState::Failed || state
            == StartupState::Running,
        step_spec(state, StartupEvent::Failed, files).action != StartupAction::SpawnTailers,
        forall|event: StartupEvent|
            #[trigger] step_spec(StartupState::Failed, event, files) == (StartupStep {
                next: StartupState::Failed,
                action: StartupAction::Idle,
            }),
{
}

/// While every action succeeds, the startup asks for the watcher, then for
/// the directory of each file, then for each file, and then for the
/// tailers.
pub proof fn successes_lead_through_every_file(files: nat, done: nat)
    requires
        files <= usize::MAX,
    ensures
        startup_after(files, successes(done)) == asked_after_successes(files, done),
    decreases done,
{
    if done > 0 {
        successes_lead_through_every_file(files, (done - 1) as nat);
        assert(successes(done).drop_last() == successes((done - 1) as nat));
        assert(successes(done).last() == StartupEvent::Succeeded);
    }
}

/// The tailers are started only after the watcher, the directory of every
/// file and every file itself have succeeded: if the last thing asked for
/// is to start the tailers, then there were exactly `2 * files + 1` events,
/// and all of them were successes.
pub proof fn tailers_start_only_after_every_file(files: nat, events: Seq<StartupEvent>)
    requires
        files <= usize::MAX,
        startup_after(files, events).action == StartupAction::SpawnTailers,
    ensures
        files > 0,
        events == successes(2 * files + 1),
{
    only_successes_make_progress(files, events);
}

/// A startup that is still under way, or has just asked for the tailers,
/// has seen nothing but successes, and as many as its state says.
pub proof fn only_successes_make_progress(files: nat, events: Seq<StartupEvent>)
    requires
        files <= usize::MAX,
    ensures
        match startup_after(files, events).next {
            StartupState::CreatingWatcher => files > 0 && events == successes(0),
            StartupState::Subscribing(at) => at < files && events == successes((at + 1) as nat),
            StartupState::Opening(at) => at < files && events == successes(
                (files + at + 1) as nat,
            ),
            StartupState::Running => files > 0 && (startup_after(files, events).action
                == StartupAction::SpawnTailers ==> events == successes(2 * files + 1)),
            StartupState::Failed => true,
        },
    decreases events.len(),
{
    if events.len() == 0 {
        assert(events =~= successes(0));
    } else {
        let front = events.drop_last();
        only_successes_make_progress(files, front);
        let before = startup_after(files, front);
        let after = startup_after(files, events);
        if events.last() == StartupEvent::Succeeded {
            assert(events =~= front.push(StartupEvent::Succeeded));
            assert forall|i: int| 0 <= i < front.len() implies events[i] == front[i] by {}
            match before.next {
                StartupState::CreatingWatcher => {
                    assert(events =~= successes(1));
                },
                StartupState::Subscribing(at) => {
                    assert(events =~= successes((at + 2) as nat));
                },
                StartupState::Opening(at) => {
                    assert(events =~= successes((files + at + 2) as nat));
                },
                _ => {},
            }
        }
    }
}

} // verus!
