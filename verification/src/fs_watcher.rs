//! Fanning out filesystem events to the consumers that registered for a path.
//!
//! One watcher serves every tailed file. Each file registers the sending half
//! of its own bounded channel under its exact path; on every event the
//! dispatcher offers the event to the consumer of each affected path without
//! ever waiting, so that a consumer whose channel is full loses that event
//! and nobody else is held up.

use notify::event::CreateKind;
use notify::event::ModifyKind;
use notify::ErrorKind;
use notify::Event;
use notify::EventKind;
use tokio::sync::mpsc::error::TrySendError;
use tokio::sync::mpsc::Sender;
use vstd::prelude::*;

use crate::coalesce::FsEventKind;
use crate::coalesce::WatcherEventKind;
use crate::text::str_eq;

verus! {

#[verifier::external_type_specification]
#[verifier::external_body]
pub struct ExEvent(notify::Event);

#[verifier::external_type_specification]
#[verifier::external_body]
#[verifier::reject_recursive_types(T)]
pub struct ExSender<T>(tokio::sync::mpsc::Sender<T>);

#[verifier::external_type_specification]
#[verifier::external_body]
pub struct ExWatchError(notify::Error);

/// How an attempt to hand an event to a consumer ended.
#[derive(Debug, Clone, Copy, PartialEq, Eq, Structural)]
pub enum SendOutcome {
    /// The event is in the consumer's channel.
    Delivered,
    /// The channel was full; the event is lost for this consumer.
    Full,
    /// The receiving half is gone; the event is lost for this consumer.
    Closed,
}

/// One attempt of the dispatcher: which subscription it went to and how it
/// ended.
#[derive(Debug, Clone, Copy, PartialEq, Eq, Structural)]
pub struct Delivery {
    /// Position of the subscription in the order of registration.
    pub target: usize,
    pub outcome: SendOutcome,
}

/// The kind of a `notify::Event`, as its field `kind` holds it.
pub uninterp spec fn watcher_kind_of(event: Event) -> WatcherEventKind;

/// What a `notify::Event` means to a tailer: the class of its kind.
pub open spec fn event_kind_of(event: Event) -> FsEventKind {
    watcher_kind_of(event).class()
}

/// The classes of events, in their order.
pub open spec fn kinds_of(events: Seq<Event>) -> Seq<FsEventKind> {
    events.map_values(|e: Event| event_kind_of(e))
}

/// The paths of a `notify::Event`, as its field `paths` holds them: in
/// their order, each as text, or `None` where it is not valid Unicode.
pub uninterp spec fn event_paths_of(event: Event) -> Seq<Option<Seq<char>>>;

/// Whether a `notify::Error` is of the kind `WatchNotFound`.
pub uninterp spec fn watch_not_found(error: notify::Error) -> bool;

/// Reads the kind of a `notify::Event` (its field `kind`) and writes it in
/// the library's own terms, one for one: each kind of creation and of
/// modification by itself, the payloads of the other kinds left out. The
/// event is opaque to the verifier, so its kind is known by its name only:
/// the same event always has the same kind.
#[verifier::external_body]
pub(crate) fn watcher_kind(event: &Event) -> (r: WatcherEventKind)
    ensures
        r == watcher_kind_of(*event),
{
    match event.kind {
        EventKind::Any => WatcherEventKind::Unknown,
        EventKind::Access(_) => WatcherEventKind::Access,
        EventKind::Create(CreateKind::Any) => WatcherEventKind::CreateUnknown,
        EventKind::Create(CreateKind::File) => WatcherEventKind::CreateFile,
        EventKind::Create(CreateKind::Folder) => WatcherEventKind::CreateFolder,
        EventKind::Create(CreateKind::Other) => WatcherEventKind::CreateOther,
        EventKind::Modify(ModifyKind::Any) => WatcherEventKind::ModifyUnknown,
        EventKind::Modify(ModifyKind::Data(_)) => WatcherEventKind::ModifyData,
        EventKind::Modify(ModifyKind::Metadata(_)) => WatcherEventKind::ModifyMetadata,
        EventKind::Modify(ModifyKind::Name(_)) => WatcherEventKind::ModifyName,
        EventKind::Modify(ModifyKind::Other) => WatcherEventKind::ModifyOther,
        EventKind::Remove(_) => WatcherEventKind::Remove,
        EventKind::Other => WatcherEventKind::Other,
    }
}

/// What an event means to a tailer.
pub(crate) fn event_kind(event: &Event) -> (r: FsEventKind)
    ensures
        r == event_kind_of(*event),
{
    watcher_kind(event).classify()
}

/// Copies the paths of a `notify::Event` (its field `paths`) in their order,
/// each as a string, or `None` where `Path::to_str` finds it is not valid
/// Unicode. The result is known by its name only: the same event always
/// has the same paths.
#[verifier::external_body]
pub(crate) fn event_paths(event: &Event) -> (r: Vec<Option<String>>)
    ensures
        path_views(r@) == event_paths_of(*event),
{
    event.paths.iter().map(|p| p.to_str().map(|s| s.to_string())).collect()
}

/// Calls `tokio::sync::mpsc::Sender::try_send` with a clone of the event. The
/// call never waits and never panics; whether there was room depends on what
/// the receiver has taken out so far, so nothing is claimed of the outcome.
#[verifier::external_body]
pub(crate) fn try_send(sender: &Sender<Event>, event: &Event) -> SendOutcome {
    match sender.try_send(event.clone()) {
        Ok(()) => SendOutcome::Delivered,
        Err(TrySendError::Full(_)) => SendOutcome::Full,
        Err(TrySendError::Closed(_)) => SendOutcome::Closed,
    }
}

/// Reads the kind of a `notify::Error` (its field `kind`) and says whether
/// it is `WatchNotFound`: a watch was to be removed that did not exist.
/// The error is opaque to the verifier, so the answer is known by its name
/// only.
#[verifier::external_body]
pub(crate) fn is_watch_not_found(error: &notify::Error) -> (r: bool)
    ensures
        r == watch_not_found(*error),
{
    match error.kind {
        ErrorKind::WatchNotFound => true,
        _ => false,
    }
}

/// Whether a path may be watched after the attempt to remove an earlier
/// watch on it: it may unless the removal failed for another reason than
/// that there was no watch to remove.
pub fn may_watch_after(unwatch_failed: bool, watch_not_found: bool) -> (r: bool)
    ensures
        r == (!unwatch_failed || watch_not_found),
{
    !unwatch_failed || watch_not_found
}

/// Judges the attempt to remove an earlier watch before a path is watched
/// anew. A removal that succeeded lets the watch go on. One that failed
/// because there was no watch lets it go on too; any other failure is
/// handed back as it is.
pub fn after_unwatch(unwatched: Result<(), notify::Error>) -> (r: Result<(), notify::Error>)
    ensures
        unwatched is Ok ==> r is Ok,
        unwatched matches Err(e) ==> (r is Ok <==> watch_not_found(e)),
        r is Err ==> r == unwatched,
{
    match unwatched {
        Ok(()) => Ok(()),
        Err(error) => {
            if may_watch_after(true, is_watch_not_found(&error)) {
                Ok(())
            } else {
                Err(error)
            }
        },
    }
}

/// A consumer's interest in the events of one exact path.
pub struct WatchSubscription {
    path: String,
    sender: Sender<Event>,
}

/// The paths under which subscriptions stand, in the order of registration.
spec fn subscribed_paths(subscriptions: Seq<WatchSubscription>) -> Seq<Seq<char>> {
    subscriptions.map_values(|s: WatchSubscription| s.path@)
}

/// The subscriptions an event about `paths` goes to: for each affected path,
/// in the event's order, the subscription registered under exactly that
/// path, if there is one. A path that is not valid Unicode matches nothing.
pub open spec fn targets_spec(registered: Seq<Seq<char>>, paths: Seq<Option<Seq<char>>>) -> Seq<
    int,
>
    decreases paths.len(),
{
    if paths.len() == 0 {
        Seq::empty()
    } else {
        let front = targets_spec(registered, paths.drop_last());
        match paths.last() {
            Some(p) => if registered.contains(p) {
                front.push(registered.index_of(p))
            } else {
                front
            },
            None => front,
        }
    }
}

/// The affected paths of an event as the dispatcher compares them.
pub open spec fn path_views(paths: Seq<Option<String>>) -> Seq<Option<Seq<char>>> {
    paths.map_values(
        |p: Option<String>|
            match p {
                Some(s) => Some(s@),
                None => None,
            },
    )
}

/// Whether the attempts made are exactly one per target, in the targets'
/// order.
pub open spec fn attempts_match(deliveries: Seq<Delivery>, targets: Seq<int>) -> bool {
    &&& deliveries.len() == targets.len()
    &&& forall|i: int| 0 <= i < deliveries.len() ==> (#[trigger] deliveries[i]).target == targets[i]
}

/// Every target is the position of a registered path.
pub proof fn targets_are_registered(registered: Seq<Seq<char>>, paths: Seq<Option<Seq<char>>>)
    ensures
        targets_spec(registered, paths).len() <= paths.len(),
        forall|i: int|
            0 <= i < targets_spec(registered, paths).len() ==> 0 <= (#[trigger] targets_spec(
                registered,
                paths,
            )[i]) < registered.len(),
    decreases paths.len(),
{
    if paths.len() > 0 {
        targets_are_registered(registered, paths.drop_last());
    }
}

/// In a sequence that holds nothing twice, a thing is found where it
/// stands.
pub proof fn index_of_is_the_place<A>(s: Seq<A>, k: int)
    requires
        s.no_duplicates(),
        0 <= k < s.len(),
    ensures
        s.index_of(s[k]) == k,
{
    let found = s.index_of(s[k]);
    assert(0 <= found < s.len() && s[found] == s[k]);
}

/// The table from watched path to consumer.
pub struct FsEventCallbacks {
    subscriptions: Vec<WatchSubscription>,
}

impl FsEventCallbacks {
    /// No path has two subscriptions.
    pub closed spec fn wf(self) -> bool {
        subscribed_paths(self.subscriptions@).no_duplicates()
    }

    /// A well-formed table holds no path twice, and one sender per path.
    pub proof fn wf_means(self)
        requires
            self.wf(),
        ensures
            self.paths().no_duplicates(),
            self.senders().len() == self.paths().len(),
    {
    }

    /// The registered paths, in the order of registration.
    pub closed spec fn paths(self) -> Seq<Seq<char>> {
        subscribed_paths(self.subscriptions@)
    }

    /// The sending halves, in the order of registration.
    pub closed spec fn senders(self) -> Seq<Sender<Event>> {
        self.subscriptions@.map_values(|s: WatchSubscription| s.sender)
    }

    /// The sending half that events about `path` go to, where the path is
    /// registered.
    pub open spec fn sender_of(self, path: Seq<char>) -> Sender<Event> {
        self.senders()[self.paths().index_of(path)]
    }

    /// An empty table.
    pub fn new() -> (r: FsEventCallbacks)
        ensures
            r.wf(),
            r.paths() == Seq::<Seq<char>>::empty(),
            r.senders() == Seq::<Sender<Event>>::empty(),
    {
        let r = FsEventCallbacks { subscriptions: Vec::new() };
        assert(r.paths() =~= Seq::<Seq<char>>::empty());
        assert(r.senders() =~= Seq::<Sender<Event>>::empty());
        r
    }

    /// Number of subscriptions.
    pub fn len(&self) -> (n: usize)
        ensures
            n == self.paths().len(),
            n == self.senders().len(),
    {
        self.subscriptions.len()
    }

    /// Position of the subscription for exactly this path.
    pub fn position(&self, path: &str) -> (r: Option<usize>)
        ensures
            match r {
                Some(i) => i < self.paths().len() && self.paths()[i as int] == path@,
                None => !self.paths().contains(path@),
            },
    {
        let mut i: usize = 0;
        while i < self.subscriptions.len()
            invariant
                i <= self.subscriptions.len(),
                forall|j: int| 0 <= j < i ==> self.paths()[j] != path@,
            decreases self.subscriptions.len() - i,
        {
            if str_eq(self.subscriptions[i].path.as_str(), path) {
                return Some(i);
            }
            i += 1;
        }
        None
    }

    /// Records that events about exactly `path` go to `sender`. A path that
    /// is already registered keeps its place and gets the new sender, so
    /// that no path ever has two consumers.
    pub fn register(&mut self, path: &str, sender: Sender<Event>)
        requires
            old(self).wf(),
        ensures
            final(self).wf(),
            old(self).paths().contains(path@) ==> {
                &&& final(self).paths() == old(self).paths()
                &&& final(self).senders() == old(self).senders().update(
                    old(self).paths().index_of(path@),
                    sender,
                )
            },
            !old(self).paths().contains(path@) ==> {
                &&& final(self).paths() == old(self).paths().push(path@)
                &&& final(self).senders() == old(self).senders().push(sender)
            },
            final(self).paths().contains(path@),
            final(self).sender_of(path@) == sender,
            forall|other: Seq<char>|
                other != path@ && old(self).paths().contains(other) ==> final(self).paths().contains(
                    other,
                ) && #[trigger] final(self).sender_of(other) == old(self).sender_of(other),
    {
        let found = self.position(path);
        let subscription = WatchSubscription { path: path.to_owned(), sender };
        match found {
            Some(i) => {
                proof {
                    let paths = self.paths();
                    let k = paths.index_of(path@);
                    assert(paths[k] == path@);
                    assert(k == i);
                    assert(subscribed_paths(self.subscriptions@.update(i as int, subscription))
                        =~= paths);
                    assert(self.subscriptions@.update(i as int, subscription).map_values(
                        |s: WatchSubscription| s.sender,
                    ) =~= self.senders().update(k, sender));
                    assert forall|other: Seq<char>|
                        other != path@ && paths.contains(other) implies paths.index_of(other)
                        != k by {
                        assert(paths[paths.index_of(other)] == other);
                    }
                }
                self.subscriptions.set(i, subscription);
            },
            None => {
                proof {
                    let paths = self.paths();
                    let grown = subscribed_paths(self.subscriptions@.push(subscription));
                    assert(grown =~= paths.push(path@));
                    assert(self.subscriptions@.push(subscription).map_values(
                        |s: WatchSubscription| s.sender,
                    ) =~= self.senders().push(sender));
                    assert forall|a: int, b: int|
                        0 <= a < grown.len() && 0 <= b < grown.len() && a != b implies grown[a]
                        != grown[b] by {
                        if a < paths.len() {
                            assert(paths.contains(paths[a]));
                        }
                        if b < paths.len() {
                            assert(paths.contains(paths[b]));
                        }
                    }
                    assert(grown[paths.len() as int] == path@);
                    index_of_is_the_place(grown, paths.len() as int);
                    assert forall|other: Seq<char>|
                        other != path@ && paths.contains(other) implies grown.contains(other)
                        && grown.index_of(other) == paths.index_of(other) by {
                        let at = paths.index_of(other);
                        assert(paths[at] == other);
                        assert(grown[at] == other);
                        index_of_is_the_place(grown, at);
                    }
                }
                self.subscriptions.push(subscription);
            },
        }
    }

    /// The subscriptions that an event about `paths` goes to.
    pub fn targets(&self, paths: &Vec<Option<String>>) -> (r: Vec<usize>)
        requires
            self.wf(),
        ensures
            r@.map_values(|t: usize| t as int) == targets_spec(self.paths(), path_views(paths@)),
            forall|i: int| 0 <= i < r@.len() ==> (#[trigger] r@[i]) < self.paths().len(),
    {
        let mut found: Vec<usize> = Vec::new();
        let mut i: usize = 0;
        while i < paths.len()
            invariant
                i <= paths.len(),
                self.wf(),
                found@.map_values(|t: usize| t as int) == targets_spec(
                    self.paths(),
                    path_views(paths@).take(i as int),
                ),
                forall|k: int| 0 <= k < found@.len() ==> (#[trigger] found@[k]) < self.paths().len(),
            decreases paths.len() - i,
        {
            let ghost views = path_views(paths@);
            let ghost before = found@;
            proof {
                assert(views.take(i + 1).drop_last() == views.take(i as int));
                assert(views.take(i + 1).last() == views[i as int]);
            }
            match &paths[i] {
                Some(p) => {
                    assert(views[i as int] == Some(p@));
                    match self.position(p.as_str()) {
                        Some(t) => {
                            found.push(t);
                            proof {
                                let registered = self.paths();
                                assert(registered.contains(p@));
                                let k = registered.index_of(p@);
                                assert(registered[k] == p@);
                                assert(k == t);
                                assert(found@.map_values(|t: usize| t as int)
                                    =~= before.map_values(|t: usize| t as int).push(t as int));
                            }
                        },
                        None => {},
                    }
                },
                None => {
                    assert(views[i as int] == None::<Seq<char>>);
                },
            }
            i += 1;
        }
        proof {
            assert(path_views(paths@).take(paths.len() as int) == path_views(paths@));
        }
        found
    }

    /// Offers the event to the consumer of every affected path, one attempt
    /// per target and in the targets' order. An attempt that finds a channel
    /// full or closed changes nothing for the consumers that follow: each of
    /// them is still offered the event.
    pub fn dispatch(&self, event: &Event, paths: &Vec<Option<String>>) -> (r: Vec<Delivery>)
        requires
            self.wf(),
        ensures
            attempts_match(r@, targets_spec(self.paths(), path_views(paths@))),
    {
        let targets = self.targets(paths);
        let ghost wanted = targets_spec(self.paths(), path_views(paths@));
        let mut deliveries: Vec<Delivery> = Vec::new();
        let mut i: usize = 0;
        while i < targets.len()
            invariant
                i <= targets.len(),
                targets@.map_values(|t: usize| t as int) == wanted,
                forall|k: int|
                    0 <= k < targets@.len() ==> (#[trigger] targets@[k]) < self.subscriptions@.len(),
                deliveries@.len() == i,
                forall|k: int| 0 <= k < i ==> (#[trigger] deliveries@[k]).target == wanted[k],
            decreases targets.len() - i,
        {
            let target = targets[i];
            assert(targets@.map_values(|t: usize| t as int)[i as int] == target);
            let outcome = try_send(&self.subscriptions[target].sender, event);
            deliveries.push(Delivery { target, outcome });
            i += 1;
        }
        deliveries
    }

    /// Takes one event from the watcher and offers it to the consumer of
    /// every path it is about: one attempt for each of the event's paths
    /// that is registered, in the order of the event's paths.
    pub fn handle_event(&self, event: &Event) -> (r: Vec<Delivery>)
        requires
            self.wf(),
        ensures
            attempts_match(r@, targets_spec(self.paths(), event_paths_of(*event))),
            forall|i: int| 0 <= i < r@.len() ==> (#[trigger] r@[i]).target < self.paths().len(),
    {
        let paths = event_paths(event);
        let deliveries = self.dispatch(event, &paths);
        proof {
            targets_are_registered(self.paths(), path_views(paths@));
        }
        deliveries
    }

    /// The path that the subscription at `target` was registered under.
    pub fn path_of(&self, target: usize) -> (r: &str)
        requires
            target < self.paths().len(),
        ensures
            r@ == self.paths()[target as int],
    {
        self.subscriptions[target].path.as_str()
    }
}

} // verus!
