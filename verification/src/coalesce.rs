//! Folding a burst of filesystem events into the one signal a tailer acts on.

use notify::Event;
use vstd::prelude::*;

use crate::fs_watcher::event_kind;
use crate::fs_watcher::event_kind_of;

verus! {

/// What a raw filesystem event means to a tailer.
#[derive(Debug, Clone, Copy, PartialEq, Eq, Structural)]
pub enum FsEventKind {
    /// The contents of the file changed.
    DataModified,
    /// A file was created at the watched path.
    FileCreated,
    /// Anything else: metadata changes, removals, accesses.
    Other,
}

/// The kind of an event as the watcher reports it, as far as a tailer looks
/// at it: what was created, what was modified, or that it was something
/// else.
#[derive(Debug, Clone, Copy, PartialEq, Eq, Structural)]
pub enum WatcherEventKind {
    /// The watcher does not know what happened.
    Unknown,
    /// Something was read, opened or closed.
    Access,
    /// Something was created, the watcher does not know what.
    CreateUnknown,
    /// A file was created.
    CreateFile,
    /// A folder was created.
    CreateFolder,
    /// Something else was created.
    CreateOther,
    /// Something was modified, the watcher does not know what.
    ModifyUnknown,
    /// The contents of a file were modified.
    ModifyData,
    /// Metadata was modified.
    ModifyMetadata,
    /// A name was changed.
    ModifyName,
    /// Something else was modified.
    ModifyOther,
    /// Something was removed.
    Remove,
    /// Something else happened.
    Other,
}

impl WatcherEventKind {
    /// What an event of this kind means to a tailer: modified contents are a
    /// data change, a created file is a new file, and nothing else matters.
    /// A created folder, changed metadata and a changed name are among what
    /// does not matter.
    pub open spec fn class(self) -> FsEventKind {
        match self {
            WatcherEventKind::ModifyData => FsEventKind::DataModified,
            WatcherEventKind::CreateFile => FsEventKind::FileCreated,
            _ => FsEventKind::Other,
        }
    }

    /// Sorts the kind into the three classes that a tailer tells apart.
    pub fn classify(self) -> (r: FsEventKind)
        ensures
            r == self.class(),
    {
        match self {
            WatcherEventKind::ModifyData => FsEventKind::DataModified,
            WatcherEventKind::CreateFile => FsEventKind::FileCreated,
            WatcherEventKind::Unknown
            | WatcherEventKind::Access
            | WatcherEventKind::CreateUnknown
            | WatcherEventKind::CreateFolder
            | WatcherEventKind::CreateOther
            | WatcherEventKind::ModifyUnknown
            | WatcherEventKind::ModifyMetadata
            | WatcherEventKind::ModifyName
            | WatcherEventKind::ModifyOther
            | WatcherEventKind::Remove
            | WatcherEventKind::Other => FsEventKind::Other,
        }
    }
}

/// The strongest thing that happened in a burst of events.
///
/// The variants are ordered `Nothing < NewData < NewFile`; a higher one subsumes
/// the lower ones.
#[derive(Debug, Clone, Copy, PartialEq, Eq, Structural)]
pub enum CoalescedFsEvent {
    /// Nothing the tailer has to react to.
    Nothing,
    /// The file has grown.
    NewData,
    /// The file was replaced and has to be reopened.
    NewFile,
}

impl CoalescedFsEvent {
    /// Position of the signal in the order.
    pub open spec fn rank(self) -> nat {
        match self {
            CoalescedFsEvent::Nothing => 0,
            CoalescedFsEvent::NewData => 1,
            CoalescedFsEvent::NewFile => 2,
        }
    }

    /// The signal that a single event of the given kind amounts to.
    pub open spec fn of_kind(kind: FsEventKind) -> CoalescedFsEvent {
        match kind {
            FsEventKind::DataModified => CoalescedFsEvent::NewData,
            FsEventKind::FileCreated => CoalescedFsEvent::NewFile,
            FsEventKind::Other => CoalescedFsEvent::Nothing,
        }
    }

    /// The higher of two signals.
    pub open spec fn join_spec(self, other: CoalescedFsEvent) -> CoalescedFsEvent {
        if self.rank() >= other.rank() {
            self
        } else {
            other
        }
    }

    /// The signal after one more event of the given kind.
    pub open spec fn merge_spec(self, kind: FsEventKind) -> CoalescedFsEvent {
        self.join_spec(Self::of_kind(kind))
    }

    /// The signal after a whole burst, taken in order.
    pub open spec fn merge_all_spec(self, kinds: Seq<FsEventKind>) -> CoalescedFsEvent
        decreases kinds.len(),
    {
        if kinds.len() == 0 {
            self
        } else {
            self.merge_all_spec(kinds.drop_last()).merge_spec(kinds.last())
        }
    }

    /// The signal after a sequence of signals was joined onto this one.
    pub open spec fn join_all_spec(self, signals: Seq<CoalescedFsEvent>) -> CoalescedFsEvent
        decreases signals.len(),
    {
        if signals.len() == 0 {
            self
        } else {
            self.join_all_spec(signals.drop_last()).join_spec(signals.last())
        }
    }

    /// Position of the signal in the order, as a number.
    pub fn level(self) -> (r: u8)
        ensures
            r as nat == self.rank(),
    {
        match self {
            CoalescedFsEvent::Nothing => 0,
            CoalescedFsEvent::NewData => 1,
            CoalescedFsEvent::NewFile => 2,
        }
    }

    /// Returns the higher of the two signals.
    pub fn join(self, other: CoalescedFsEvent) -> (r: CoalescedFsEvent)
        ensures
            r == self.join_spec(other),
    {
        if self.level() >= other.level() {
            self
        } else {
            other
        }
    }

    /// Takes one more event into the signal: a data change raises it to at
    /// least `NewData`, a file creation to `NewFile`, any other event leaves
    /// it as it is.
    pub fn merge(self, kind: FsEventKind) -> (r: CoalescedFsEvent)
        ensures
            r == self.merge_spec(kind),
    {
        match kind {
            FsEventKind::DataModified => self.join(CoalescedFsEvent::NewData),
            FsEventKind::FileCreated => self.join(CoalescedFsEvent::NewFile),
            FsEventKind::Other => self,
        }
    }

    /// Takes one more event, as the watcher delivers it, into the signal:
    /// the result is what `merge` gives for the event's class, and so never
    /// lower than the signal was.
    pub fn merge_event(self, event: &Event) -> (r: CoalescedFsEvent)
        ensures
            r == self.merge_spec(event_kind_of(*event)),
            r.rank() >= self.rank(),
    {
        let kind = event_kind(event);
        self.merge(kind)
    }

    /// Takes a whole burst of events into the signal.
    pub fn merge_all(self, kinds: &Vec<FsEventKind>) -> (r: CoalescedFsEvent)
        ensures
            r == self.merge_all_spec(kinds@),
    {
        let mut signal = self;
        let mut i: usize = 0;
        while i < kinds.len()
            invariant
                i <= kinds.len(),
                signal == self.merge_all_spec(kinds@.take(i as int)),
            decreases kinds.len() - i,
        {
            proof {
                let next = kinds@.take(i + 1);
                assert(next.drop_last() == kinds@.take(i as int));
                assert(next.last() == kinds@[i as int]);
            }
            signal = signal.merge(kinds[i]);
            i += 1;
        }
        proof {
            assert(kinds@.take(kinds.len() as int) == kinds@);
        }
        signal
    }

    /// Joins a sequence of signals onto this one.
    pub fn join_all(self, signals: &Vec<CoalescedFsEvent>) -> (r: CoalescedFsEvent)
        ensures
            r == self.join_all_spec(signals@),
    {
        let mut signal = self;
        let mut i: usize = 0;
        while i < signals.len()
            invariant
                i <= signals.len(),
                signal == self.join_all_spec(signals@.take(i as int)),
            decreases signals.len() - i,
        {
            proof {
                let next = signals@.take(i + 1);
                assert(next.drop_last() == signals@.take(i as int));
                assert(next.last() == signals@[i as int]);
            }
            signal = signal.join(signals[i]);
            i += 1;
        }
        proof {
            assert(signals@.take(signals.len() as int) == signals@);
        }
        signal
    }
}

/// Joining signals is associative: how a burst is split into parts does not
/// change what it amounts to.
pub proof fn join_is_associative(a: CoalescedFsEvent, b: CoalescedFsEvent, c: CoalescedFsEvent)
    ensures
        a.join_spec(b).join_spec(c) == a.join_spec(b.join_spec(c)),
{
}

/// Joining signals is commutative and idempotent, and `Nothing` is its
/// neutral element.
pub proof fn join_is_a_maximum(a: CoalescedFsEvent, b: CoalescedFsEvent)
    ensures
        a.join_spec(b) == b.join_spec(a),
        a.join_spec(a) == a,
        a.join_spec(CoalescedFsEvent::Nothing) == a,
        a.join_spec(b).rank() >= a.rank(),
        a.join_spec(b).rank() >= b.rank(),
        a.join_spec(b) == a || a.join_spec(b) == b,
{
}

/// A burst taken in two parts amounts to the same signal as the burst taken
/// at once.
pub proof fn merge_all_splits(
    start: CoalescedFsEvent,
    first: Seq<FsEventKind>,
    second: Seq<FsEventKind>,
)
    ensures
        start.merge_all_spec(first + second) == start.merge_all_spec(first).merge_all_spec(
            second,
        ),
    decreases second.len(),
{
    if second.len() == 0 {
        assert(first + second == first);
    } else {
        merge_all_splits(start, first, second.drop_last());
        assert((first + second).drop_last() == first + second.drop_last());
        assert((first + second).last() == second.last());
    }
}

/// Merging is monotonic: the signal after a whole burst is at least the
/// signal after any prefix of it, and so at least the signal it started from.
pub proof fn merge_all_is_monotonic(start: CoalescedFsEvent, kinds: Seq<FsEventKind>, n: int)
    requires
        0 <= n <= kinds.len(),
    ensures
        start.merge_all_spec(kinds.take(n)).rank() <= start.merge_all_spec(kinds).rank(),
    decreases kinds.len(),
{
    if n == kinds.len() {
        assert(kinds.take(n) == kinds);
    } else {
        merge_all_is_monotonic(start, kinds.drop_last(), n);
        assert(kinds.drop_last().take(n) == kinds.take(n));
    }
}

/// The signal after a burst is the maximum of the starting signal and of the
/// signals of the single events: it is at least each of them, and it is one
/// of them.
pub proof fn merge_all_is_the_maximum(start: CoalescedFsEvent, kinds: Seq<FsEventKind>)
    ensures
        start.merge_all_spec(kinds).rank() >= start.rank(),
        forall|i: int|
            0 <= i < kinds.len() ==> start.merge_all_spec(kinds).rank() >= (
            #[trigger] CoalescedFsEvent::of_kind(kinds[i])).rank(),
        start.merge_all_spec(kinds) == start || exists|i: int|
            0 <= i < kinds.len() && start.merge_all_spec(kinds) == #[trigger] CoalescedFsEvent::of_kind(
                kinds[i],
            ),
    decreases kinds.len(),
{
    if kinds.len() > 0 {
        let front = kinds.drop_last();
        merge_all_is_the_maximum(start, front);
        let before = start.merge_all_spec(front);
        let after = start.merge_all_spec(kinds);
        assert forall|i: int| 0 <= i < kinds.len() implies after.rank() >= (
        #[trigger] CoalescedFsEvent::of_kind(kinds[i])).rank() by {
            if i < front.len() {
                assert(front[i] == kinds[i]);
            }
        }
        if after != start {
            if after == before {
                let i = choose|i: int|
                    0 <= i < front.len() && before == #[trigger] CoalescedFsEvent::of_kind(
                        front[i],
                    );
                assert(front[i] == kinds[i]);
            } else {
                assert(after == CoalescedFsEvent::of_kind(kinds[kinds.len() - 1]));
            }
        }
    }
}

/// Events of kind `Other` never change the signal.
pub proof fn other_events_are_ignored(start: CoalescedFsEvent)
    ensures
        start.merge_spec(FsEventKind::Other) == start,
{
}

} // verus!
