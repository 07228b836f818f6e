//! The state machine that follows one log file.
//!
//! A tailer opens its file, reads past what is already there, and from then
//! on counts every line it reads. When it has read to the end it waits for
//! filesystem events; a burst of them is folded into one signal, and that
//! signal decides whether it waits on, reads on, or takes the file as
//! replaced: then it reads what is left of the old file, opens the path anew
//! and again reads past what it finds.
//!
//! The machine itself touches no file. Its owner performs the action that a
//! transition asks for and reports what came of it as the next event.

use notify::Event;
use tokio::sync::mpsc::error::TryRecvError;
use tokio::sync::mpsc::Receiver;
use vstd::prelude::*;

use crate::coalesce::CoalescedFsEvent;
use crate::coalesce::FsEventKind;
use crate::fs_watcher::event_kind;
use crate::fs_watcher::event_kind_of;
use crate::fs_watcher::kinds_of;

verus! {

#[verifier::external_type_specification]
#[verifier::external_body]
#[verifier::reject_recursive_types(T)]
pub struct ExReceiver<T>(tokio::sync::mpsc::Receiver<T>);

/// Where a tailer stands.
#[derive(Debug, Clone, Copy, PartialEq, Eq, Structural)]
pub enum TailerState {
    /// Subscribing to the path and opening the file for the first time.
    Opening,
    /// Reading past the lines that the file already holds.
    Catchup,
    /// Reading new lines; each one is counted.
    Streaming,
    /// At the end of the file, waiting for filesystem events.
    Waiting,
    /// The file was replaced: reading what is left on the old handle.
    RotationDetected,
    /// Subscribing to the path and opening the file again after a rotation.
    Reopening,
    /// The tailer has ended and does nothing more.
    Stopped,
}

/// What came of the action that the tailer asked for.
#[derive(Debug, Clone, Copy, PartialEq, Eq, Structural)]
pub enum TailerEvent {
    /// The path is watched and the file is open.
    Opened,
    /// Watching the path or opening the file failed.
    OpenFailed,
    /// A line was read.
    Line,
    /// There is no further line for now.
    EndOfFile,
    /// Reading failed.
    ReadFailed,
    /// Filesystem events arrived; this is what they amount to.
    Signal(CoalescedFsEvent),
    /// The event channel is closed: the watcher is gone.
    ChannelClosed,
}

/// Why a tailer ended.
#[derive(Debug, Clone, Copy, PartialEq, Eq, Structural)]
pub enum StopReason {
    /// The file could not be watched or opened when the tailer started.
    OpenFailed,
    /// The file could not be watched or opened again after a rotation.
    ReopenFailed,
    /// Reading from the file failed.
    ReadFailed,
    /// The event channel was closed.
    ChannelClosed,
    /// An event arrived that the state does not expect, or the tailer had
    /// stopped already.
    UnexpectedEvent,
}

/// What the owner of the tailer has to do next.
#[derive(Debug, Clone, Copy, PartialEq, Eq, Structural)]
pub enum TailerAction {
    /// Drop the open handle, if any; subscribe to the path and open the file
    /// from its start. Report `Opened` or `OpenFailed`.
    Open,
    /// Read the next line from the open handle. Report `Line`, `EndOfFile` or
    /// `ReadFailed`.
    ReadLine,
    /// Wait for a filesystem event, then take what else is queued. Report
    /// `Signal` or `ChannelClosed`.
    AwaitEvents,
    /// End the task.
    Stop(StopReason),
}

/// One step of the machine.
#[derive(Debug, Clone, Copy, PartialEq, Eq, Structural)]
pub struct Transition {
    /// The state after the event.
    pub next: TailerState,
    /// What to do now.
    pub action: TailerAction,
    /// Whether the event was a line that has to be counted.
    pub counts_line: bool,
}

impl Transition {
    /// A step that counts nothing.
    pub open spec fn quiet(next: TailerState, action: TailerAction) -> Transition {
        Transition { next, action, counts_line: false }
    }

    /// The step that ends the tailer.
    pub open spec fn stop(reason: StopReason) -> Transition {
        Transition { next: TailerState::Stopped, action: TailerAction::Stop(reason), counts_line: false }
    }
}

impl TailerState {
    /// Whether lines read in this state are counted.
    pub open spec fn counts_lines(self) -> bool {
        self == TailerState::Streaming || self == TailerState::RotationDetected
    }

    /// Whether the state is one in which the event may arrive: it answers
    /// the action that led into the state.
    pub open spec fn expects(self, event: TailerEvent) -> bool {
        match self {
            TailerState::Opening | TailerState::Reopening => event == TailerEvent::Opened || event
                == TailerEvent::OpenFailed,
            TailerState::Catchup | TailerState::Streaming | TailerState::RotationDetected => event
                == TailerEvent::Line || event == TailerEvent::EndOfFile || event
                == TailerEvent::ReadFailed,
            TailerState::Waiting => event is Signal || event == TailerEvent::ChannelClosed,
            TailerState::Stopped => false,
        }
    }

    /// The transition table.
    pub open spec fn step_spec(self, event: TailerEvent) -> Transition {
        match (self, event) {
            (TailerState::Opening, TailerEvent::Opened) => Transition::quiet(
                TailerState::Catchup,
                TailerAction::ReadLine,
            ),
            (TailerState::Opening, TailerEvent::OpenFailed) => Transition::stop(
                StopReason::OpenFailed,
            ),
            (TailerState::Reopening, TailerEvent::Opened) => Transition::quiet(
                TailerState::Catchup,
                TailerAction::ReadLine,
            ),
            (TailerState::Reopening, TailerEvent::OpenFailed) => Transition::stop(
                StopReason::ReopenFailed,
            ),
            (TailerState::Catchup, TailerEvent::Line) => Transition::quiet(
                TailerState::Catchup,
                TailerAction::ReadLine,
            ),
            (TailerState::Catchup, TailerEvent::EndOfFile) => Transition::quiet(
                TailerState::Streaming,
                TailerAction::ReadLine,
            ),
            (TailerState::Catchup, TailerEvent::ReadFailed) => Transition::quiet(
                TailerState::Streaming,
                TailerAction::ReadLine,
            ),
            (TailerState::Streaming, TailerEvent::Line) => Transition {
                next: TailerState::Streaming,
                action: TailerAction::ReadLine,
                counts_line: true,
            },
            (TailerState::Streaming, TailerEvent::EndOfFile) => Transition::quiet(
                TailerState::Waiting,
                TailerAction::AwaitEvents,
            ),
            (TailerState::Streaming, TailerEvent::ReadFailed) => Transition::stop(
                StopReason::ReadFailed,
            ),
            (TailerState::Waiting, TailerEvent::Signal(signal)) => match signal {
                CoalescedFsEvent::Nothing => Transition::quiet(
                    TailerState::Waiting,
                    TailerAction::AwaitEvents,
                ),
                CoalescedFsEvent::NewData => Transition::quiet(
                    TailerState::Streaming,
                    TailerAction::ReadLine,
                ),
                CoalescedFsEvent::NewFile => Transition::quiet(
                    TailerState::RotationDetected,
                    TailerAction::ReadLine,
                ),
            },
            (TailerState::Waiting, TailerEvent::ChannelClosed) => Transition::stop(
                StopReason::ChannelClosed,
            ),
            (TailerState::RotationDetected, TailerEvent::Line) => Transition {
                next: TailerState::RotationDetected,
                action: TailerAction::ReadLine,
                counts_line: true,
            },
            (TailerState::RotationDetected, TailerEvent::EndOfFile) => Transition::quiet(
                TailerState::Reopening,
                TailerAction::Open,
            ),
            (TailerState::RotationDetected, TailerEvent::ReadFailed) => Transition::stop(
                StopReason::ReadFailed,
            ),
            _ => Transition::stop(StopReason::UnexpectedEvent),
        }
    }

    /// The state a new tailer is in. Its owner starts with the action
    /// `Open`.
    pub fn start() -> (r: TailerState)
        ensures
            r == TailerState::Opening,
    {
        TailerState::Opening
    }

    /// Takes the outcome of the last action and says which state follows,
    /// what to do next, and whether a line is to be counted.
    pub fn step(self, event: TailerEvent) -> (r: Transition)
        ensures
            r == self.step_spec(event),
    {
        let unexpected = Transition {
            next: TailerState::Stopped,
            action: TailerAction::Stop(StopReason::UnexpectedEvent),
            counts_line: false,
        };
        match self {
            TailerState::Opening | TailerState::Reopening => match event {
                TailerEvent::Opened => Transition {
                    next: TailerState::Catchup,
                    action: TailerAction::ReadLine,
                    counts_line: false,
                },
                TailerEvent::OpenFailed => {
                    let reason = match self {
                        TailerState::Opening => StopReason::OpenFailed,
                        _ => StopReason::ReopenFailed,
                    };
                    Transition {
                        next: TailerState::Stopped,
                        action: TailerAction::Stop(reason),
                        counts_line: false,
                    }
                },
                _ => unexpected,
            },
            TailerState::Catchup => match event {
                TailerEvent::Line => Transition {
                    next: TailerState::Catchup,
                    action: TailerAction::ReadLine,
                    counts_line: false,
                },
                TailerEvent::EndOfFile | TailerEvent::ReadFailed => Transition {
                    next: TailerState::Streaming,
                    action: TailerAction::ReadLine,
                    counts_line: false,
                },
                _ => unexpected,
            },
            TailerState::Streaming | TailerState::RotationDetected => match event {
                TailerEvent::Line => Transition {
                    next: self,
                    action: TailerAction::ReadLine,
                    counts_line: true,
                },
                TailerEvent::EndOfFile => match self {
                    TailerState::Streaming => Transition {
                        next: TailerState::Waiting,
                        action: TailerAction::AwaitEvents,
                        counts_line: false,
                    },
                    _ => Transition {
                        next: TailerState::Reopening,
                        action: TailerAction::Open,
                        counts_line: false,
                    },
                },
                TailerEvent::ReadFailed => Transition {
                    next: TailerState::Stopped,
                    action: TailerAction::Stop(StopReason::ReadFailed),
                    counts_line: false,
                },
                _ => unexpected,
            },
            TailerState::Waiting => match event {
                TailerEvent::Signal(signal) => match signal {
                    CoalescedFsEvent::Nothing => Transition {
                        next: TailerState::Waiting,
                        action: TailerAction::AwaitEvents,
                        counts_line: false,
                    },
                    CoalescedFsEvent::NewData => Transition {
                        next: TailerState::Streaming,
                        action: TailerAction::ReadLine,
                        counts_line: false,
                    },
                    CoalescedFsEvent::NewFile => Transition {
                        next: TailerState::RotationDetected,
                        action: TailerAction::ReadLine,
                        counts_line: false,
                    },
                },
                TailerEvent::ChannelClosed => Transition {
                    next: TailerState::Stopped,
                    action: TailerAction::Stop(StopReason::ChannelClosed),
                    counts_line: false,
                },
                _ => unexpected,
            },
            TailerState::Stopped => unexpected,
        }
    }
}

/// Calls `tokio::sync::mpsc::Receiver::try_recv`, which does not wait for an
/// event to arrive: it hands out the next queued event, or `None` where the
/// channel is empty or empty with its senders gone. What is queued depends
/// on what the watcher has sent so far, so nothing is claimed of the result.
#[verifier::external_body]
pub(crate) fn try_recv(receiver: &mut Receiver<Event>) -> Option<Event> {
    match receiver.try_recv() {
        Ok(event) => Some(event),
        Err(TryRecvError::Empty) => None,
        Err(TryRecvError::Disconnected) => None,
    }
}

/// Folds the event that ended a wait, and every event that is queued behind
/// it at this moment, into one signal. Nothing is waited for: the queue is
/// taken until it is found empty (or, so that the loop is known to end,
/// until `usize::MAX` events were taken from it). The result is the signal
/// of the burst that begins with the first event and goes on with the
/// events that were taken from the queue, merged from `Nothing`; it is never
/// lower than the signal of the first event alone.
pub fn coalesce_pending(first: &Event, receiver: &mut Receiver<Event>) -> (r: CoalescedFsEvent)
    ensures
        exists|taken: Seq<Event>|
            r == CoalescedFsEvent::Nothing.merge_all_spec(
                seq![event_kind_of(*first)] + #[trigger] kinds_of(taken),
            ),
        r.rank() >= CoalescedFsEvent::of_kind(event_kind_of(*first)).rank(),
{
    let first_kind = event_kind(first);
    let mut signal = CoalescedFsEvent::Nothing.merge(first_kind);
    let ghost mut taken: Seq<Event> = Seq::empty();
    proof {
        let one = seq![first_kind];
        assert(kinds_of(taken) =~= Seq::empty());
        assert(one + kinds_of(taken) == one);
        assert(one.drop_last() == Seq::<FsEventKind>::empty());
        assert(CoalescedFsEvent::Nothing.merge_all_spec(one.drop_last())
            == CoalescedFsEvent::Nothing);
    }
    let mut budget: usize = usize::MAX;
    while budget > 0
        invariant
            signal == CoalescedFsEvent::Nothing.merge_all_spec(seq![first_kind] + kinds_of(taken)),
        decreases budget,
    {
        match try_recv(receiver) {
            Some(event) => {
                let kind = event_kind(&event);
                proof {
                    let grown = taken.push(event);
                    assert(kinds_of(grown) =~= kinds_of(taken).push(kind));
                    assert((seq![first_kind] + kinds_of(grown)).drop_last() == seq![first_kind]
                        + kinds_of(taken));
                    assert((seq![first_kind] + kinds_of(grown)).last() == kind);
                    taken = grown;
                }
                signal = signal.merge(kind);
            },
            None => {
                break ;
            },
        }
        budget -= 1;
    }
    proof {
        let burst = seq![first_kind] + kinds_of(taken);
        crate::coalesce::merge_all_is_the_maximum(CoalescedFsEvent::Nothing, burst);
        assert(burst[0] == first_kind);
    }
    signal
}

/// Where a tailer stands after a sequence of events, and how many lines it
/// has counted on the way, given where it stood and what it had counted
/// before.
pub open spec fn advance(from: (TailerState, nat), events: Seq<TailerEvent>) -> (TailerState, nat)
    decreases events.len(),
{
    if events.len() == 0 {
        from
    } else {
        let before = advance(from, events.drop_last());
        let t = before.0.step_spec(events.last());
        (
            t.next,
            if t.counts_line {
                before.1 + 1
            } else {
                before.1
            },
        )
    }
}

/// `n` lines read one after the other.
pub open spec fn lines(n: nat) -> Seq<TailerEvent> {
    Seq::new(n, |i: int| TailerEvent::Line)
}

/// A line is counted exactly when it is read while streaming or while the
/// old handle is flushed after a rotation; no other event counts anything.
pub proof fn only_streamed_lines_count(state: TailerState, event: TailerEvent)
    ensures
        state.step_spec(event).counts_line <==> (state.counts_lines() && event
            == TailerEvent::Line),
{
}

/// The file is opened anew only when the old handle has been read to its
/// end after a rotation: whatever was written to the old file is counted
/// before the new file is looked at.
pub proof fn reopening_follows_the_flush(state: TailerState, event: TailerEvent)
    ensures
        state.step_spec(event).action == TailerAction::Open <==> (state
            == TailerState::RotationDetected && event == TailerEvent::EndOfFile),
{
}

/// The tailer ends exactly when it says so: the state `Stopped` and the
/// action `Stop` come together. It ends on a failed open, on a failed read
/// outside catch-up, on a closed event channel, and on an event that the
/// state does not expect.
pub proof fn stopping_is_announced(state: TailerState, event: TailerEvent)
    ensures
        state.step_spec(event).next == TailerState::Stopped <==> state.step_spec(event).action
            is Stop,
        state.step_spec(event).next == TailerState::Stopped <==> {
            ||| !state.expects(event)
            ||| event == TailerEvent::OpenFailed
            ||| event == TailerEvent::ChannelClosed
            ||| (event == TailerEvent::ReadFailed && state != TailerState::Catchup)
        },
{
}

/// A stopped tailer stays stopped and counts nothing.
pub proof fn stopped_is_terminal(from: (TailerState, nat), events: Seq<TailerEvent>)
    requires
        from.0 == TailerState::Stopped,
    ensures
        advance(from, events) == from,
    decreases events.len(),
{
    if events.len() > 0 {
        stopped_is_terminal(from, events.drop_last());
    }
}

/// An event that the state does not expect stops the tailer.
pub proof fn unexpected_events_stop(state: TailerState, event: TailerEvent)
    requires
        !state.expects(event),
    ensures
        state.step_spec(event) == Transition::stop(StopReason::UnexpectedEvent),
{
}

/// A single event leads where the transition table says.
pub proof fn advance_once(from: (TailerState, nat), event: TailerEvent)
    ensures
        advance(from, seq![event]) == (
            from.0.step_spec(event).next,
            if from.0.step_spec(event).counts_line {
                from.1 + 1
            } else {
                from.1
            },
        ),
{
    let one = seq![event];
    assert(one.drop_last() == Seq::<TailerEvent>::empty());
    assert(one.last() == event);
    assert(advance(from, one.drop_last()) == from);
}

/// A sequence of events taken in two parts leads to the same state and the
/// same count as the sequence taken at once.
pub proof fn advance_splits(
    from: (TailerState, nat),
    first: Seq<TailerEvent>,
    second: Seq<TailerEvent>,
)
    ensures
        advance(from, first + second) == advance(advance(from, first), second),
    decreases second.len(),
{
    if second.len() == 0 {
        assert(first + second == first);
    } else {
        advance_splits(from, first, second.drop_last());
        assert((first + second).drop_last() == first + second.drop_last());
        assert((first + second).last() == second.last());
    }
}

/// The count never goes down, and rises by at most one per event.
pub proof fn count_is_bounded(from: (TailerState, nat), events: Seq<TailerEvent>)
    ensures
        from.1 <= advance(from, events).1 <= from.1 + events.len(),
    decreases events.len(),
{
    if events.len() > 0 {
        count_is_bounded(from, events.drop_last());
    }
}

/// Lines read during catch-up are passed over: the tailer stays in catch-up
/// and counts none of them.
pub proof fn catchup_skips_lines(counted: nat, n: nat)
    ensures
        advance((TailerState::Catchup, counted), lines(n)) == (TailerState::Catchup, counted),
    decreases n,
{
    if n > 0 {
        catchup_skips_lines(counted, (n - 1) as nat);
        assert(lines(n).drop_last() == lines((n - 1) as nat));
    }
}

/// Lines read while streaming, or while the old handle is flushed, are each
/// counted once, and the state stays as it is.
pub proof fn streaming_counts_lines(state: TailerState, counted: nat, n: nat)
    requires
        state.counts_lines(),
    ensures
        advance((state, counted), lines(n)) == (state, counted + n),
    decreases n,
{
    if n > 0 {
        streaming_counts_lines(state, counted, (n - 1) as nat);
        assert(lines(n).drop_last() == lines((n - 1) as nat));
    }
}

/// The events of an open that finds `found` lines in the file and no more:
/// the open succeeds, the lines are read, the end is reached, and the first
/// read of the streaming phase finds the end again.
pub open spec fn open_and_catch_up(found: nat) -> Seq<TailerEvent> {
    seq![TailerEvent::Opened] + lines(found) + seq![TailerEvent::EndOfFile, TailerEvent::EndOfFile]
}

/// The events of `written` lines being appended: the burst amounts to
/// `NewData`, the lines are read and the end is reached.
pub open spec fn append_and_read(written: nat) -> Seq<TailerEvent> {
    seq![TailerEvent::Signal(CoalescedFsEvent::NewData)] + lines(written) + seq![
        TailerEvent::EndOfFile,
    ]
}

/// The events of a rotation seen while waiting: the burst amounts to
/// `NewFile`, `left` lines are still read from the old handle, then the path
/// is opened anew and `found` lines are already in the new file.
pub open spec fn rotate(left: nat, found: nat) -> Seq<TailerEvent> {
    seq![TailerEvent::Signal(CoalescedFsEvent::NewFile)] + lines(left) + seq![
        TailerEvent::EndOfFile,
    ] + open_and_catch_up(found)
}

/// Opening, from either opening state, passes over every line that is
/// already in the file and ends waiting, with the count unchanged.
pub proof fn opening_counts_nothing(state: TailerState, counted: nat, found: nat)
    requires
        state == TailerState::Opening || state == TailerState::Reopening,
    ensures
        advance((state, counted), open_and_catch_up(found)) == (TailerState::Waiting, counted),
{
    let a = seq![TailerEvent::Opened];
    let b = lines(found);
    let c = seq![TailerEvent::EndOfFile, TailerEvent::EndOfFile];
    let from = (state, counted);
    advance_splits(from, a + b, c);
    advance_splits(from, a, b);
    advance_once(from, TailerEvent::Opened);
    catchup_skips_lines(counted, found);
    let mid = (TailerState::Catchup, counted);
    assert(advance(from, a + b) == mid);
    let c1 = seq![TailerEvent::EndOfFile];
    assert(c == c1 + c1);
    advance_splits(mid, c1, c1);
    advance_once(mid, TailerEvent::EndOfFile);
    advance_once((TailerState::Streaming, counted), TailerEvent::EndOfFile);
}

/// Appended lines are each counted once, and the tailer waits again.
pub proof fn appended_lines_are_counted(counted: nat, written: nat)
    ensures
        advance((TailerState::Waiting, counted), append_and_read(written)) == (
            TailerState::Waiting,
            counted + written,
        ),
{
    let a = seq![TailerEvent::Signal(CoalescedFsEvent::NewData)];
    let b = lines(written);
    let c = seq![TailerEvent::EndOfFile];
    let from = (TailerState::Waiting, counted);
    advance_splits(from, a + b, c);
    advance_splits(from, a, b);
    advance_once(from, TailerEvent::Signal(CoalescedFsEvent::NewData));
    streaming_counts_lines(TailerState::Streaming, counted, written);
    advance_once((TailerState::Streaming, counted + written), TailerEvent::EndOfFile);
}

/// A rotation counts the lines that were left on the old handle, each once,
/// and none of the lines that the new file already holds when it is opened.
pub proof fn rotation_counts_what_was_left(counted: nat, left: nat, found: nat)
    ensures
        advance((TailerState::Waiting, counted), rotate(left, found)) == (
            TailerState::Waiting,
            counted + left,
        ),
{
    let a = seq![TailerEvent::Signal(CoalescedFsEvent::NewFile)];
    let b = lines(left);
    let c = seq![TailerEvent::EndOfFile];
    let d = open_and_catch_up(found);
    let from = (TailerState::Waiting, counted);
    advance_splits(from, a + b + c, d);
    advance_splits(from, a + b, c);
    advance_splits(from, a, b);
    advance_once(from, TailerEvent::Signal(CoalescedFsEvent::NewFile));
    streaming_counts_lines(TailerState::RotationDetected, counted, left);
    advance_once((TailerState::RotationDetected, counted + left), TailerEvent::EndOfFile);
    assert(advance(from, a + b + c) == (TailerState::Reopening, counted + left));
    opening_counts_nothing(TailerState::Reopening, counted + left, found);
}

/// A tailer started on a file that holds `existing` lines, to which
/// `written` lines are then appended, counts exactly `written` lines.
pub proof fn catchup_counts_only_new_lines(existing: nat, written: nat)
    ensures
        advance(
            (TailerState::Opening, 0),
            open_and_catch_up(existing) + append_and_read(written),
        ) == (TailerState::Waiting, written),
{
    let from = (TailerState::Opening, 0nat);
    advance_splits(from, open_and_catch_up(existing), append_and_read(written));
    opening_counts_nothing(TailerState::Opening, 0, existing);
    appended_lines_are_counted(0, written);
}

/// Lines written before a rotation, lines still unread when the rotation is
/// seen, and lines written after it are each counted exactly once: with
/// `before` lines appended and read, then a rotation that leaves `left`
/// lines on the old handle and finds `found` lines in the new file, then
/// `after` lines appended, the count is `before + left + after`.
pub proof fn rotation_counts_every_line_once(
    existing: nat,
    before: nat,
    left: nat,
    found: nat,
    after: nat,
)
    ensures
        advance(
            (TailerState::Opening, 0),
            open_and_catch_up(existing) + append_and_read(before) + rotate(left, found)
                + append_and_read(after),
        ) == (TailerState::Waiting, before + left + after),
{
    let from = (TailerState::Opening, 0nat);
    let a = open_and_catch_up(existing);
    let b = append_and_read(before);
    let c = rotate(left, found);
    let d = append_and_read(after);
    advance_splits(from, a + b + c, d);
    advance_splits(from, a + b, c);
    catchup_counts_only_new_lines(existing, before);
    rotation_counts_what_was_left(before, left, found);
    appended_lines_are_counted(before + left, after);
}

/// Runs the machine over a recorded sequence of events, starting from
/// `start`, and returns where it ends and how many lines it counted.
pub fn run(start: TailerState, events: &Vec<TailerEvent>) -> (r: (TailerState, usize))
    ensures
        (r.0, r.1 as nat) == advance((start, 0), events@),
{
    let mut state = start;
    let mut counted: usize = 0;
    let mut i: usize = 0;
    while i < events.len()
        invariant
            i <= events.len(),
            (state, counted as nat) == advance((start, 0), events@.take(i as int)),
        decreases events.len() - i,
    {
        proof {
            let next = events@.take(i + 1);
            assert(next.drop_last() == events@.take(i as int));
            assert(next.last() == events@[i as int]);
            count_is_bounded((start, 0), next);
        }
        let t = state.step(events[i]);
        state = t.next;
        if t.counts_line {
            counted += 1;
        }
        i += 1;
    }
    proof {
        assert(events@.take(events.len() as int) == events@);
    }
    (state, counted)
}

} // verus!
