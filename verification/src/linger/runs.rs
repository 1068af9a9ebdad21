//! What holds of a lingering reader over all that is done with it, in any order.
use crate::create::{CreateError, Mkfifo, Stat};
use crate::linger::{
    LingerAction, LingerEvent, LingerState, Popped, StartEvent, StartPhase, Started,
};
use vstd::prelude::*;

verus! {

/// What is done with a reader.
pub enum Use {
    /// Its thread learns something.
    Thread(LingerEvent<Seq<u8>>),
    /// Someone waits for a message.
    Pop {
        /// With this timeout.
        timeout: u64,
        /// And has waited so long.
        waited: u64,
        /// And sees whether the FIFO is still there.
        there: bool,
    },
    /// It is asked to stop.
    RaiseStop,
}

/// The reader after one use.
pub open spec fn used(s: LingerState, how: Use) -> LingerState {
    match how {
        Use::Thread(event) => s.step(event).0,
        Use::Pop { .. } => s.popped(),
        Use::RaiseStop => LingerState { stopping: true, ..s },
    }
}

/// The reader after a run of uses.
pub open spec fn run(uses: Seq<Use>) -> LingerState
    decreases uses.len(),
{
    if uses.len() == 0 {
        crate::linger::new_linger()
    } else {
        used(run(uses.drop_last()), uses.last())
    }
}

/// The messages that came in, as they are buffered: what each writer wrote, as text,
/// framed, except from writers that wrote nothing.
pub open spec fn heard(uses: Seq<Use>) -> Seq<Seq<char>>
    decreases uses.len(),
{
    if uses.len() == 0 {
        Seq::empty()
    } else {
        let before = heard(uses.drop_last());
        match uses.last() {
            Use::Thread(LingerEvent::Read(data)) if data.len() > 0 => before.push(
                crate::frame::framed_chars(crate::frame::text_of(data)),
            ),
            _ => before,
        }
    }
}

/// The messages that were taken while the reader went on.
pub open spec fn popped(uses: Seq<Use>) -> Seq<Seq<char>>
    decreases uses.len(),
{
    if uses.len() == 0 {
        Seq::empty()
    } else {
        let before = popped(uses.drop_last());
        match uses.last() {
            Use::Pop { timeout, waited, there } => match run(uses.drop_last()).pop(
                timeout,
                waited,
                there,
            ) {
                Some(Popped::Message(message)) => before.push(message),
                _ => before,
            },
            _ => before,
        }
    }
}

/// What was taken from a reader, followed by what it hands out when it is stopped, is what
/// came in: nothing is lost, nothing comes twice, and the order stays.
pub proof fn messages_come_out_as_they_came_in(uses: Seq<Use>)
    ensures
        popped(uses) + run(uses).queue == heard(uses),
    decreases uses.len(),
{
    if uses.len() == 0 {
        assert(popped(uses) + run(uses).queue =~= heard(uses));
    } else {
        messages_come_out_as_they_came_in(uses.drop_last());
        assert(popped(uses) + run(uses).queue =~= heard(uses));
    }
}

/// Whoever waits is told that the reader has stopped only when every message that came in
/// has been taken.
pub proof fn a_stopped_reader_is_drained_first(
    uses: Seq<Use>,
    timeout: u64,
    waited: u64,
    there: bool,
)
    requires
        run(uses).pop(timeout, waited, there) == Some(Popped::Stopped),
    ensures
        popped(uses) == heard(uses),
{
    messages_come_out_as_they_came_in(uses);
    assert(popped(uses) + run(uses).queue =~= popped(uses));
}

/// A wait with a timeout of zero ends with a message or with the reader, never by time.
pub proof fn a_timeout_of_zero_waits_on(uses: Seq<Use>, waited: u64, there: bool)
    ensures
        run(uses).pop(0, waited, there) != Some(Popped::TimedOut),
{
}

/// Nobody waits at a FIFO that was removed: whoever does is given a message that came in
/// before, and where there is none is told that the reader has stopped.
pub proof fn a_removed_fifo_ends_the_wait(uses: Seq<Use>, timeout: u64, waited: u64)
    ensures
        run(uses).pop(timeout, waited, false) == Some(
            if run(uses).queue.len() > 0 {
                Popped::Message(run(uses).queue[0])
            } else {
                Popped::Stopped
            },
        ),
{
}

/// Once a reader is asked to stop, its thread ends before the next writer, whatever was
/// done since.
pub proof fn a_reader_that_is_asked_to_stop_ends(uses: Seq<Use>, at: int)
    requires
        0 <= at < uses.len(),
        uses[at] is RaiseStop,
    ensures
        run(uses).step(LingerEvent::Turn).1 is Exit,
        !run(uses).step(LingerEvent::Turn).0.running,
    decreases uses.len(),
{
    if at < uses.len() - 1 {
        assert(uses.drop_last()[at] == uses[at]);
        a_reader_that_is_asked_to_stop_ends(uses.drop_last(), at);
    }
}

/// How the wait for a buffered message ends, by the time that was waited: with nothing
/// buffered, the reader running and its FIFO there, it ends by a timeout exactly where one was
/// given and its seconds have passed, and otherwise goes on.
pub proof fn the_timeout_ends_the_wait(s: LingerState, timeout: u64, waited: u64)
    requires
        s.queue.len() == 0,
        s.running,
    ensures
        s.pop(timeout, waited, true) == Some(Popped::TimedOut) <==> timeout > 0 && waited
            >= timeout * 1_000_000_000,
        s.pop(timeout, waited, true) is None <==> timeout == 0 || waited < timeout * 1_000_000_000,
{
}

/// A message that is buffered ends the wait at once, whatever the time, and is taken out alone:
/// it is the oldest, and the others stay in order. Where there is none, nothing changes.
pub proof fn the_oldest_message_is_taken(s: LingerState, timeout: u64, waited: u64, there: bool)
    ensures
        s.queue.len() > 0 ==> s.pop(timeout, waited, there) == Some(Popped::Message(s.queue[0]))
            && s.queue == seq![s.queue[0]] + s.popped().queue,
        s.queue.len() == 0 ==> s.popped() == s,
        s.popped().running == s.running && s.popped().stopping == s.stopping
            && s.popped().reading == s.reading,
        s.queue.len() == 0 && !s.running ==> s.pop(timeout, waited, there) == Some(
            Popped::Stopped,
        ),
{
    if s.queue.len() > 0 {
        assert(s.queue =~= seq![s.queue[0]] + s.popped().queue);
    }
}

/// What the thread of a reader does, and what it makes of the reader: it opens the FIFO again
/// and again until the reader is asked to stop or the FIFO fails it, and only then the reader
/// runs no more; a writer is there from the time that the FIFO is open until it was read.
pub proof fn a_reader_goes_round(s: LingerState, data: Seq<u8>)
    ensures
        s.step(LingerEvent::Turn).1 == if s.stopping {
            LingerAction::Exit
        } else {
            LingerAction::Open
        },
        s.step(LingerEvent::Turn).0 == (LingerState {
            running: s.running && !s.stopping,
            reading: false,
            ..s
        }),
        s.step(LingerEvent::Opened) == (LingerState { reading: true, ..s }, LingerAction::Read),
        s.step(LingerEvent::OpenFailed) == (
            LingerState { running: false, reading: false, ..s },
            LingerAction::Exit,
        ),
        s.step(LingerEvent::ReadFailed) == (
            LingerState { running: false, reading: false, ..s },
            LingerAction::Exit,
        ),
        s.step(LingerEvent::Read(data)).1 is Turn,
        s.step(LingerEvent::Read(data)).0.running == s.running,
        s.step(LingerEvent::Read(data)).0.stopping == s.stopping,
        !s.step(LingerEvent::Read(data)).0.reading,
        s.step(LingerEvent::Read(data)).0.queue == if data.len() == 0 {
            s.queue
        } else {
            s.queue.push(crate::frame::framed_chars(crate::frame::text_of(data)))
        },
        crate::linger::new_linger().running && !crate::linger::new_linger().stopping
            && !crate::linger::new_linger().reading,
        crate::linger::new_linger().queue == Seq::<Seq<char>>::empty(),
{
}

/// What the tool answers when the wait is over, and what it says of a reader that was not
/// started.
pub proof fn a_wait_is_answered(
    message: Seq<char>,
    path: Seq<char>,
    error: CreateError<Seq<char>>,
    reason: Seq<char>,
)
    ensures
        crate::linger::popped_reply(Popped::Message(message)) == Ok::<Seq<char>, Seq<char>>(
            message,
        ),
        crate::linger::popped_reply(Popped::Stopped) == Err::<Seq<char>, Seq<char>>(
            "linger reader has stopped"@,
        ),
        crate::linger::popped_reply(Popped::TimedOut) == Err::<Seq<char>, Seq<char>>(
            "timed out waiting for message"@,
        ),
        crate::linger::start_failure(Started::Running, path) is None,
        crate::linger::start_failure(Started::Refused(error), path) == Some(
            crate::create::refusal_text(error, path),
        ),
        crate::linger::start_failure(Started::SpawnFailed(reason), path) == Some(
            "failed to spawn linger thread: "@ + reason,
        ),
{
}

/// What a reader is told is taken as it stands.
pub proof fn linger_events_are_taken_as_they_are(
    data: Vec<u8>,
    error: CreateError<String>,
    reason: String,
)
    ensures
        LingerEvent::Read(data)@ == LingerEvent::Read(data@),
        LingerEvent::<Vec<u8>>::Turn@ is Turn,
        LingerEvent::<Vec<u8>>::Opened@ is Opened,
        LingerEvent::<Vec<u8>>::OpenFailed@ is OpenFailed,
        LingerEvent::<Vec<u8>>::ReadFailed@ is ReadFailed,
        Started::<String>::Running@ is Running,
        Started::Refused(error)@ == Started::Refused(error@),
        Started::SpawnFailed(reason)@ == Started::SpawnFailed(reason@),
{
}

/// Where the start of a reader is after a run of events.
pub open spec fn start_after<T>(events: Seq<StartEvent<T>>) -> StartPhase<T>
    decreases events.len(),
{
    if events.len() == 0 {
        StartPhase::Creating
    } else {
        start_after(events.drop_last()).step(events.last()).0
    }
}

/// How often the start of a reader asked for its FIFO to be removed.
pub open spec fn removals<T>(events: Seq<StartEvent<T>>) -> nat
    decreases events.len(),
{
    if events.len() == 0 {
        0
    } else {
        removals(events.drop_last()) + if start_after(events.drop_last()).step(
            events.last(),
        ).1 is Remove {
            1nat
        } else {
            0nat
        }
    }
}

/// How often the start of a reader was told that it had made its FIFO, while it waited to hear
/// so.
pub open spec fn fifos_made<T>(events: Seq<StartEvent<T>>) -> nat
    decreases events.len(),
{
    if events.len() == 0 {
        0
    } else {
        fifos_made(events.drop_last()) + if start_after(events.drop_last()) is Creating
            && events.last() == StartEvent::<T>::Mkfifo(Mkfifo::Created) {
            1nat
        } else {
            0nat
        }
    }
}

/// A start that comes to nothing leaves no FIFO behind: where it is over, each FIFO that it
/// made was removed, unless the reader runs, and then none was. A FIFO that it did not make it
/// never removes.
pub proof fn a_start_that_fails_leaves_no_fifo<T>(events: Seq<StartEvent<T>>)
    ensures
        fifos_made(events) == match start_after(events) {
            StartPhase::Creating
            | StartPhase::Checking
            | StartPhase::Ended(Started::Refused(_)) => 0nat,
            _ => 1nat,
        },
        removals(events) == match start_after(events) {
            StartPhase::Removing(_) | StartPhase::Ended(Started::SpawnFailed(_)) => 1nat,
            _ => 0nat,
        },
    decreases events.len(),
{
    if events.len() > 0 {
        a_start_that_fails_leaves_no_fifo(events.drop_last());
    }
}

/// The start of a reader waits for what it asked for, and for nothing else: `mkfifo` first, then
/// what stands in the way or the thread, and the removal of the FIFO where the thread fails.
/// It ends with what it was told.
pub proof fn a_start_goes_by_what_it_was_told<T>(
    s: StartPhase<T>,
    event: StartEvent<T>,
    reason: T,
)
    ensures
        s.step(event).1 is Nothing <==> !match s {
            StartPhase::Creating => event is Mkfifo,
            StartPhase::Checking => event is Stat,
            StartPhase::Spawning => event is Spawned || event is SpawnFailed,
            StartPhase::Removing(_) => event is Removed,
            StartPhase::Ended(_) => false,
        },
        s.step(event).1 is Nothing ==> s.step(event).0 == s,
        !(s.step(event).1 is Nothing) ==> match s.step(event).0 {
            StartPhase::Creating => false,
            StartPhase::Checking => s.step(event).1 is Stat,
            StartPhase::Spawning => s.step(event).1 is Spawn,
            StartPhase::Removing(_) => s.step(event).1 is Remove,
            StartPhase::Ended(_) => s.step(event).1 is Exit,
        },
        StartPhase::<T>::Creating.first_action() is Mkfifo,
        StartPhase::Creating.step(StartEvent::<T>::Mkfifo(Mkfifo::Created)).0 is Spawning,
        StartPhase::Creating.step(StartEvent::<T>::Mkfifo(Mkfifo::AlreadyExists)).0 is Checking,
        StartPhase::Creating.step(StartEvent::Mkfifo(Mkfifo::NulByte(reason))).0
            == StartPhase::Ended(Started::Refused(CreateError::NulByte(reason))),
        StartPhase::Creating.step(StartEvent::Mkfifo(Mkfifo::Failed(reason))).0
            == StartPhase::Ended(Started::Refused(CreateError::Failed(reason))),
        StartPhase::Checking.step(StartEvent::<T>::Stat(Stat::Fifo)).0 == StartPhase::<T>::Ended(
            Started::Refused(CreateError::ExistsAsFifo),
        ),
        StartPhase::Checking.step(StartEvent::<T>::Stat(Stat::NotFifo)).0 == StartPhase::<
            T,
        >::Ended(Started::Refused(CreateError::ExistsNotFifo)),
        StartPhase::Checking.step(StartEvent::Stat(Stat::Failed(reason))).0 == StartPhase::Ended(
            Started::Refused(CreateError::CannotStat(reason)),
        ),
        StartPhase::Spawning.step(StartEvent::<T>::Spawned).0 == StartPhase::<T>::Ended(
            Started::Running,
        ),
        StartPhase::Spawning.step(StartEvent::SpawnFailed(reason)).0.step(StartEvent::Removed).0
            == StartPhase::Ended(Started::SpawnFailed(reason)),
{
}

} // verus!
