//! Relays: one input FIFO, many outputs.
//!
//! A relay creates its input FIFO, takes one message after the other from a reader thread,
//! and hands each on, framed, to all outputs or to one output in turn. A timeout governs
//! the wait for the first writer only; a maximum time is a hard deadline. Whatever ends
//! the relay, it tells the reader thread to stop and removes the FIFO that it created. It
//! does not wait for the thread, which a writer that stays could hold for ever.
use crate::create::{create_fifo, refuse_taken, CreateError, CreateStep, Mkfifo, Stat};
use crate::deadline::Deadline;
use crate::frame::frame_bytes;
use vstd::prelude::*;

pub mod runs;

verus! {

/// Which outputs a message goes to.
#[derive(Debug, Clone, Copy)]
pub enum Spread {
    /// To every output.
    All,
    /// To one output, each in its turn.
    Rotate,
}

/// How a relay ended.
#[derive(Debug)]
pub enum RelayEnd<T> {
    /// By its maximum time, by a signal, or because its reader thread was gone.
    Clean,
    /// No writer came in time.
    TimedOut,
    /// The input FIFO could not be created.
    Refused(CreateError<T>),
    /// The reader thread could not be started.
    SpawnFailed(T),
}

/// Where a relay is.
#[derive(Debug)]
pub enum RelayPhase<T> {
    /// Waiting to hear of `mkfifo`.
    Creating,
    /// Waiting to hear what is at the path.
    Checking,
    /// Waiting for the reader thread.
    Starting,
    /// Waiting for the time, before the next message.
    Checkpoint,
    /// Waiting for a message.
    Receiving,
    /// Ending: the stop flag is being raised.
    Stopping(RelayEnd<T>),
    /// Ending: the reader thread is being unblocked.
    Unblocking(RelayEnd<T>),
    /// Ending: the FIFO is being removed.
    Removing(RelayEnd<T>),
    /// Over.
    Ended(RelayEnd<T>),
}

/// What a relay is told.
#[derive(Debug)]
pub enum RelayEvent<D, T> {
    /// `mkfifo` was called.
    Mkfifo(Mkfifo<T>),
    /// The path was looked at.
    Stat(Stat<T>),
    /// The reader thread runs, and this is the time.
    Started(u64),
    /// The reader thread could not be started.
    SpawnFailed(T),
    /// This is the time.
    Clock(u64),
    /// The reader thread has sent a message.
    Message(D),
    /// A second went by without a message.
    Quiet {
        /// A signal asked to end.
        quit: bool,
        /// A writer has come since the reader thread was started.
        connected: bool,
        /// The time.
        now: u64,
    },
    /// The reader thread is gone and all its messages are taken.
    HangUp,
    /// What was asked for last is done.
    Done,
}

/// What a relay asks for.
#[derive(Debug)]
pub enum RelayAction<D> {
    /// Call `mkfifo` on the input path.
    Mkfifo,
    /// See what is at the input path.
    Stat,
    /// Start the reader thread and read the clock.
    StartReader,
    /// Read the clock.
    ReadClock,
    /// Wait up to a second for a message.
    Receive,
    /// Write the data to the outputs from `first` up to, not with, `end`; then read the
    /// clock.
    Deliver {
        /// What to write.
        data: D,
        /// The first output.
        first: usize,
        /// The output after the last.
        end: usize,
    },
    /// Raise the stop flag of the reader thread.
    RaiseStop,
    /// Open the FIFO for reading and writing, so that the reader thread is not left blocked.
    Unblock,
    /// Remove the FIFO.
    Remove,
    /// The relay is over.
    Exit,
    /// Nothing: the relay was not waiting for what it was told.
    Nothing,
}

/// A relay between two events.
pub struct RelayState<T> {
    /// Which outputs a message goes to.
    pub spread: Spread,
    /// How many outputs there are.
    pub outputs: usize,
    /// Seconds to wait for the first writer.
    pub timeout: Option<u64>,
    /// Seconds that the relay runs at most.
    pub max_time: Option<u64>,
    /// When the wait for the first writer is over.
    pub deadline: Option<int>,
    /// When the relay is over.
    pub max_deadline: Option<int>,
    /// How many messages were handed on, counted as a machine word counts.
    pub count: usize,
    /// The output whose turn it is.
    pub turn: usize,
    /// Where the relay is.
    pub phase: RelayPhase<T>,
}

/// Whether a relay is to end at the next quiet moment: a signal asks for it, or it was told to
/// stop and its reader thread has no writer at hand, nor a message on its way.
pub open spec fn must_end(stop: bool, busy: bool, signal: bool) -> bool {
    signal || (stop && !busy)
}

/// Decides whether a relay is to end at the next quiet moment: what it is told as `quit`.
pub fn told_to_end(stop: bool, busy: bool, signal: bool) -> (quit: bool)
    ensures
        quit == must_end(stop, busy, signal),
{
    signal || (stop && !busy)
}

/// A relay that has not begun.
pub open spec fn new_relay<T>(
    spread: Spread,
    outputs: usize,
    timeout: Option<u64>,
    max_time: Option<u64>,
) -> RelayState<T> {
    RelayState {
        spread,
        outputs,
        timeout,
        max_time,
        deadline: None,
        max_deadline: None,
        count: 0,
        turn: 0,
        phase: RelayPhase::Creating,
    }
}

impl<T> RelayState<T> {
    /// The same relay elsewhere.
    pub open spec fn at(self, phase: RelayPhase<T>) -> RelayState<T> {
        RelayState { phase, ..self }
    }

    /// What a relay that has not begun asks for.
    pub open spec fn first_action(self) -> RelayAction<Seq<u8>> {
        if self.phase is Creating {
            RelayAction::Mkfifo
        } else {
            RelayAction::Nothing
        }
    }

    /// Begins to end.
    pub open spec fn close(self, end: RelayEnd<T>) -> (RelayState<T>, RelayAction<Seq<u8>>) {
        (self.at(RelayPhase::Stopping(end)), RelayAction::RaiseStop)
    }

    /// What the relay becomes, and asks for, on being told an event.
    pub open spec fn step(self, event: RelayEvent<Seq<u8>, T>) -> (
        RelayState<T>,
        RelayAction<Seq<u8>>,
    ) {
        match (self.phase, event) {
            (RelayPhase::Creating, RelayEvent::Mkfifo(outcome)) => {
                match crate::create::after_mkfifo(outcome) {
                    CreateStep::Ready => (self.at(RelayPhase::Starting), RelayAction::StartReader),
                    CreateStep::Stat => (self.at(RelayPhase::Checking), RelayAction::Stat),
                    CreateStep::Refused(error) => (
                        self.at(RelayPhase::Ended(RelayEnd::Refused(error))),
                        RelayAction::Exit,
                    ),
                }
            },
            (RelayPhase::Checking, RelayEvent::Stat(found)) => (
                self.at(RelayPhase::Ended(RelayEnd::Refused(crate::create::why_taken(found)))),
                RelayAction::Exit,
            ),
            (RelayPhase::Starting, RelayEvent::Started(now)) => (
                RelayState {
                    deadline: crate::deadline::limit_from(now as int, self.timeout),
                    max_deadline: crate::deadline::limit_from(now as int, self.max_time),
                    phase: RelayPhase::Checkpoint,
                    ..self
                },
                RelayAction::ReadClock,
            ),
            (RelayPhase::Starting, RelayEvent::SpawnFailed(reason)) => (
                self.at(RelayPhase::Removing(RelayEnd::SpawnFailed(reason))),
                RelayAction::Remove,
            ),
            (RelayPhase::Checkpoint, RelayEvent::Clock(now)) => {
                if crate::deadline::reached(self.max_deadline, now as int) {
                    self.close(RelayEnd::Clean)
                } else {
                    (self.at(RelayPhase::Receiving), RelayAction::Receive)
                }
            },
            (RelayPhase::Receiving, RelayEvent::Message(data)) => (
                self.hand_on(),
                RelayAction::Deliver {
                    data: crate::frame::framed(data),
                    first: self.first_output(),
                    end: self.end_output(),
                },
            ),
            (RelayPhase::Receiving, RelayEvent::Quiet { quit, connected, now }) => {
                let heard = self.hear_of(connected);
                if crate::deadline::reached(heard.deadline, now as int) {
                    heard.close(RelayEnd::TimedOut)
                } else if quit {
                    heard.close(RelayEnd::Clean)
                } else {
                    (heard.at(RelayPhase::Checkpoint), RelayAction::ReadClock)
                }
            },
            (RelayPhase::Receiving, RelayEvent::HangUp) => self.close(RelayEnd::Clean),
            (RelayPhase::Stopping(end), RelayEvent::Done) => (
                self.at(RelayPhase::Unblocking(end)),
                RelayAction::Unblock,
            ),
            (RelayPhase::Unblocking(end), RelayEvent::Done) => (
                self.at(RelayPhase::Removing(end)),
                RelayAction::Remove,
            ),
            (RelayPhase::Removing(end), RelayEvent::Done) => (
                self.at(RelayPhase::Ended(end)),
                RelayAction::Exit,
            ),
            _ => (self, RelayAction::Nothing),
        }
    }

    /// The relay once it has heard whether a writer has come: where one has, the wait for the
    /// first one is over for good.
    pub open spec fn hear_of(self, connected: bool) -> RelayState<T> {
        RelayState {
            deadline: if connected {
                None
            } else {
                self.deadline
            },
            ..self
        }
    }

    /// The relay after a message: the wait for the first writer is over for good.
    pub open spec fn hand_on(self) -> RelayState<T> {
        RelayState {
            deadline: None,
            count: if self.count == usize::MAX {
                0
            } else {
                (self.count + 1) as usize
            },
            turn: match self.spread {
                Spread::All => self.turn,
                Spread::Rotate => if self.turn + 1 < self.outputs {
                    (self.turn + 1) as usize
                } else {
                    0
                },
            },
            phase: RelayPhase::Checkpoint,
            ..self
        }
    }

    /// The first output that the next message goes to.
    pub open spec fn first_output(self) -> usize {
        match self.spread {
            Spread::All => 0,
            Spread::Rotate => self.turn,
        }
    }

    /// The output after the last that the next message goes to.
    pub open spec fn end_output(self) -> usize {
        match self.spread {
            Spread::All => self.outputs,
            Spread::Rotate => if self.turn < self.outputs {
                (self.turn + 1) as usize
            } else {
                self.turn
            },
        }
    }
}

impl<T> View for RelayEvent<Vec<u8>, T> {
    type V = RelayEvent<Seq<u8>, T>;

    open spec fn view(&self) -> RelayEvent<Seq<u8>, T> {
        match *self {
            RelayEvent::Mkfifo(outcome) => RelayEvent::Mkfifo(outcome),
            RelayEvent::Stat(found) => RelayEvent::Stat(found),
            RelayEvent::Started(now) => RelayEvent::Started(now),
            RelayEvent::SpawnFailed(reason) => RelayEvent::SpawnFailed(reason),
            RelayEvent::Clock(now) => RelayEvent::Clock(now),
            RelayEvent::Message(data) => RelayEvent::Message(data@),
            RelayEvent::Quiet { quit, connected, now } => RelayEvent::Quiet { quit, connected, now },
            RelayEvent::HangUp => RelayEvent::HangUp,
            RelayEvent::Done => RelayEvent::Done,
        }
    }
}

impl View for RelayAction<Vec<u8>> {
    type V = RelayAction<Seq<u8>>;

    open spec fn view(&self) -> RelayAction<Seq<u8>> {
        match *self {
            RelayAction::Mkfifo => RelayAction::Mkfifo,
            RelayAction::Stat => RelayAction::Stat,
            RelayAction::StartReader => RelayAction::StartReader,
            RelayAction::ReadClock => RelayAction::ReadClock,
            RelayAction::Receive => RelayAction::Receive,
            RelayAction::Deliver { data, first, end } => RelayAction::Deliver {
                data: data@,
                first,
                end,
            },
            RelayAction::RaiseStop => RelayAction::RaiseStop,
            RelayAction::Unblock => RelayAction::Unblock,
            RelayAction::Remove => RelayAction::Remove,
            RelayAction::Exit => RelayAction::Exit,
            RelayAction::Nothing => RelayAction::Nothing,
        }
    }
}

/// A relay.
#[derive(Debug)]
pub struct Relay<T> {
    spread: Spread,
    outputs: usize,
    timeout: Option<u64>,
    max_time: Option<u64>,
    deadline: Deadline,
    max_deadline: Deadline,
    count: usize,
    turn: usize,
    phase: RelayPhase<T>,
}

impl<T> View for Relay<T> {
    type V = RelayState<T>;

    closed spec fn view(&self) -> RelayState<T> {
        RelayState {
            spread: self.spread,
            outputs: self.outputs,
            timeout: self.timeout,
            max_time: self.max_time,
            deadline: self.deadline@,
            max_deadline: self.max_deadline@,
            count: self.count,
            turn: self.turn,
            phase: self.phase,
        }
    }
}

impl<T> Relay<T> {
    /// A relay to so many outputs. Limits of zero seconds are no limits.
    pub fn new(
        spread: Spread,
        outputs: usize,
        timeout: Option<u64>,
        max_time: Option<u64>,
    ) -> (relay: Relay<T>)
        ensures
            relay@ == new_relay::<T>(spread, outputs, timeout, max_time),
            relay@.spread == spread && relay@.outputs == outputs && relay@.timeout == timeout
                && relay@.max_time == max_time && relay@.phase is Creating && relay@.count == 0
                && relay@.turn == 0,
    {
        Relay {
            spread,
            outputs,
            timeout,
            max_time,
            deadline: Deadline::never(),
            max_deadline: Deadline::never(),
            count: 0,
            turn: 0,
            phase: RelayPhase::Creating,
        }
    }

    /// What a relay that has not begun asks for.
    pub fn first_action(&self) -> (action: RelayAction<Vec<u8>>)
        ensures
            action@ == self@.first_action(),
            self@.phase is Creating ==> action@ is Mkfifo,
    {
        match self.phase {
            RelayPhase::Creating => RelayAction::Mkfifo,
            _ => RelayAction::Nothing,
        }
    }

    fn close(&mut self, end: RelayEnd<T>) -> (action: RelayAction<Vec<u8>>)
        ensures
            (final(self)@, action@) == old(self)@.close(end),
    {
        self.phase = RelayPhase::Stopping(end);
        RelayAction::RaiseStop
    }

    /// Hands a message on.
    fn hand_on(&mut self, data: Vec<u8>) -> (action: RelayAction<Vec<u8>>)
        ensures
            final(self)@ == old(self)@.hand_on(),
            action@ == (RelayAction::Deliver {
                data: crate::frame::framed(data@),
                first: old(self)@.first_output(),
                end: old(self)@.end_output(),
            }),
    {
        self.deadline = Deadline::never();
        self.count = if self.count == usize::MAX {
            0
        } else {
            self.count + 1
        };
        let (first, end) = match self.spread {
            Spread::All => (0, self.outputs),
            Spread::Rotate => {
                let turn = self.turn;
                let end = if turn < self.outputs {
                    turn + 1
                } else {
                    turn
                };
                self.turn = if turn < self.outputs && turn + 1 < self.outputs {
                    turn + 1
                } else {
                    0
                };
                (turn, end)
            },
        };
        self.phase = RelayPhase::Checkpoint;
        RelayAction::Deliver { data: frame_bytes(data), first, end }
    }

    /// Tells the relay what happened; the answer is what to do next.
    pub fn step(&mut self, event: RelayEvent<Vec<u8>, T>) -> (action: RelayAction<Vec<u8>>)
        ensures
            (final(self)@, action@) == old(self)@.step(event@),
    {
        let mut phase = RelayPhase::Creating;
        std::mem::swap(&mut phase, &mut self.phase);
        match (phase, event) {
            (RelayPhase::Creating, RelayEvent::Mkfifo(outcome)) => {
                match create_fifo(outcome) {
                    CreateStep::Ready => {
                        self.phase = RelayPhase::Starting;
                        RelayAction::StartReader
                    },
                    CreateStep::Stat => {
                        self.phase = RelayPhase::Checking;
                        RelayAction::Stat
                    },
                    CreateStep::Refused(error) => {
                        self.phase = RelayPhase::Ended(RelayEnd::Refused(error));
                        RelayAction::Exit
                    },
                }
            },
            (RelayPhase::Checking, RelayEvent::Stat(found)) => {
                self.phase = RelayPhase::Ended(RelayEnd::Refused(refuse_taken(found)));
                RelayAction::Exit
            },
            (RelayPhase::Starting, RelayEvent::Started(now)) => {
                self.deadline = Deadline::after(now, self.timeout);
                self.max_deadline = Deadline::after(now, self.max_time);
                self.phase = RelayPhase::Checkpoint;
                RelayAction::ReadClock
            },
            (RelayPhase::Starting, RelayEvent::SpawnFailed(reason)) => {
                self.phase = RelayPhase::Removing(RelayEnd::SpawnFailed(reason));
                RelayAction::Remove
            },
            (RelayPhase::Checkpoint, RelayEvent::Clock(now)) => {
                if self.max_deadline.expired(now) {
                    self.close(RelayEnd::Clean)
                } else {
                    self.phase = RelayPhase::Receiving;
                    RelayAction::Receive
                }
            },
            (RelayPhase::Receiving, RelayEvent::Message(data)) => self.hand_on(data),
            (RelayPhase::Receiving, RelayEvent::Quiet { quit, connected, now }) => {
                if connected {
                    self.deadline = Deadline::never();
                }
                if self.deadline.expired(now) {
                    self.close(RelayEnd::TimedOut)
                } else if quit {
                    self.close(RelayEnd::Clean)
                } else {
                    self.phase = RelayPhase::Checkpoint;
                    RelayAction::ReadClock
                }
            },
            (RelayPhase::Receiving, RelayEvent::HangUp) => self.close(RelayEnd::Clean),
            (RelayPhase::Stopping(end), RelayEvent::Done) => {
                self.phase = RelayPhase::Unblocking(end);
                RelayAction::Unblock
            },
            (RelayPhase::Unblocking(end), RelayEvent::Done) => {
                self.phase = RelayPhase::Removing(end);
                RelayAction::Remove
            },
            (RelayPhase::Removing(end), RelayEvent::Done) => {
                self.phase = RelayPhase::Ended(end);
                RelayAction::Exit
            },
            (phase, _) => {
                self.phase = phase;
                RelayAction::Nothing
            },
        }
    }

    /// Which outputs a message goes to.
    pub fn spread(&self) -> (spread: Spread)
        ensures
            spread == self@.spread,
    {
        self.spread
    }

    /// How many messages were handed on.
    pub fn count(&self) -> (count: usize)
        ensures
            count == self@.count,
    {
        self.count
    }

    /// How the relay ended, if it has.
    pub fn into_end(self) -> (end: Option<RelayEnd<T>>)
        ensures
            end == match self@.phase {
                RelayPhase::Ended(e) => Some(e),
                _ => None,
            },
    {
        match self.phase {
            RelayPhase::Ended(end) => Some(end),
            _ => None,
        }
    }
}

impl View for RelayEnd<String> {
    type V = RelayEnd<Seq<char>>;

    open spec fn view(&self) -> RelayEnd<Seq<char>> {
        match self {
            RelayEnd::Clean => RelayEnd::Clean,
            RelayEnd::TimedOut => RelayEnd::TimedOut,
            RelayEnd::Refused(error) => RelayEnd::Refused(error@),
            RelayEnd::SpawnFailed(reason) => RelayEnd::SpawnFailed(reason@),
        }
    }
}

} // verus!
