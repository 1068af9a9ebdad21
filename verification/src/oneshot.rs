//! One message for a tool: create a FIFO, read one message, remove the FIFO.
use crate::create::{create_fifo, refuse_taken, CreateError, CreateStep, Mkfifo, Stat};
use crate::deadline::Deadline;
use crate::frame::frame_text;
use crate::reader::{no_writer, read_one_message, Arrival, ReadError, ReadResult};
use vstd::prelude::*;

pub mod runs;

verus! {

/// How the wait of a tool for one message ended.
#[derive(Debug)]
pub enum OneshotEnd<D, T> {
    /// With a message.
    Message(D),
    /// No writer came in time.
    TimedOut,
    /// The FIFO could not be created.
    Refused(CreateError<T>),
    /// The message could not be read.
    Failed(ReadError<T>),
}

/// Where the reading of one message is.
#[derive(Debug)]
pub enum OneshotPhase<D, T> {
    /// Waiting to hear of `mkfifo`.
    Creating,
    /// Waiting to hear what is at the path.
    Checking,
    /// Waiting for the message.
    Listening,
    /// Ending: the FIFO is being removed.
    Removing(OneshotEnd<D, T>),
    /// Over.
    Ended(OneshotEnd<D, T>),
}

/// What the reading of one message is told.
#[derive(Debug)]
pub enum OneshotEvent<D, T> {
    /// `mkfifo` was called, and this is the time.
    Mkfifo {
        /// What became of it.
        outcome: Mkfifo<T>,
        /// The time.
        now: u64,
    },
    /// The path was looked at.
    Stat(Stat<T>),
    /// A second went by, or the read came to an end.
    Polled {
        /// What has become of the read.
        arrival: Arrival<D, T>,
        /// The time.
        now: u64,
    },
    /// The FIFO was removed, or was gone.
    Removed,
}

/// What the reading of one message asks for.
#[derive(Debug, Clone, Copy)]
pub enum OneshotAction {
    /// Call `mkfifo` on the path.
    Mkfifo,
    /// See what is at the path.
    Stat,
    /// Start a read in the background and wait up to a second for it.
    Listen,
    /// Wait up to a second for the read.
    Wait,
    /// Remove the FIFO.
    Remove,
    /// It is over.
    Exit,
    /// Nothing: it was not waiting for what it was told.
    Nothing,
}

/// The reading of one message between two events.
pub struct OneshotState<D, T> {
    /// Seconds to wait for a writer; 0 blocks forever.
    pub timeout: u64,
    /// When the wait for a writer is over.
    pub deadline: Option<int>,
    /// Where it is.
    pub phase: OneshotPhase<D, T>,
}

/// The reading of one message before it begins.
pub open spec fn new_oneshot<D, T>(timeout: u64) -> OneshotState<D, T> {
    OneshotState { timeout, deadline: None, phase: OneshotPhase::Creating }
}

impl<D, T> OneshotState<D, T> {
    /// The same elsewhere.
    pub open spec fn at(self, phase: OneshotPhase<D, T>) -> OneshotState<D, T> {
        OneshotState { phase, ..self }
    }

    /// What is asked for before it has begun.
    pub open spec fn first_action(self) -> OneshotAction {
        if self.phase is Creating {
            OneshotAction::Mkfifo
        } else {
            OneshotAction::Nothing
        }
    }

    /// Begins to end.
    pub open spec fn close(self, end: OneshotEnd<D, T>) -> (OneshotState<D, T>, OneshotAction) {
        (self.at(OneshotPhase::Removing(end)), OneshotAction::Remove)
    }

    /// What it becomes, and asks for, on being told an event.
    pub open spec fn step(self, event: OneshotEvent<D, T>) -> (OneshotState<D, T>, OneshotAction) {
        match (self.phase, event) {
            (OneshotPhase::Creating, OneshotEvent::Mkfifo { outcome, now }) => {
                match crate::create::after_mkfifo(outcome) {
                    CreateStep::Ready => (
                        OneshotState {
                            deadline: crate::deadline::limit_from(now as int, Some(self.timeout)),
                            phase: OneshotPhase::Listening,
                            ..self
                        },
                        OneshotAction::Listen,
                    ),
                    CreateStep::Stat => (self.at(OneshotPhase::Checking), OneshotAction::Stat),
                    CreateStep::Refused(error) => (
                        self.at(OneshotPhase::Ended(OneshotEnd::Refused(error))),
                        OneshotAction::Exit,
                    ),
                }
            },
            (OneshotPhase::Checking, OneshotEvent::Stat(found)) => (
                self.at(OneshotPhase::Ended(OneshotEnd::Refused(crate::create::why_taken(found)))),
                OneshotAction::Exit,
            ),
            (OneshotPhase::Listening, OneshotEvent::Polled { arrival, now }) => {
                match crate::reader::wait_over(false, arrival, self.deadline, None, now) {
                    Some(ReadResult::Data(data)) => self.close(OneshotEnd::Message(data)),
                    Some(ReadResult::TimedOut) => self.close(OneshotEnd::TimedOut),
                    Some(ReadResult::Failed(error)) => self.close(OneshotEnd::Failed(error)),
                    _ => (
                        OneshotState {
                            deadline: if arrival is Reading {
                                None
                            } else {
                                self.deadline
                            },
                            ..self
                        },
                        OneshotAction::Wait,
                    ),
                }
            },
            (OneshotPhase::Removing(end), OneshotEvent::Removed) => (
                self.at(OneshotPhase::Ended(end)),
                OneshotAction::Exit,
            ),
            _ => (self, OneshotAction::Nothing),
        }
    }
}

/// The reading of one message.
#[derive(Debug)]
pub struct Oneshot<D, T> {
    timeout: u64,
    deadline: Deadline,
    phase: OneshotPhase<D, T>,
}

impl<D, T> View for Oneshot<D, T> {
    type V = OneshotState<D, T>;

    closed spec fn view(&self) -> OneshotState<D, T> {
        OneshotState { timeout: self.timeout, deadline: self.deadline@, phase: self.phase }
    }
}

/// Reads one message. A timeout of zero blocks forever.
pub fn read_oneshot<D, T>(timeout: u64) -> (reading: Oneshot<D, T>)
    ensures
        reading@ == new_oneshot::<D, T>(timeout),
        reading@.timeout == timeout && reading@.phase is Creating,
{
    Oneshot { timeout, deadline: Deadline::never(), phase: OneshotPhase::Creating }
}

impl<D, T> Oneshot<D, T> {
    /// What is asked for before it has begun.
    pub fn first_action(&self) -> (action: OneshotAction)
        ensures
            action == self@.first_action(),
            self@.phase is Creating ==> action is Mkfifo,
    {
        match self.phase {
            OneshotPhase::Creating => OneshotAction::Mkfifo,
            _ => OneshotAction::Nothing,
        }
    }

    fn close(&mut self, end: OneshotEnd<D, T>) -> (action: OneshotAction)
        ensures
            (final(self)@, action) == old(self)@.close(end),
    {
        self.phase = OneshotPhase::Removing(end);
        OneshotAction::Remove
    }

    /// Tells it what happened; the answer is what to do next.
    pub fn step(&mut self, event: OneshotEvent<D, T>) -> (action: OneshotAction)
        ensures
            (final(self)@, action) == old(self)@.step(event),
    {
        let mut phase = OneshotPhase::Creating;
        std::mem::swap(&mut phase, &mut self.phase);
        match (phase, event) {
            (OneshotPhase::Creating, OneshotEvent::Mkfifo { outcome, now }) => {
                match create_fifo(outcome) {
                    CreateStep::Ready => {
                        self.deadline = Deadline::after(now, Some(self.timeout));
                        self.phase = OneshotPhase::Listening;
                        OneshotAction::Listen
                    },
                    CreateStep::Stat => {
                        self.phase = OneshotPhase::Checking;
                        OneshotAction::Stat
                    },
                    CreateStep::Refused(error) => {
                        self.phase = OneshotPhase::Ended(OneshotEnd::Refused(error));
                        OneshotAction::Exit
                    },
                }
            },
            (OneshotPhase::Checking, OneshotEvent::Stat(found)) => {
                self.phase = OneshotPhase::Ended(OneshotEnd::Refused(refuse_taken(found)));
                OneshotAction::Exit
            },
            (OneshotPhase::Listening, OneshotEvent::Polled { arrival, now }) => {
                let reading = arrival.is_reading();
                match read_one_message(false, arrival, &self.deadline, &Deadline::never(), now) {
                    Some(ReadResult::Data(data)) => self.close(OneshotEnd::Message(data)),
                    Some(ReadResult::TimedOut) => self.close(OneshotEnd::TimedOut),
                    Some(ReadResult::Failed(error)) => self.close(OneshotEnd::Failed(error)),
                    _ => {
                        if reading {
                            self.deadline = Deadline::never();
                        }
                        self.phase = OneshotPhase::Listening;
                        OneshotAction::Wait
                    },
                }
            },
            (OneshotPhase::Removing(end), OneshotEvent::Removed) => {
                self.phase = OneshotPhase::Ended(end);
                OneshotAction::Exit
            },
            (phase, _) => {
                self.phase = phase;
                OneshotAction::Nothing
            },
        }
    }

    /// How it ended, if it has.
    pub fn into_end(self) -> (end: Option<OneshotEnd<D, T>>)
        ensures
            end == match self@.phase {
                OneshotPhase::Ended(e) => Some(e),
                _ => None,
            },
    {
        match self.phase {
            OneshotPhase::Ended(end) => Some(end),
            _ => None,
        }
    }
}

/// What a tool answers, by how its wait for one message ended.
pub open spec fn oneshot_reply(end: OneshotEnd<Seq<u8>, Seq<char>>, path: Seq<char>) -> Result<
    Seq<char>,
    Seq<char>,
> {
    match end {
        OneshotEnd::Message(data) => Ok(
            crate::frame::framed_chars(crate::frame::text_of(data)),
        ),
        OneshotEnd::TimedOut => Err(crate::reader::no_writer_text(path)),
        OneshotEnd::Refused(error) => Err(crate::create::refusal_text(error, path)),
        OneshotEnd::Failed(error) => Err(crate::reader::read_error_text(error, path)),
    }
}

impl View for OneshotEnd<Vec<u8>, String> {
    type V = OneshotEnd<Seq<u8>, Seq<char>>;

    open spec fn view(&self) -> OneshotEnd<Seq<u8>, Seq<char>> {
        match self {
            OneshotEnd::Message(data) => OneshotEnd::Message(data@),
            OneshotEnd::TimedOut => OneshotEnd::TimedOut,
            OneshotEnd::Refused(error) => OneshotEnd::Refused(error@),
            OneshotEnd::Failed(error) => OneshotEnd::Failed(error@),
        }
    }
}

impl OneshotEnd<Vec<u8>, String> {
    /// What the tool answers: the message as text, framed, or why there is none.
    pub fn reply(&self, path: &str) -> (reply: Result<String, String>)
        ensures
            crate::text::says(reply, oneshot_reply(self@, path@)),
    {
        match self {
            OneshotEnd::Message(data) => Ok(frame_text(data.as_slice())),
            OneshotEnd::TimedOut => Err(no_writer(path)),
            OneshotEnd::Refused(error) => Err(error.message(path)),
            OneshotEnd::Failed(error) => Err(error.message(path)),
        }
    }
}

} // verus!
