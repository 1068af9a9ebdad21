//! The read command: create a FIFO, print the messages that come, remove the FIFO.
//!
//! The timeout governs the wait for the first writer, and is of no account once one has come.
//! The maximum time is a hard deadline. It is looked at whenever a second went by without a
//! message, and after every message, so that it ends the command also while messages come
//! without a pause.
use crate::cli::{Exit, EXIT_TIMED_OUT};
use crate::create::{create_fifo, refuse_taken, CreateError, CreateStep, Mkfifo, Stat};
use crate::deadline::Deadline;
use crate::frame::frame_bytes;
use crate::reader::{no_writer, read_one_message, Arrival, ReadError, ReadResult};
use vstd::prelude::*;

pub mod runs;

verus! {

/// How a read command ended.
#[derive(Debug)]
pub enum InputEnd<T> {
    /// With its message, by its maximum time, or by a signal.
    Done,
    /// No writer came in time.
    TimedOut,
    /// The FIFO could not be created.
    Refused(CreateError<T>),
    /// A message could not be read.
    Failed(ReadError<T>),
    /// A message could not be printed.
    PrintFailed(T),
}

/// Where a read command is.
#[derive(Debug)]
pub enum InputPhase<T> {
    /// Waiting to hear of `mkfifo`.
    Creating,
    /// Waiting to hear what is at the path.
    Checking,
    /// Waiting for a message.
    Listening,
    /// Waiting for a message to be printed.
    Printing,
    /// Ending: the FIFO is being removed.
    Removing(InputEnd<T>),
    /// Over.
    Ended(InputEnd<T>),
}

/// What a read command is told.
#[derive(Debug)]
pub enum InputEvent<D, T> {
    /// `mkfifo` was called, and this is the time.
    Mkfifo {
        /// What became of it.
        outcome: Mkfifo<T>,
        /// The time.
        now: u64,
    },
    /// The path was looked at.
    Stat(Stat<T>),
    /// A second went by, or the read came to an end.
    Polled {
        /// A signal asked to end.
        quit: bool,
        /// What has become of the read.
        arrival: Arrival<D, T>,
        /// The time.
        now: u64,
    },
    /// The message is on standard output, and this is the time.
    Printed(u64),
    /// The message could not be written to standard output.
    PrintFailed(T),
    /// The FIFO was removed, or was gone.
    Removed,
}

/// What a read command asks for.
#[derive(Debug)]
pub enum InputAction<D> {
    /// Call `mkfifo` on the path.
    Mkfifo,
    /// See what is at the path.
    Stat,
    /// Start a read in the background and wait up to a second for it.
    Listen,
    /// Wait up to a second for the read.
    Wait,
    /// Write the data to standard output.
    Print(D),
    /// Remove the FIFO.
    Remove,
    /// The command is over.
    Exit,
    /// Nothing: the command was not waiting for what it was told.
    Nothing,
}

/// A read command between two events.
pub struct InputState<T> {
    /// Whether it goes on after the first message.
    pub linger: bool,
    /// Seconds to wait for the first writer.
    pub timeout: Option<u64>,
    /// Seconds that it runs at most.
    pub max_time: Option<u64>,
    /// When the wait for the first writer is over.
    pub deadline: Option<int>,
    /// When the command is over.
    pub max_deadline: Option<int>,
    /// Where the command is.
    pub phase: InputPhase<T>,
}

/// A read command that has not begun.
pub open spec fn new_input<T>(
    linger: bool,
    timeout: Option<u64>,
    max_time: Option<u64>,
) -> InputState<T> {
    InputState {
        linger,
        timeout,
        max_time,
        deadline: None,
        max_deadline: None,
        phase: InputPhase::Creating,
    }
}

impl<T> InputState<T> {
    /// The same command elsewhere.
    pub open spec fn at(self, phase: InputPhase<T>) -> InputState<T> {
        InputState { phase, ..self }
    }

    /// What a command that has not begun asks for.
    pub open spec fn first_action(self) -> InputAction<Seq<u8>> {
        if self.phase is Creating {
            InputAction::Mkfifo
        } else {
            InputAction::Nothing
        }
    }

    /// Begins to end.
    pub open spec fn close(self, end: InputEnd<T>) -> (InputState<T>, InputAction<Seq<u8>>) {
        (self.at(InputPhase::Removing(end)), InputAction::Remove)
    }

    /// What the command becomes, and asks for, on being told an event.
    pub open spec fn step(self, event: InputEvent<Seq<u8>, T>) -> (
        InputState<T>,
        InputAction<Seq<u8>>,
    ) {
        match (self.phase, event) {
            (InputPhase::Creating, InputEvent::Mkfifo { outcome, now }) => {
                match crate::create::after_mkfifo(outcome) {
                    CreateStep::Ready => (
                        InputState {
                            deadline: crate::deadline::limit_from(now as int, self.timeout),
                            max_deadline: crate::deadline::limit_from(now as int, self.max_time),
                            phase: InputPhase::Listening,
                            ..self
                        },
                        InputAction::Listen,
                    ),
                    CreateStep::Stat => (self.at(InputPhase::Checking), InputAction::Stat),
                    CreateStep::Refused(error) => (
                        self.at(InputPhase::Ended(InputEnd::Refused(error))),
                        InputAction::Exit,
                    ),
                }
            },
            (InputPhase::Checking, InputEvent::Stat(found)) => (
                self.at(InputPhase::Ended(InputEnd::Refused(crate::create::why_taken(found)))),
                InputAction::Exit,
            ),
            (InputPhase::Listening, InputEvent::Polled { quit, arrival, now }) => {
                match crate::reader::wait_over(quit, arrival, self.deadline, self.max_deadline, now) {
                    None => (
                        InputState {
                            deadline: if arrival is Reading {
                                None
                            } else {
                                self.deadline
                            },
                            ..self
                        },
                        InputAction::Wait,
                    ),
                    Some(ReadResult::Data(data)) => (
                        self.at(InputPhase::Printing),
                        InputAction::Print(crate::frame::framed(data)),
                    ),
                    Some(ReadResult::TimedOut) => self.close(InputEnd::TimedOut),
                    Some(ReadResult::Failed(error)) => self.close(InputEnd::Failed(error)),
                    Some(_) => self.close(InputEnd::Done),
                }
            },
            (InputPhase::Printing, InputEvent::Printed(now)) => {
                if self.linger && !crate::deadline::reached(self.max_deadline, now as int) {
                    (
                        InputState { deadline: None, phase: InputPhase::Listening, ..self },
                        InputAction::Listen,
                    )
                } else {
                    self.close(InputEnd::Done)
                }
            },
            (InputPhase::Printing, InputEvent::PrintFailed(reason)) => self.close(
                InputEnd::PrintFailed(reason),
            ),
            (InputPhase::Removing(end), InputEvent::Removed) => (
                self.at(InputPhase::Ended(end)),
                InputAction::Exit,
            ),
            _ => (self, InputAction::Nothing),
        }
    }
}

impl<T> View for InputEvent<Vec<u8>, T> {
    type V = InputEvent<Seq<u8>, T>;

    open spec fn view(&self) -> InputEvent<Seq<u8>, T> {
        match *self {
            InputEvent::Mkfifo { outcome, now } => InputEvent::Mkfifo { outcome, now },
            InputEvent::Stat(found) => InputEvent::Stat(found),
            InputEvent::Polled { quit, arrival, now } => InputEvent::Polled {
                quit,
                arrival: arrival@,
                now,
            },
            InputEvent::Printed(now) => InputEvent::Printed(now),
            InputEvent::PrintFailed(reason) => InputEvent::PrintFailed(reason),
            InputEvent::Removed => InputEvent::Removed,
        }
    }
}

impl View for InputAction<Vec<u8>> {
    type V = InputAction<Seq<u8>>;

    open spec fn view(&self) -> InputAction<Seq<u8>> {
        match *self {
            InputAction::Mkfifo => InputAction::Mkfifo,
            InputAction::Stat => InputAction::Stat,
            InputAction::Listen => InputAction::Listen,
            InputAction::Wait => InputAction::Wait,
            InputAction::Print(data) => InputAction::Print(data@),
            InputAction::Remove => InputAction::Remove,
            InputAction::Exit => InputAction::Exit,
            InputAction::Nothing => InputAction::Nothing,
        }
    }
}

/// A read command.
#[derive(Debug)]
pub struct Input<T> {
    linger: bool,
    timeout: Option<u64>,
    max_time: Option<u64>,
    deadline: Deadline,
    max_deadline: Deadline,
    phase: InputPhase<T>,
}

impl<T> View for Input<T> {
    type V = InputState<T>;

    closed spec fn view(&self) -> InputState<T> {
        InputState {
            linger: self.linger,
            timeout: self.timeout,
            max_time: self.max_time,
            deadline: self.deadline@,
            max_deadline: self.max_deadline@,
            phase: self.phase,
        }
    }
}

/// A read command. Limits of zero seconds are no limits.
pub fn cmd_input<T>(timeout: Option<u64>, linger: bool, max_time: Option<u64>) -> (input: Input<T>)
    ensures
        input@ == new_input::<T>(linger, timeout, max_time),
        input@.linger == linger && input@.timeout == timeout && input@.max_time == max_time
            && input@.phase is Creating,
{
    Input {
        linger,
        timeout,
        max_time,
        deadline: Deadline::never(),
        max_deadline: Deadline::never(),
        phase: InputPhase::Creating,
    }
}

impl<T> Input<T> {
    /// What a command that has not begun asks for.
    pub fn first_action(&self) -> (action: InputAction<Vec<u8>>)
        ensures
            action@ == self@.first_action(),
            self@.phase is Creating ==> action@ is Mkfifo,
    {
        match self.phase {
            InputPhase::Creating => InputAction::Mkfifo,
            _ => InputAction::Nothing,
        }
    }

    fn close(&mut self, end: InputEnd<T>) -> (action: InputAction<Vec<u8>>)
        ensures
            (final(self)@, action@) == old(self)@.close(end),
    {
        self.phase = InputPhase::Removing(end);
        InputAction::Remove
    }

    /// Tells the command what happened; the answer is what to do next.
    pub fn step(&mut self, event: InputEvent<Vec<u8>, T>) -> (action: InputAction<Vec<u8>>)
        ensures
            (final(self)@, action@) == old(self)@.step(event@),
    {
        let mut phase = InputPhase::Creating;
        std::mem::swap(&mut phase, &mut self.phase);
        match (phase, event) {
            (InputPhase::Creating, InputEvent::Mkfifo { outcome, now }) => {
                match create_fifo(outcome) {
                    CreateStep::Ready => {
                        self.deadline = Deadline::after(now, self.timeout);
                        self.max_deadline = Deadline::after(now, self.max_time);
                        self.phase = InputPhase::Listening;
                        InputAction::Listen
                    },
                    CreateStep::Stat => {
                        self.phase = InputPhase::Checking;
                        InputAction::Stat
                    },
                    CreateStep::Refused(error) => {
                        self.phase = InputPhase::Ended(InputEnd::Refused(error));
                        InputAction::Exit
                    },
                }
            },
            (InputPhase::Checking, InputEvent::Stat(found)) => {
                self.phase = InputPhase::Ended(InputEnd::Refused(refuse_taken(found)));
                InputAction::Exit
            },
            (InputPhase::Listening, InputEvent::Polled { quit, arrival, now }) => {
                let reading = arrival.is_reading();
                match read_one_message(quit, arrival, &self.deadline, &self.max_deadline, now) {
                    None => {
                        if reading {
                            self.deadline = Deadline::never();
                        }
                        self.phase = InputPhase::Listening;
                        InputAction::Wait
                    },
                    Some(ReadResult::Data(data)) => {
                        self.phase = InputPhase::Printing;
                        InputAction::Print(frame_bytes(data))
                    },
                    Some(ReadResult::TimedOut) => self.close(InputEnd::TimedOut),
                    Some(ReadResult::Failed(error)) => self.close(InputEnd::Failed(error)),
                    Some(ReadResult::MaxTimeReached) => self.close(InputEnd::Done),
                    Some(ReadResult::Interrupted) => self.close(InputEnd::Done),
                }
            },
            (InputPhase::Printing, InputEvent::Printed(now)) => {
                if self.linger && !self.max_deadline.expired(now) {
                    self.deadline = Deadline::never();
                    self.phase = InputPhase::Listening;
                    InputAction::Listen
                } else {
                    self.close(InputEnd::Done)
                }
            },
            (InputPhase::Printing, InputEvent::PrintFailed(reason)) => self.close(
                InputEnd::PrintFailed(reason),
            ),
            (InputPhase::Removing(end), InputEvent::Removed) => {
                self.phase = InputPhase::Ended(end);
                InputAction::Exit
            },
            (phase, _) => {
                self.phase = phase;
                InputAction::Nothing
            },
        }
    }
}

impl View for InputEnd<String> {
    type V = InputEnd<Seq<char>>;

    open spec fn view(&self) -> InputEnd<Seq<char>> {
        match self {
            InputEnd::Done => InputEnd::Done,
            InputEnd::TimedOut => InputEnd::TimedOut,
            InputEnd::Refused(error) => InputEnd::Refused(error@),
            InputEnd::Failed(error) => InputEnd::Failed(error@),
            InputEnd::PrintFailed(reason) => InputEnd::PrintFailed(reason@),
        }
    }
}

/// How a read command leaves, by how it ended.
pub open spec fn input_exit(end: InputEnd<Seq<char>>, path: Seq<char>) -> Exit<Seq<char>> {
    match end {
        InputEnd::Done => Exit::Success,
        InputEnd::TimedOut => Exit::Complaint {
            code: EXIT_TIMED_OUT,
            text: "error: "@ + crate::reader::no_writer_text(path),
        },
        InputEnd::Refused(error) => Exit::Error {
            headline: crate::create::refusal_headline(error, path),
            cause: error.reason(),
        },
        InputEnd::Failed(error) => Exit::Error {
            headline: crate::reader::read_error_text(error, path),
            cause: None,
        },
        InputEnd::PrintFailed(reason) => Exit::Error {
            headline: "failed to write to stdout"@,
            cause: Some(reason),
        },
    }
}

impl InputEnd<String> {
    /// How the command leaves.
    pub fn exit(self, path: &str) -> (exit: Exit<String>)
        ensures
            exit@ == input_exit(self@, path@),
    {
        match self {
            InputEnd::Done => Exit::Success,
            InputEnd::TimedOut => {
                let mut text = "error: ".to_string();
                text.append(no_writer(path).as_str());
                Exit::Complaint { code: EXIT_TIMED_OUT, text }
            },
            InputEnd::Refused(error) => {
                let headline = error.headline(path);
                Exit::Error { headline, cause: error.into_reason() }
            },
            InputEnd::Failed(error) => Exit::Error { headline: error.message(path), cause: None },
            InputEnd::PrintFailed(reason) => Exit::Error {
                headline: "failed to write to stdout".to_string(),
                cause: Some(reason),
            },
        }
    }
}

impl<T> Input<T> {
    /// How the command ended, if it has.
    pub fn into_end(self) -> (end: Option<InputEnd<T>>)
        ensures
            end == match self@.phase {
                InputPhase::Ended(e) => Some(e),
                _ => None,
            },
    {
        match self.phase {
            InputPhase::Ended(end) => Some(end),
            _ => None,
        }
    }
}

} // verus!
