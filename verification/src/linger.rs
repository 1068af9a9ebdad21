//! Lingering readers: a FIFO that is read in the background, and its messages buffered.
use crate::create::{create_fifo, refuse_taken, CreateError, CreateStep, Mkfifo, Stat};
use crate::deadline::Deadline;
use crate::feed::{feed, FeedAction, FeedEvent};
use crate::frame::frame_text;
use vstd::prelude::*;

pub mod runs;

verus! {

/// What became of the start of a background reader.
#[derive(Debug)]
pub enum Started<T> {
    /// Its thread runs.
    Running,
    /// The FIFO could not be created.
    Refused(CreateError<T>),
    /// The thread could not be started.
    SpawnFailed(T),
}

/// A lingering reader between two events.
pub struct LingerState {
    /// Whether it is asked to stop.
    pub stopping: bool,
    /// Whether its thread runs.
    pub running: bool,
    /// Whether a writer is there that has not gone yet.
    pub reading: bool,
    /// The messages that nobody has taken yet, the oldest first.
    pub queue: Seq<Seq<char>>,
}

/// A lingering reader.
#[derive(Debug)]
pub struct LingerReader {
    stopping: bool,
    running: bool,
    reading: bool,
    queue: Vec<String>,
}

impl View for LingerReader {
    type V = LingerState;

    closed spec fn view(&self) -> LingerState {
        LingerState {
            stopping: self.stopping,
            running: self.running,
            reading: self.reading,
            queue: crate::text::views(self.queue@),
        }
    }
}

/// A reader that has just been started.
pub open spec fn new_linger() -> LingerState {
    LingerState { stopping: false, running: true, reading: false, queue: Seq::empty() }
}

/// Why a background reader was not started, in words.
pub open spec fn start_failure(started: Started<Seq<char>>, path: Seq<char>) -> Option<Seq<char>> {
    match started {
        Started::Running => None,
        Started::Refused(error) => Some(crate::create::refusal_text(error, path)),
        Started::SpawnFailed(reason) => Some("failed to spawn linger thread: "@ + reason),
    }
}

impl View for Started<String> {
    type V = Started<Seq<char>>;

    open spec fn view(&self) -> Started<Seq<char>> {
        match self {
            Started::Running => Started::Running,
            Started::Refused(error) => Started::Refused(error@),
            Started::SpawnFailed(reason) => Started::SpawnFailed(reason@),
        }
    }
}

/// The reader at a path, once its FIFO is created and its thread started; or why there is
/// none. The timeout is accepted and not enforced.
pub fn start_linger(path: &str, timeout: u64, started: Started<String>) -> (reader: Result<
    LingerReader,
    String,
>)
    ensures
        match (reader, start_failure(started@, path@)) {
            (Ok(reader), None) => reader@ == new_linger(),
            (Err(text), Some(expected)) => text@ == expected,
            _ => false,
        },
{
    match started {
        Started::Running => {
            let reader = LingerReader {
                stopping: false,
                running: true,
                reading: false,
                queue: Vec::new(),
            };
            assert(reader@.queue =~= Seq::empty());
            Ok(reader)
        },
        Started::Refused(error) => Err(error.message(path)),
        Started::SpawnFailed(reason) => {
            let mut text = "failed to spawn linger thread: ".to_string();
            text.append(reason.as_str());
            Err(text)
        },
    }
}

/// Where the start of a background reader is.
#[derive(Debug)]
pub enum StartPhase<T> {
    /// Waiting to hear of `mkfifo`.
    Creating,
    /// Waiting to hear what is at the path.
    Checking,
    /// Waiting for the thread.
    Spawning,
    /// The thread could not be started; the FIFO is being removed.
    Removing(T),
    /// Over.
    Ended(Started<T>),
}

/// What the start of a background reader is told.
#[derive(Debug)]
pub enum StartEvent<T> {
    /// `mkfifo` was called.
    Mkfifo(Mkfifo<T>),
    /// The path was looked at.
    Stat(Stat<T>),
    /// The thread runs.
    Spawned,
    /// The thread could not be started.
    SpawnFailed(T),
    /// The FIFO was removed, or was gone.
    Removed,
}

/// What the start of a background reader asks for.
#[derive(Debug, Clone, Copy)]
pub enum StartAction {
    /// Call `mkfifo` on the path.
    Mkfifo,
    /// See what is at the path.
    Stat,
    /// Start the thread.
    Spawn,
    /// Remove the FIFO.
    Remove,
    /// It is over.
    Exit,
    /// Nothing: it was not waiting for what it was told.
    Nothing,
}

impl<T> StartPhase<T> {
    /// What is asked for before it has begun.
    pub open spec fn first_action(self) -> StartAction {
        if self is Creating {
            StartAction::Mkfifo
        } else {
            StartAction::Nothing
        }
    }

    /// What it becomes, and asks for, on being told an event: a FIFO that was made stays only
    /// where the thread runs.
    pub open spec fn step(self, event: StartEvent<T>) -> (StartPhase<T>, StartAction) {
        match (self, event) {
            (StartPhase::Creating, StartEvent::Mkfifo(outcome)) => {
                match crate::create::after_mkfifo(outcome) {
                    CreateStep::Ready => (StartPhase::Spawning, StartAction::Spawn),
                    CreateStep::Stat => (StartPhase::Checking, StartAction::Stat),
                    CreateStep::Refused(error) => (
                        StartPhase::Ended(Started::Refused(error)),
                        StartAction::Exit,
                    ),
                }
            },
            (StartPhase::Checking, StartEvent::Stat(found)) => (
                StartPhase::Ended(Started::Refused(crate::create::why_taken(found))),
                StartAction::Exit,
            ),
            (StartPhase::Spawning, StartEvent::Spawned) => (
                StartPhase::Ended(Started::Running),
                StartAction::Exit,
            ),
            (StartPhase::Spawning, StartEvent::SpawnFailed(reason)) => (
                StartPhase::Removing(reason),
                StartAction::Remove,
            ),
            (StartPhase::Removing(reason), StartEvent::Removed) => (
                StartPhase::Ended(Started::SpawnFailed(reason)),
                StartAction::Exit,
            ),
            _ => (self, StartAction::Nothing),
        }
    }
}

/// The start of a background reader.
#[derive(Debug)]
pub struct LingerStart<T> {
    phase: StartPhase<T>,
}

impl<T> View for LingerStart<T> {
    type V = StartPhase<T>;

    closed spec fn view(&self) -> StartPhase<T> {
        self.phase
    }
}

impl<T> LingerStart<T> {
    /// A start that has not begun.
    pub fn new() -> (start: LingerStart<T>)
        ensures
            start@ == StartPhase::<T>::Creating,
    {
        LingerStart { phase: StartPhase::Creating }
    }

    /// What is asked for before it has begun.
    pub fn first_action(&self) -> (action: StartAction)
        ensures
            action == self@.first_action(),
            self@ is Creating ==> action is Mkfifo,
    {
        match self.phase {
            StartPhase::Creating => StartAction::Mkfifo,
            _ => StartAction::Nothing,
        }
    }

    /// Tells it what happened; the answer is what to do next.
    pub fn step(&mut self, event: StartEvent<T>) -> (action: StartAction)
        ensures
            (final(self)@, action) == old(self)@.step(event),
    {
        let mut phase = StartPhase::Creating;
        std::mem::swap(&mut phase, &mut self.phase);
        let (phase, action) = match (phase, event) {
            (StartPhase::Creating, StartEvent::Mkfifo(outcome)) => {
                match create_fifo(outcome) {
                    CreateStep::Ready => (StartPhase::Spawning, StartAction::Spawn),
                    CreateStep::Stat => (StartPhase::Checking, StartAction::Stat),
                    CreateStep::Refused(error) => (
                        StartPhase::Ended(Started::Refused(error)),
                        StartAction::Exit,
                    ),
                }
            },
            (StartPhase::Checking, StartEvent::Stat(found)) => (
                StartPhase::Ended(Started::Refused(refuse_taken(found))),
                StartAction::Exit,
            ),
            (StartPhase::Spawning, StartEvent::Spawned) => (
                StartPhase::Ended(Started::Running),
                StartAction::Exit,
            ),
            (StartPhase::Spawning, StartEvent::SpawnFailed(reason)) => (
                StartPhase::Removing(reason),
                StartAction::Remove,
            ),
            (StartPhase::Removing(reason), StartEvent::Removed) => (
                StartPhase::Ended(Started::SpawnFailed(reason)),
                StartAction::Exit,
            ),
            (phase, _) => (phase, StartAction::Nothing),
        };
        self.phase = phase;
        action
    }

    /// What became of the start, if it is over.
    pub fn into_started(self) -> (started: Option<Started<T>>)
        ensures
            started == match self@ {
                StartPhase::Ended(started) => Some(started),
                _ => None,
            },
    {
        match self.phase {
            StartPhase::Ended(started) => Some(started),
            _ => None,
        }
    }
}

/// What the thread of a lingering reader has just learnt.
#[derive(Debug)]
pub enum LingerEvent<D> {
    /// It is between two writers.
    Turn,
    /// The FIFO is open: a writer has come.
    Opened,
    /// The FIFO could not be opened: it was removed.
    OpenFailed,
    /// The FIFO could not be read.
    ReadFailed,
    /// A writer has gone, and this is what it wrote.
    Read(D),
}

impl View for LingerEvent<Vec<u8>> {
    type V = LingerEvent<Seq<u8>>;

    open spec fn view(&self) -> LingerEvent<Seq<u8>> {
        match *self {
            LingerEvent::Turn => LingerEvent::Turn,
            LingerEvent::Opened => LingerEvent::Opened,
            LingerEvent::OpenFailed => LingerEvent::OpenFailed,
            LingerEvent::ReadFailed => LingerEvent::ReadFailed,
            LingerEvent::Read(data) => LingerEvent::Read(data@),
        }
    }
}

/// What the thread of a lingering reader does next.
#[derive(Debug, Clone, Copy)]
pub enum LingerAction {
    /// Open the FIFO, which blocks until a writer comes.
    Open,
    /// Read until the writer has gone.
    Read,
    /// Go on to the next writer.
    Turn,
    /// End.
    Exit,
}

/// How the wait for a buffered message ends.
pub enum Popped {
    /// With the oldest message.
    Message(Seq<char>),
    /// The reader has stopped, or its FIFO is gone.
    Stopped,
    /// No message came in time.
    TimedOut,
}

impl LingerState {
    /// What the reader becomes, and its thread does, on learning something: what a writer
    /// wrote is buffered as text, framed, unless it wrote nothing.
    pub open spec fn step(self, event: LingerEvent<Seq<u8>>) -> (LingerState, LingerAction) {
        match event {
            LingerEvent::Turn => if self.stopping {
                (LingerState { running: false, reading: false, ..self }, LingerAction::Exit)
            } else {
                (LingerState { reading: false, ..self }, LingerAction::Open)
            },
            LingerEvent::Opened => (LingerState { reading: true, ..self }, LingerAction::Read),
            LingerEvent::OpenFailed | LingerEvent::ReadFailed => (
                LingerState { running: false, reading: false, ..self },
                LingerAction::Exit,
            ),
            LingerEvent::Read(data) => (
                LingerState {
                    reading: false,
                    queue: if data.len() == 0 {
                        self.queue
                    } else {
                        self.queue.push(
                            crate::frame::framed_chars(crate::frame::text_of(data)),
                        )
                    },
                    ..self
                },
                LingerAction::Turn,
            ),
        }
    }

    /// How the wait for a message ends, if it does: with the oldest message where there is
    /// one; otherwise when the reader has stopped or the FIFO is no longer there, or when the
    /// seconds of the timeout have passed. A timeout of zero never passes.
    pub open spec fn pop(self, timeout: u64, waited: u64, there: bool) -> Option<Popped> {
        if self.queue.len() > 0 {
            Some(Popped::Message(self.queue[0]))
        } else if !self.running || !there {
            Some(Popped::Stopped)
        } else if timeout > 0 && waited >= timeout * 1_000_000_000 {
            Some(Popped::TimedOut)
        } else {
            None
        }
    }

    /// The reader after the wait.
    pub open spec fn popped(self) -> LingerState {
        LingerState {
            queue: if self.queue.len() > 0 {
                self.queue.subrange(1, self.queue.len() as int)
            } else {
                self.queue
            },
            ..self
        }
    }
}

/// What the tool answers, by how the wait for a message ended.
pub open spec fn popped_reply(popped: Popped) -> Result<Seq<char>, Seq<char>> {
    match popped {
        Popped::Message(message) => Ok(message),
        Popped::Stopped => Err("linger reader has stopped"@),
        Popped::TimedOut => Err("timed out waiting for message"@),
    }
}

impl LingerReader {
    /// A reader that has ended, with nothing left to take.
    pub fn ended() -> (reader: LingerReader)
        ensures
            reader@ == (LingerState {
                stopping: true,
                running: false,
                reading: false,
                queue: Seq::empty(),
            }),
    {
        let reader = LingerReader {
            stopping: true,
            running: false,
            reading: false,
            queue: Vec::new(),
        };
        assert(reader@.queue =~= Seq::empty());
        reader
    }

    /// Tells the reader what its thread has learnt; the answer is what the thread does next.
    pub fn step(&mut self, event: LingerEvent<Vec<u8>>) -> (action: LingerAction)
        ensures
            (final(self)@, action) == old(self)@.step(event@),
    {
        let learnt = match event {
            LingerEvent::Turn => FeedEvent::Turn { stop: self.stopping },
            LingerEvent::Opened => FeedEvent::Opened,
            LingerEvent::OpenFailed => FeedEvent::OpenFailed,
            LingerEvent::ReadFailed => FeedEvent::ReadFailed,
            LingerEvent::Read(data) => FeedEvent::Read(data),
        };
        self.reading = false;
        match feed(learnt) {
            FeedAction::Open => LingerAction::Open,
            FeedAction::Read => {
                self.reading = true;
                LingerAction::Read
            },
            FeedAction::Turn => LingerAction::Turn,
            FeedAction::Send(data) => {
                self.queue.push(frame_text(data.as_slice()));
                assert(self@.queue =~= old(self)@.queue.push(
                    crate::frame::framed_chars(crate::frame::text_of(data@)),
                ));
                LingerAction::Turn
            },
            FeedAction::Exit => {
                self.running = false;
                LingerAction::Exit
            },
        }
    }

    /// Takes the oldest message, if the wait for one is over after `waited` nanoseconds;
    /// `there` says whether the FIFO is still there.
    pub fn pop_message(&mut self, timeout: u64, waited: u64, there: bool) -> (reply: Option<
        Result<String, String>,
    >)
        ensures
            final(self)@ == old(self)@.popped(),
            match (reply, old(self)@.pop(timeout, waited, there)) {
                (None, None) => true,
                (Some(reply), Some(popped)) => crate::text::says(reply, popped_reply(popped)),
                _ => false,
            },
    {
        if self.queue.len() > 0 {
            let message = self.queue.remove(0);
            assert(self@.queue =~= old(self)@.popped().queue);
            assert(message@ == old(self)@.queue[0]);
            Some(Ok(message))
        } else if !self.running || !there {
            Some(Err("linger reader has stopped".to_string()))
        } else if Deadline::after(0, Some(timeout)).expired(waited) {
            Some(Err("timed out waiting for message".to_string()))
        } else {
            None
        }
    }

    /// Whether a writer is there that has not gone yet.
    pub fn is_reading(&self) -> (reading: bool)
        ensures
            reading == self@.reading,
    {
        self.reading
    }

    /// Asks the reader to stop.
    pub fn raise_stop(&mut self)
        ensures
            final(self)@ == (LingerState { stopping: true, ..old(self)@ }),
    {
        self.stopping = true;
    }

    /// Ends the reader and hands out all messages that nobody has taken.
    pub fn stop(self) -> (messages: Result<Vec<String>, String>)
        ensures
            messages matches Ok(list) && crate::text::views(list@) == self@.queue,
    {
        Ok(self.queue)
    }
}

} // verus!
