//! Writers: see that a FIFO is there, open it, write one message.
//!
//! The message is given, or is all of standard input, which is read to its end before the
//! FIFO is looked for, so that whoever feeds it is not held up by a reader that is late.
//!
//! A FIFO that is there is the sign that someone listens, so a writer never makes one. With
//! a timeout it looks again once a second; without, the FIFO has to be there at once.
use crate::cli::{Exit, EXIT_FAILURE, EXIT_TIMED_OUT};
use crate::text::join3;
use vstd::prelude::*;

pub mod runs;

verus! {

/// How a writer ended.
#[derive(Debug)]
pub enum WriteEnd<T> {
    /// So many bytes were written.
    Sent(usize),
    /// Standard input could not be read.
    StdinFailed(T),
    /// There was no FIFO.
    Missing,
    /// No FIFO appeared in time.
    TimedOut,
    /// The FIFO was there, and was gone when it was opened.
    Disappeared(T),
    /// The FIFO could not be opened.
    OpenFailed(T),
    /// The message could not be written.
    WriteFailed(T),
}

/// Where a writer is.
#[derive(Debug)]
pub enum WritePhase<T> {
    /// Waiting for standard input.
    Buffering,
    /// Waiting to hear whether the FIFO is there.
    Probing,
    /// Waiting for a second to pass.
    Sleeping,
    /// Waiting for the FIFO to be opened.
    Opening,
    /// Opening failed; waiting to hear whether the FIFO is still there.
    Rechecking(T),
    /// Waiting for the message to be written.
    Writing,
    /// Over.
    Ended(WriteEnd<T>),
}

/// What a writer is told.
#[derive(Debug)]
pub enum WriteEvent<D, T> {
    /// Standard input was read to its end.
    StdinRead(D),
    /// Standard input could not be read.
    StdinFailed(T),
    /// Whether there is something at the path.
    Probed(bool),
    /// A second has passed.
    Slept,
    /// The FIFO is open.
    Opened,
    /// The FIFO could not be opened.
    OpenFailed(T),
    /// The message is written.
    Written,
    /// The message could not be written.
    WriteFailed(T),
}

/// What a writer asks for.
#[derive(Debug)]
pub enum WriteAction<D> {
    /// Read standard input to its end.
    ReadStdin,
    /// See whether there is something at the path.
    Probe,
    /// Wait for a second.
    Sleep,
    /// Open the FIFO for writing.
    Open,
    /// Write the data.
    Write(D),
    /// The writer is done.
    Exit,
    /// Nothing: the writer was not waiting for what it was told.
    Nothing,
}

/// A writer between two events.
pub struct WriteState<T> {
    /// Seconds left to wait for the FIFO; without a timeout it has to be there.
    pub wait: Option<u64>,
    /// Whether an open that failed is looked into.
    pub recheck: bool,
    /// What is still to be written.
    pub data: Seq<u8>,
    /// The size of the message.
    pub size: usize,
    /// Where the writer is.
    pub phase: WritePhase<T>,
}

/// A writer that has not begun, of the given message, or of standard input where none is
/// given.
pub open spec fn new_writer<T>(
    wait: Option<u64>,
    recheck: bool,
    message: Option<Seq<u8>>,
) -> WriteState<T> {
    match message {
        Some(data) => WriteState {
            wait,
            recheck,
            data,
            size: data.len() as usize,
            phase: WritePhase::Probing,
        },
        None => WriteState {
            wait,
            recheck,
            data: Seq::empty(),
            size: 0,
            phase: WritePhase::Buffering,
        },
    }
}

impl<T> WriteState<T> {
    /// The same writer elsewhere.
    pub open spec fn at(self, phase: WritePhase<T>) -> WriteState<T> {
        WriteState { phase, ..self }
    }

    /// What a writer that has not begun asks for.
    pub open spec fn first_action(self) -> WriteAction<Seq<u8>> {
        if self.phase is Buffering {
            WriteAction::ReadStdin
        } else {
            WriteAction::Probe
        }
    }

    /// Ends.
    pub open spec fn close(self, end: WriteEnd<T>) -> (WriteState<T>, WriteAction<Seq<u8>>) {
        (self.at(WritePhase::Ended(end)), WriteAction::Exit)
    }

    /// What the writer becomes, and asks for, on being told an event.
    pub open spec fn step(self, event: WriteEvent<Seq<u8>, T>) -> (
        WriteState<T>,
        WriteAction<Seq<u8>>,
    ) {
        match (self.phase, event) {
            (WritePhase::Buffering, WriteEvent::StdinRead(data)) => (
                WriteState {
                    data,
                    size: data.len() as usize,
                    phase: WritePhase::Probing,
                    ..self
                },
                WriteAction::Probe,
            ),
            (WritePhase::Buffering, WriteEvent::StdinFailed(reason)) => self.close(
                WriteEnd::StdinFailed(reason),
            ),
            (WritePhase::Probing, WriteEvent::Probed(true)) => (
                self.at(WritePhase::Opening),
                WriteAction::Open,
            ),
            (WritePhase::Probing, WriteEvent::Probed(false)) => match self.wait {
                None => self.close(WriteEnd::Missing),
                Some(secs) => if secs == 0 {
                    self.close(WriteEnd::TimedOut)
                } else {
                    (
                        WriteState {
                            wait: Some((secs - 1) as u64),
                            phase: WritePhase::Sleeping,
                            ..self
                        },
                        WriteAction::Sleep,
                    )
                },
            },
            (WritePhase::Sleeping, WriteEvent::Slept) => (
                self.at(WritePhase::Probing),
                WriteAction::Probe,
            ),
            (WritePhase::Opening, WriteEvent::Opened) => (
                WriteState { data: Seq::empty(), phase: WritePhase::Writing, ..self },
                WriteAction::Write(self.data),
            ),
            (WritePhase::Opening, WriteEvent::OpenFailed(reason)) => if self.recheck {
                (self.at(WritePhase::Rechecking(reason)), WriteAction::Probe)
            } else {
                self.close(WriteEnd::OpenFailed(reason))
            },
            (WritePhase::Rechecking(reason), WriteEvent::Probed(there)) => self.close(
                if there {
                    WriteEnd::OpenFailed(reason)
                } else {
                    WriteEnd::Disappeared(reason)
                },
            ),
            (WritePhase::Writing, WriteEvent::Written) => self.close(WriteEnd::Sent(self.size)),
            (WritePhase::Writing, WriteEvent::WriteFailed(reason)) => self.close(
                WriteEnd::WriteFailed(reason),
            ),
            _ => (self, WriteAction::Nothing),
        }
    }
}

impl<T> View for WriteEvent<Vec<u8>, T> {
    type V = WriteEvent<Seq<u8>, T>;

    open spec fn view(&self) -> WriteEvent<Seq<u8>, T> {
        match *self {
            WriteEvent::StdinRead(data) => WriteEvent::StdinRead(data@),
            WriteEvent::StdinFailed(reason) => WriteEvent::StdinFailed(reason),
            WriteEvent::Probed(there) => WriteEvent::Probed(there),
            WriteEvent::Slept => WriteEvent::Slept,
            WriteEvent::Opened => WriteEvent::Opened,
            WriteEvent::OpenFailed(reason) => WriteEvent::OpenFailed(reason),
            WriteEvent::Written => WriteEvent::Written,
            WriteEvent::WriteFailed(reason) => WriteEvent::WriteFailed(reason),
        }
    }
}

impl View for WriteAction<Vec<u8>> {
    type V = WriteAction<Seq<u8>>;

    open spec fn view(&self) -> WriteAction<Seq<u8>> {
        match *self {
            WriteAction::ReadStdin => WriteAction::ReadStdin,
            WriteAction::Probe => WriteAction::Probe,
            WriteAction::Sleep => WriteAction::Sleep,
            WriteAction::Open => WriteAction::Open,
            WriteAction::Write(data) => WriteAction::Write(data@),
            WriteAction::Exit => WriteAction::Exit,
            WriteAction::Nothing => WriteAction::Nothing,
        }
    }
}

/// A writer.
#[derive(Debug)]
pub struct Writer<T> {
    wait: Option<u64>,
    recheck: bool,
    data: Vec<u8>,
    size: usize,
    phase: WritePhase<T>,
}

impl<T> View for Writer<T> {
    type V = WriteState<T>;

    closed spec fn view(&self) -> WriteState<T> {
        WriteState {
            wait: self.wait,
            recheck: self.recheck,
            data: self.data@,
            size: self.size,
            phase: self.phase,
        }
    }
}

/// The write command without a timeout: the FIFO has to be there.
pub fn cmd_output_write<T>(data: Vec<u8>) -> (writer: Writer<T>)
    ensures
        writer@ == new_writer::<T>(None, true, Some(data@)),
        writer@.wait is None && writer@.recheck && writer@.data == data@ && writer@.size
            == data@.len() && writer@.phase is Probing,
{
    let size = data.len();
    Writer { wait: None, recheck: true, data, size, phase: WritePhase::Probing }
}

/// The write command with a timeout: it looks for the FIFO at once and then once after each
/// second.
pub fn cmd_output_poll_and_write<T>(data: Vec<u8>, secs: u64) -> (writer: Writer<T>)
    ensures
        writer@ == new_writer::<T>(Some(secs), true, Some(data@)),
        writer@.wait == Some(secs) && writer@.recheck && writer@.data == data@ && writer@.size
            == data@.len() && writer@.phase is Probing,
{
    let size = data.len();
    Writer { wait: Some(secs), recheck: true, data, size, phase: WritePhase::Probing }
}

/// The write command. Its message is the one given, as it is; where none is given, it is all
/// of standard input, which is asked for before all else.
pub fn cmd_output<T>(message: Option<&str>, timeout: Option<u64>) -> (writer: Writer<T>)
    ensures
        writer@ == new_writer::<T>(
            timeout,
            true,
            match message {
                Some(text) => Some(vstd::utf8::encode_utf8(text@)),
                None => None,
            },
        ),
        writer@.wait == timeout && writer@.recheck,
        message matches Some(text) ==> writer@.data == vstd::utf8::encode_utf8(text@)
            && writer@.size == writer@.data.len() && writer@.phase is Probing,
        message is None ==> writer@.phase is Buffering,
{
    match message {
        Some(text) => {
            let data = text.as_bytes_vec();
            match timeout {
                Some(secs) => cmd_output_poll_and_write(data, secs),
                None => cmd_output_write(data),
            }
        },
        None => Writer {
            wait: timeout,
            recheck: true,
            data: Vec::new(),
            size: 0,
            phase: WritePhase::Buffering,
        },
    }
}

/// The write tool: the FIFO has to be there, and the message goes out as it is.
pub fn write_to_fifo<T>(message: &str) -> (writer: Writer<T>)
    ensures
        writer@ == new_writer::<T>(None, false, Some(vstd::utf8::encode_utf8(message@))),
        writer@.wait is None && !writer@.recheck && writer@.data == vstd::utf8::encode_utf8(message@)
            && writer@.size == writer@.data.len() && writer@.phase is Probing,
{
    let data = message.as_bytes_vec();
    let size = data.len();
    Writer { wait: None, recheck: false, data, size, phase: WritePhase::Probing }
}

impl<T> Writer<T> {
    fn close(&mut self, end: WriteEnd<T>) -> (action: WriteAction<Vec<u8>>)
        ensures
            (final(self)@, action@) == old(self)@.close(end),
    {
        self.phase = WritePhase::Ended(end);
        WriteAction::Exit
    }

    /// What a writer that has not begun asks for.
    pub fn first_action(&self) -> (action: WriteAction<Vec<u8>>)
        ensures
            action@ == self@.first_action(),
    {
        match self.phase {
            WritePhase::Buffering => WriteAction::ReadStdin,
            _ => WriteAction::Probe,
        }
    }

    /// Tells the writer what happened; the answer is what to do next.
    pub fn step(&mut self, event: WriteEvent<Vec<u8>, T>) -> (action: WriteAction<Vec<u8>>)
        ensures
            (final(self)@, action@) == old(self)@.step(event@),
    {
        let mut phase = WritePhase::Probing;
        std::mem::swap(&mut phase, &mut self.phase);
        match (phase, event) {
            (WritePhase::Buffering, WriteEvent::StdinRead(data)) => {
                self.size = data.len();
                self.data = data;
                self.phase = WritePhase::Probing;
                WriteAction::Probe
            },
            (WritePhase::Buffering, WriteEvent::StdinFailed(reason)) => self.close(
                WriteEnd::StdinFailed(reason),
            ),
            (WritePhase::Probing, WriteEvent::Probed(there)) => {
                if there {
                    self.phase = WritePhase::Opening;
                    return WriteAction::Open;
                }
                match self.wait {
                    None => self.close(WriteEnd::Missing),
                    Some(secs) => {
                        if secs == 0 {
                            self.close(WriteEnd::TimedOut)
                        } else {
                            self.wait = Some(secs - 1);
                            self.phase = WritePhase::Sleeping;
                            WriteAction::Sleep
                        }
                    },
                }
            },
            (WritePhase::Sleeping, WriteEvent::Slept) => {
                self.phase = WritePhase::Probing;
                WriteAction::Probe
            },
            (WritePhase::Opening, WriteEvent::Opened) => {
                let mut data = Vec::new();
                data.append(&mut self.data);
                self.phase = WritePhase::Writing;
                assert(data@ =~= old(self)@.data);
                WriteAction::Write(data)
            },
            (WritePhase::Opening, WriteEvent::OpenFailed(reason)) => {
                if self.recheck {
                    self.phase = WritePhase::Rechecking(reason);
                    WriteAction::Probe
                } else {
                    self.close(WriteEnd::OpenFailed(reason))
                }
            },
            (WritePhase::Rechecking(reason), WriteEvent::Probed(there)) => {
                if there {
                    self.close(WriteEnd::OpenFailed(reason))
                } else {
                    self.close(WriteEnd::Disappeared(reason))
                }
            },
            (WritePhase::Writing, WriteEvent::Written) => {
                let size = self.size;
                self.close(WriteEnd::Sent(size))
            },
            (WritePhase::Writing, WriteEvent::WriteFailed(reason)) => self.close(
                WriteEnd::WriteFailed(reason),
            ),
            (phase, _) => {
                self.phase = phase;
                WriteAction::Nothing
            },
        }
    }

    /// How the writer ended, if it has.
    pub fn into_end(self) -> (end: Option<WriteEnd<T>>)
        ensures
            end == match self@.phase {
                WritePhase::Ended(e) => Some(e),
                _ => None,
            },
    {
        match self.phase {
            WritePhase::Ended(end) => Some(end),
            _ => None,
        }
    }
}

impl View for WriteEnd<String> {
    type V = WriteEnd<Seq<char>>;

    open spec fn view(&self) -> WriteEnd<Seq<char>> {
        match *self {
            WriteEnd::Sent(size) => WriteEnd::Sent(size),
            WriteEnd::StdinFailed(reason) => WriteEnd::StdinFailed(reason@),
            WriteEnd::Missing => WriteEnd::Missing,
            WriteEnd::TimedOut => WriteEnd::TimedOut,
            WriteEnd::Disappeared(reason) => WriteEnd::Disappeared(reason@),
            WriteEnd::OpenFailed(reason) => WriteEnd::OpenFailed(reason@),
            WriteEnd::WriteFailed(reason) => WriteEnd::WriteFailed(reason@),
        }
    }
}

/// There is no FIFO at the path.
pub open spec fn missing_text(path: Seq<char>) -> Seq<char> {
    "'"@ + path + "' does not exist (no reader listening)"@
}

/// No FIFO appeared at the path.
pub open spec fn no_reader_text(path: Seq<char>) -> Seq<char> {
    "timed out waiting for '"@ + path + "' to appear (no reader listening)"@
}

/// What the write tool reports: the number of bytes, or why there are none.
pub open spec fn write_result(end: WriteEnd<Seq<char>>, path: Seq<char>) -> Result<
    usize,
    Seq<char>,
> {
    match end {
        WriteEnd::Sent(size) => Ok(size),
        WriteEnd::StdinFailed(reason) => Err("failed to read from stdin: "@ + reason),
        WriteEnd::Missing => Err(missing_text(path)),
        WriteEnd::TimedOut => Err(no_reader_text(path)),
        WriteEnd::Disappeared(_) => Err("'"@ + path + "' disappeared (no reader listening)"@),
        WriteEnd::OpenFailed(reason) => Err(
            "failed to open '"@ + path + "' for writing: "@ + reason,
        ),
        WriteEnd::WriteFailed(reason) => Err("failed to write to '"@ + path + "': "@ + reason),
    }
}

/// How a write command leaves, by how it ended.
pub open spec fn write_exit(end: WriteEnd<Seq<char>>, path: Seq<char>) -> Exit<Seq<char>> {
    match end {
        WriteEnd::Sent(_) => Exit::Success,
        WriteEnd::StdinFailed(reason) => Exit::Error {
            headline: "failed to read from stdin"@,
            cause: Some(reason),
        },
        WriteEnd::Missing => Exit::Complaint {
            code: EXIT_FAILURE,
            text: "error: "@ + missing_text(path),
        },
        WriteEnd::TimedOut => Exit::Complaint {
            code: EXIT_TIMED_OUT,
            text: "error: "@ + no_reader_text(path),
        },
        WriteEnd::Disappeared(reason) => Exit::Error {
            headline: "'"@ + path + "' disappeared (no reader listening)"@,
            cause: Some(reason),
        },
        WriteEnd::OpenFailed(reason) => Exit::Error {
            headline: "failed to open '"@ + path + "' for writing"@,
            cause: Some(reason),
        },
        WriteEnd::WriteFailed(reason) => Exit::Error {
            headline: "failed to write to '"@ + path + "'"@,
            cause: Some(reason),
        },
    }
}

fn missing(path: &str) -> (text: String)
    ensures
        text@ == missing_text(path@),
{
    join3("'", path, "' does not exist (no reader listening)")
}

fn no_reader(path: &str) -> (text: String)
    ensures
        text@ == no_reader_text(path@),
{
    join3("timed out waiting for '", path, "' to appear (no reader listening)")
}

impl WriteEnd<String> {
    /// What the write tool reports.
    pub fn result(&self, path: &str) -> (result: Result<usize, String>)
        ensures
            match (result, write_result(self@, path@)) {
                (Ok(size), Ok(expected)) => size == expected,
                (Err(text), Err(expected)) => text@ == expected,
                _ => false,
            },
    {
        match self {
            WriteEnd::Sent(size) => Ok(*size),
            WriteEnd::StdinFailed(reason) => {
                let mut text = "failed to read from stdin: ".to_string();
                text.append(reason.as_str());
                Err(text)
            },
            WriteEnd::Missing => Err(missing(path)),
            WriteEnd::TimedOut => Err(no_reader(path)),
            WriteEnd::Disappeared(_) => Err(
                join3("'", path, "' disappeared (no reader listening)"),
            ),
            WriteEnd::OpenFailed(reason) => {
                let mut text = join3("failed to open '", path, "' for writing: ");
                text.append(reason.as_str());
                Err(text)
            },
            WriteEnd::WriteFailed(reason) => {
                let mut text = join3("failed to write to '", path, "': ");
                text.append(reason.as_str());
                Err(text)
            },
        }
    }

    /// How the write command leaves.
    pub fn exit(self, path: &str) -> (exit: Exit<String>)
        ensures
            exit@ == write_exit(self@, path@),
    {
        match self {
            WriteEnd::Sent(_) => Exit::Success,
            WriteEnd::StdinFailed(reason) => Exit::Error {
                headline: "failed to read from stdin".to_string(),
                cause: Some(reason),
            },
            WriteEnd::Missing => {
                let mut text = "error: ".to_string();
                text.append(missing(path).as_str());
                Exit::Complaint { code: EXIT_FAILURE, text }
            },
            WriteEnd::TimedOut => {
                let mut text = "error: ".to_string();
                text.append(no_reader(path).as_str());
                Exit::Complaint { code: EXIT_TIMED_OUT, text }
            },
            WriteEnd::Disappeared(reason) => Exit::Error {
                headline: join3("'", path, "' disappeared (no reader listening)"),
                cause: Some(reason),
            },
            WriteEnd::OpenFailed(reason) => Exit::Error {
                headline: join3("failed to open '", path, "' for writing"),
                cause: Some(reason),
            },
            WriteEnd::WriteFailed(reason) => Exit::Error {
                headline: join3("failed to write to '", path, "'"),
                cause: Some(reason),
            },
        }
    }
}

/// Whether a relay hands a message to a thread that writes it to an output: only where
/// something is at the path, and then the whole of it.
pub fn write_fifo_blocking(path: &str, exists: bool, data: &[u8]) -> (handed: Result<
    usize,
    String,
>)
    ensures
        match handed {
            Ok(size) => exists && size == data@.len(),
            Err(text) => !exists && text@ == missing_text(path@),
        },
{
    if !exists {
        return Err(missing(path));
    }
    Ok(data.len())
}

} // verus!
