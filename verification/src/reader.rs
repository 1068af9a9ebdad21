//! The wait for one message on a FIFO.
//!
//! Reading blocks, so it is left to a thread of its own, and the reader looks once a
//! second at what has become of it, at the clock, and at whether a signal asked to end.
use crate::deadline::Deadline;
use crate::text::join3;
use vstd::prelude::*;

verus! {

/// What has become of a read in the background.
#[derive(Debug)]
pub enum Arrival<D, T> {
    /// No writer has come yet.
    Waiting,
    /// A writer has come and has not gone yet.
    Reading,
    /// A writer has come and gone, and this is what it wrote.
    Data(D),
    /// The FIFO could not be opened.
    OpenFailed(T),
    /// The FIFO could not be read.
    ReadFailed(T),
}

/// Why a message was not read.
#[derive(Debug)]
pub enum ReadError<T> {
    /// The FIFO could not be opened.
    Open(T),
    /// The FIFO could not be read.
    Read(T),
}

/// How the wait for one message ends.
#[derive(Debug)]
pub enum ReadResult<D, T> {
    /// With what a writer wrote.
    Data(D),
    /// No writer came before the deadline.
    TimedOut,
    /// The hard deadline has passed.
    MaxTimeReached,
    /// A signal asked to end.
    Interrupted,
    /// Reading failed.
    Failed(ReadError<T>),
}

/// How the wait for one message ends, if it does: a signal comes before all else, then
/// what was read, then the deadline for the first writer, then the hard deadline. The
/// deadline for the first writer is of no account once a writer has come.
pub open spec fn wait_over<D, T>(
    quit: bool,
    arrival: Arrival<D, T>,
    deadline: Option<int>,
    max_deadline: Option<int>,
    now: u64,
) -> Option<ReadResult<D, T>> {
    if quit {
        Some(ReadResult::Interrupted)
    } else {
        match arrival {
            Arrival::Data(data) => Some(ReadResult::Data(data)),
            Arrival::OpenFailed(reason) => Some(ReadResult::Failed(ReadError::Open(reason))),
            Arrival::ReadFailed(reason) => Some(ReadResult::Failed(ReadError::Read(reason))),
            Arrival::Waiting if crate::deadline::reached(deadline, now as int) => Some(
                ReadResult::TimedOut,
            ),
            Arrival::Waiting | Arrival::Reading => if crate::deadline::reached(
                max_deadline,
                now as int,
            ) {
                Some(ReadResult::MaxTimeReached)
            } else {
                None
            },
        }
    }
}

/// Decides whether the wait for one message is over, and how it ended.
pub fn read_one_message<D, T>(
    quit: bool,
    arrival: Arrival<D, T>,
    deadline: &Deadline,
    max_deadline: &Deadline,
    now: u64,
) -> (over: Option<ReadResult<D, T>>)
    ensures
        over == wait_over(quit, arrival, deadline@, max_deadline@, now),
{
    if quit {
        return Some(ReadResult::Interrupted);
    }
    match arrival {
        Arrival::Data(data) => Some(ReadResult::Data(data)),
        Arrival::OpenFailed(reason) => Some(ReadResult::Failed(ReadError::Open(reason))),
        Arrival::ReadFailed(reason) => Some(ReadResult::Failed(ReadError::Read(reason))),
        Arrival::Waiting if deadline.expired(now) => Some(ReadResult::TimedOut),
        Arrival::Waiting | Arrival::Reading => {
            if max_deadline.expired(now) {
                Some(ReadResult::MaxTimeReached)
            } else {
                None
            }
        },
    }
}

impl<D, T> Arrival<D, T> {
    /// Whether a writer is there and has not gone yet.
    pub fn is_reading(&self) -> (reading: bool)
        ensures
            reading == (*self is Reading),
    {
        match self {
            Arrival::Reading => true,
            _ => false,
        }
    }
}

impl View for ReadError<String> {
    type V = ReadError<Seq<char>>;

    open spec fn view(&self) -> ReadError<Seq<char>> {
        match self {
            ReadError::Open(reason) => ReadError::Open(reason@),
            ReadError::Read(reason) => ReadError::Read(reason@),
        }
    }
}

/// Why a message was not read, in words.
pub open spec fn read_error_text(error: ReadError<Seq<char>>, path: Seq<char>) -> Seq<char> {
    match error {
        ReadError::Open(reason) => "failed to open '"@ + path + "' for reading: "@ + reason,
        ReadError::Read(reason) => "failed to read from '"@ + path + "': "@ + reason,
    }
}

impl ReadError<String> {
    /// Why a message was not read, in words.
    pub fn message(&self, path: &str) -> (text: String)
        ensures
            text@ == read_error_text(self@, path@),
    {
        match self {
            ReadError::Open(reason) => {
                let mut text = join3("failed to open '", path, "' for reading: ");
                text.append(reason.as_str());
                text
            },
            ReadError::Read(reason) => {
                let mut text = join3("failed to read from '", path, "': ");
                text.append(reason.as_str());
                text
            },
        }
    }
}

impl<T> View for Arrival<Vec<u8>, T> {
    type V = Arrival<Seq<u8>, T>;

    open spec fn view(&self) -> Arrival<Seq<u8>, T> {
        match *self {
            Arrival::Waiting => Arrival::Waiting,
            Arrival::Reading => Arrival::Reading,
            Arrival::Data(data) => Arrival::Data(data@),
            Arrival::OpenFailed(reason) => Arrival::OpenFailed(reason),
            Arrival::ReadFailed(reason) => Arrival::ReadFailed(reason),
        }
    }
}

/// The complaint of one that waited for a writer in vain.
pub open spec fn no_writer_text(path: Seq<char>) -> Seq<char> {
    "timed out waiting for writer on '"@ + path + "'"@
}

/// The complaint of one that waited for a writer in vain.
pub fn no_writer(path: &str) -> (text: String)
    ensures
        text@ == no_writer_text(path@),
{
    join3("timed out waiting for writer on '", path, "'")
}

/// How the wait for one message ends. A signal ends it whatever else there is. Without one,
/// what was read, or why it was not, ends it, whatever the time. While no writer is there, the
/// first deadline ends it by a timeout, and else the hard one. A writer that is there is waited
/// for until the hard deadline.
pub proof fn a_wait_ends_for_one_reason<D, T>(
    arrival: Arrival<D, T>,
    deadline: Option<int>,
    max_deadline: Option<int>,
    now: u64,
)
    ensures
        wait_over(true, arrival, deadline, max_deadline, now) == Some(
            ReadResult::<D, T>::Interrupted,
        ),
        arrival matches Arrival::Data(data) ==> wait_over(
            false,
            arrival,
            deadline,
            max_deadline,
            now,
        ) == Some(ReadResult::<D, T>::Data(data)),
        arrival matches Arrival::OpenFailed(reason) ==> wait_over(
            false,
            arrival,
            deadline,
            max_deadline,
            now,
        ) == Some(ReadResult::<D, T>::Failed(ReadError::Open(reason))),
        arrival matches Arrival::ReadFailed(reason) ==> wait_over(
            false,
            arrival,
            deadline,
            max_deadline,
            now,
        ) == Some(ReadResult::<D, T>::Failed(ReadError::Read(reason))),
        wait_over(false, arrival, deadline, max_deadline, now) == Some(
            ReadResult::<D, T>::TimedOut,
        ) <==> arrival is Waiting && deadline is Some && now >= deadline.unwrap(),
        wait_over(false, arrival, deadline, max_deadline, now) == Some(
            ReadResult::<D, T>::MaxTimeReached,
        ) <==> (arrival is Reading || (arrival is Waiting && !(deadline is Some && now
            >= deadline.unwrap()))) && max_deadline is Some && now >= max_deadline.unwrap(),
        wait_over(false, arrival, deadline, max_deadline, now) is None <==> (arrival is Waiting
            && !(deadline is Some && now >= deadline.unwrap()) || arrival is Reading) && !(
        max_deadline is Some && now >= max_deadline.unwrap()),
{
}

/// A message that was not read is complained of with the path and with what the system said.
pub proof fn a_failed_read_is_complained_of(path: Seq<char>, reason: Seq<char>)
    ensures
        read_error_text(ReadError::Open(reason), path) == "failed to open '"@ + path
            + "' for reading: "@ + reason,
        read_error_text(ReadError::Read(reason), path) == "failed to read from '"@ + path + "': "@
            + reason,
        no_writer_text(path) == "timed out waiting for writer on '"@ + path + "'"@,
{
}

/// What has become of a read is taken as it stands: with all of its bytes, and with what the
/// system said.
pub proof fn arrivals_are_taken_as_they_are<T>(data: Vec<u8>, reason: T, text: String)
    ensures
        Arrival::<Vec<u8>, T>::Waiting@ is Waiting,
        Arrival::<Vec<u8>, T>::Reading@ is Reading,
        Arrival::<Vec<u8>, T>::Data(data)@ == Arrival::<Seq<u8>, T>::Data(data@),
        Arrival::<Vec<u8>, T>::OpenFailed(reason)@ == Arrival::<Seq<u8>, T>::OpenFailed(reason),
        Arrival::<Vec<u8>, T>::ReadFailed(reason)@ == Arrival::<Seq<u8>, T>::ReadFailed(reason),
        ReadError::Open(text)@ == ReadError::Open(text@),
        ReadError::Read(text)@ == ReadError::Read(text@),
{
}

} // verus!
