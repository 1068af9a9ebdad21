//! The thread that reads a FIFO, one writer after the other.
//!
//! It opens the FIFO, which blocks until a writer comes, reads until the writer has gone,
//! passes on what it read, and begins again. It ends when it is told to, and when the FIFO
//! can no longer be opened or read.
use vstd::prelude::*;

pub mod runs;

verus! {

/// What the thread has just learnt.
#[derive(Debug)]
pub enum FeedEvent<D> {
    /// Whether it is asked to stop, before the next writer.
    Turn {
        /// It is.
        stop: bool,
    },
    /// The FIFO is open: a writer has come.
    Opened,
    /// The FIFO could not be opened: it was removed.
    OpenFailed,
    /// The FIFO could not be read.
    ReadFailed,
    /// A writer has gone, and this is what it wrote.
    Read(D),
    /// What it passed on was taken.
    Sent,
    /// Nobody takes what it passes on any more.
    Unwanted,
}

/// What the thread does next.
#[derive(Debug)]
pub enum FeedAction<D> {
    /// Open the FIFO, which blocks until a writer comes.
    Open,
    /// Read until the writer has gone.
    Read,
    /// See whether it is asked to stop.
    Turn,
    /// Pass the data on.
    Send(D),
    /// End.
    Exit,
}

/// What the thread does next, by what it has just learnt. A writer that wrote nothing is
/// passed over.
pub open spec fn feed_step(event: FeedEvent<Seq<u8>>) -> FeedAction<Seq<u8>> {
    match event {
        FeedEvent::Turn { stop } => if stop {
            FeedAction::Exit
        } else {
            FeedAction::Open
        },
        FeedEvent::Opened => FeedAction::Read,
        FeedEvent::Read(data) => if data.len() == 0 {
            FeedAction::Turn
        } else {
            FeedAction::Send(data)
        },
        FeedEvent::Sent => FeedAction::Turn,
        FeedEvent::OpenFailed | FeedEvent::ReadFailed | FeedEvent::Unwanted => FeedAction::Exit,
    }
}

impl<D> FeedAction<D> {
    /// Whether the thread has a writer at hand, or a message on its way.
    pub open spec fn busy(self) -> bool {
        self is Read || self is Send
    }

    /// Whether the thread has a writer at hand, or a message on its way.
    pub fn is_busy(&self) -> (busy: bool)
        ensures
            busy == self.busy(),
    {
        match self {
            FeedAction::Read | FeedAction::Send(_) => true,
            _ => false,
        }
    }
}

impl View for FeedEvent<Vec<u8>> {
    type V = FeedEvent<Seq<u8>>;

    open spec fn view(&self) -> FeedEvent<Seq<u8>> {
        match *self {
            FeedEvent::Turn { stop } => FeedEvent::Turn { stop },
            FeedEvent::Opened => FeedEvent::Opened,
            FeedEvent::OpenFailed => FeedEvent::OpenFailed,
            FeedEvent::ReadFailed => FeedEvent::ReadFailed,
            FeedEvent::Read(data) => FeedEvent::Read(data@),
            FeedEvent::Sent => FeedEvent::Sent,
            FeedEvent::Unwanted => FeedEvent::Unwanted,
        }
    }
}

impl View for FeedAction<Vec<u8>> {
    type V = FeedAction<Seq<u8>>;

    open spec fn view(&self) -> FeedAction<Seq<u8>> {
        match *self {
            FeedAction::Open => FeedAction::Open,
            FeedAction::Read => FeedAction::Read,
            FeedAction::Turn => FeedAction::Turn,
            FeedAction::Send(data) => FeedAction::Send(data@),
            FeedAction::Exit => FeedAction::Exit,
        }
    }
}

/// Decides what the thread does next.
pub fn feed(event: FeedEvent<Vec<u8>>) -> (action: FeedAction<Vec<u8>>)
    ensures
        action@ == feed_step(event@),
{
    match event {
        FeedEvent::Turn { stop } => {
            if stop {
                FeedAction::Exit
            } else {
                FeedAction::Open
            }
        },
        FeedEvent::Opened => FeedAction::Read,
        FeedEvent::Read(data) => {
            if data.len() == 0 {
                FeedAction::Turn
            } else {
                FeedAction::Send(data)
            }
        },
        FeedEvent::Sent => FeedAction::Turn,
        FeedEvent::OpenFailed | FeedEvent::ReadFailed | FeedEvent::Unwanted => FeedAction::Exit,
    }
}

} // verus!
