//! What the tools of the server are asked for.
use vstd::prelude::*;

verus! {

/// Write a message to a FIFO.
#[derive(Debug, Clone)]
pub struct WriteRequest {
    /// Path to the FIFO to write to.
    pub path: String,
    /// Message to send.
    pub message: String,
}

/// Create a FIFO, read one message, remove the FIFO.
#[derive(Debug, Clone)]
pub struct ReadOneshotRequest {
    /// Path for the FIFO to create.
    pub path: String,
    /// Seconds to wait before timing out; 0 blocks forever.
    pub timeout: u64,
}

/// Create a FIFO and start a background reader that accepts many writers.
#[derive(Debug, Clone)]
pub struct StartLingerRequest {
    /// Path for the FIFO to create.
    pub path: String,
    /// Accepted and not enforced: the reader waits until it is stopped.
    pub timeout: u64,
}

/// Stop a background reader and take what it has buffered.
#[derive(Debug, Clone)]
pub struct StopLingerRequest {
    /// Path of the FIFO to stop.
    pub path: String,
}

/// Read the next message of a background reader without stopping it.
#[derive(Debug, Clone)]
pub struct StillLingerRequest {
    /// Path of the FIFO to read from.
    pub path: String,
    /// Seconds to wait for a message; 0 blocks forever.
    pub timeout: u64,
}

/// Create an input FIFO and hand every message on to all outputs.
#[derive(Debug, Clone)]
pub struct BroadcastStartRequest {
    /// Path for the input FIFO to create.
    pub path: String,
    /// Paths to output FIFOs, which must already exist.
    pub outputs: Vec<String>,
    /// Seconds to wait for the first writer; 0 blocks forever.
    pub timeout: u64,
    /// Hard deadline in seconds; 0 sets no limit.
    pub max_time: u64,
}

/// Stop a broadcast.
#[derive(Debug, Clone)]
pub struct BroadcastStopRequest {
    /// Path of the input FIFO to stop.
    pub path: String,
}

/// Create an input FIFO and hand each message on to one output, in turn.
#[derive(Debug, Clone)]
pub struct RoundRobinStartRequest {
    /// Path for the input FIFO to create.
    pub path: String,
    /// Paths to output FIFOs, which must already exist.
    pub outputs: Vec<String>,
    /// Seconds to wait for the first writer; 0 blocks forever.
    pub timeout: u64,
    /// Hard deadline in seconds; 0 sets no limit.
    pub max_time: u64,
}

/// Stop a round robin.
#[derive(Debug, Clone)]
pub struct RoundRobinStopRequest {
    /// Path of the input FIFO to stop.
    pub path: String,
}

} // verus!
