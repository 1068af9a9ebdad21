//! Messages between processes over FIFO special files.
//!
//! A reader owns a FIFO: it creates it, takes messages from whoever writes to it, and
//! removes it when it is done. A writer waits for the FIFO to be there and delivers one
//! message. A relay is a reader that hands every message on, to all of its outputs
//! (broadcast) or to each of them in turn (round robin).
//!
//! This library holds the decisions. Each way of using a FIFO is a state machine that is
//! told what happened and answers with what to do next; opening, reading, writing and
//! waiting are the caller's part.

pub mod cli;
pub mod close;
pub mod create;
pub mod deadline;
pub mod delivery;
pub mod fanout;
pub mod feed;
pub mod frame;
pub mod input;
pub mod linger;
pub mod oneshot;
pub mod paths;
pub mod reader;
pub mod registry;
pub mod relay;
pub mod request;
pub mod server;
pub mod text;
pub mod writer;
