//! Broadcasts and round-robins: relays as commands, and as handles of what runs in the
//! background.
use crate::cli::{Exit, EXIT_TIMED_OUT};
use crate::reader::no_writer;
use crate::relay::{Relay, RelayAction, RelayEnd, RelayEvent, RelayPhase, RelayState, Spread};
use vstd::prelude::*;

pub mod laws;
pub mod session;

verus! {

/// Who waits for a relay.
#[derive(Debug, Clone, Copy)]
pub enum Waiting {
    /// The caller, until the relay is over.
    Foreground,
    /// Nobody: it runs until it is stopped.
    Background,
}

/// The complaint of a relay that has nowhere to write to.
pub open spec fn no_outputs_text(spread: Spread) -> Seq<char> {
    match spread {
        Spread::All => "broadcast requires at least one output FIFO"@,
        Spread::Rotate => "roundrobin requires at least one output FIFO"@,
    }
}

fn no_outputs(spread: Spread) -> (text: String)
    ensures
        text@ == no_outputs_text(spread),
{
    match spread {
        Spread::All => "broadcast requires at least one output FIFO".to_string(),
        Spread::Rotate => "roundrobin requires at least one output FIFO".to_string(),
    }
}

/// What is said of a thread that could not be started, before the reason.
pub open spec fn spawn_headline(spread: Spread, waiting: Waiting) -> Seq<char> {
    match (spread, waiting) {
        (Spread::All, Waiting::Foreground) => "failed to spawn broadcast reader thread"@,
        (Spread::All, Waiting::Background) => "failed to spawn broadcast thread"@,
        (Spread::Rotate, Waiting::Foreground) => "failed to spawn round-robin reader thread"@,
        (Spread::Rotate, Waiting::Background) => "failed to spawn round-robin thread"@,
    }
}

fn spawn_complaint(spread: Spread, waiting: Waiting) -> (text: String)
    ensures
        text@ == spawn_headline(spread, waiting),
{
    match (spread, waiting) {
        (Spread::All, Waiting::Foreground) => "failed to spawn broadcast reader thread".to_string(),
        (Spread::All, Waiting::Background) => "failed to spawn broadcast thread".to_string(),
        (
            Spread::Rotate,
            Waiting::Foreground,
        ) => "failed to spawn round-robin reader thread".to_string(),
        (Spread::Rotate, Waiting::Background) => "failed to spawn round-robin thread".to_string(),
    }
}

/// A relay, or the complaint that it has no outputs.
pub open spec fn is_begun(
    begun: Result<Relay<String>, String>,
    spread: Spread,
    outputs: usize,
    timeout: Option<u64>,
    max_time: Option<u64>,
) -> bool {
    match begun {
        Ok(relay) => outputs > 0 && relay@ == crate::relay::new_relay::<String>(
            spread,
            outputs,
            timeout,
            max_time,
        ),
        Err(text) => outputs == 0 && text@ == no_outputs_text(spread),
    }
}

fn begin(spread: Spread, outputs: usize, timeout: Option<u64>, max_time: Option<u64>) -> (begun:
    Result<Relay<String>, String>)
    ensures
        is_begun(begun, spread, outputs, timeout, max_time),
{
    if outputs == 0 {
        Err(no_outputs(spread))
    } else {
        Ok(Relay::new(spread, outputs, timeout, max_time))
    }
}

/// The broadcast command: every output gets every message.
pub fn cmd_broadcast(outputs: usize, timeout: Option<u64>, max_time: Option<u64>) -> (begun: Result<
    Relay<String>,
    String,
>)
    ensures
        is_begun(begun, Spread::All, outputs, timeout, max_time),
        begun is Ok <==> outputs > 0,
        begun matches Ok(relay) ==> relay@.spread is All && relay@.outputs == outputs
            && relay@.timeout == timeout && relay@.max_time == max_time && relay@.phase is Creating
            && relay@.count == 0 && relay@.turn == 0,
{
    begin(Spread::All, outputs, timeout, max_time)
}

/// The round-robin command: the outputs get the messages in turn.
pub fn cmd_roundrobin(outputs: usize, timeout: Option<u64>, max_time: Option<u64>) -> (begun:
    Result<Relay<String>, String>)
    ensures
        is_begun(begun, Spread::Rotate, outputs, timeout, max_time),
        begun is Ok <==> outputs > 0,
        begun matches Ok(relay) ==> relay@.spread is Rotate && relay@.outputs == outputs
            && relay@.timeout == timeout && relay@.max_time == max_time && relay@.phase is Creating
            && relay@.count == 0 && relay@.turn == 0,
{
    begin(Spread::Rotate, outputs, timeout, max_time)
}

/// How a relay command leaves, by how it ended.
pub open spec fn relay_exit(
    spread: Spread,
    end: RelayEnd<Seq<char>>,
    path: Seq<char>,
) -> Exit<Seq<char>> {
    match end {
        RelayEnd::Clean => Exit::Success,
        RelayEnd::TimedOut => Exit::Complaint {
            code: EXIT_TIMED_OUT,
            text: "error: "@ + crate::reader::no_writer_text(path),
        },
        RelayEnd::Refused(error) => Exit::Error {
            headline: crate::create::refusal_headline(error, path),
            cause: error.reason(),
        },
        RelayEnd::SpawnFailed(reason) => Exit::Error {
            headline: spawn_headline(spread, Waiting::Foreground),
            cause: Some(reason),
        },
    }
}

impl RelayEnd<String> {
    /// How the command leaves.
    pub fn exit(self, spread: Spread, path: &str) -> (exit: Exit<String>)
        ensures
            exit@ == relay_exit(spread, self@, path@),
    {
        match self {
            RelayEnd::Clean => Exit::Success,
            RelayEnd::TimedOut => {
                let mut text = "error: ".to_string();
                text.append(no_writer(path).as_str());
                Exit::Complaint { code: EXIT_TIMED_OUT, text }
            },
            RelayEnd::Refused(error) => {
                let headline = error.headline(path);
                Exit::Error { headline, cause: error.into_reason() }
            },
            RelayEnd::SpawnFailed(reason) => Exit::Error {
                headline: spawn_complaint(spread, Waiting::Foreground),
                cause: Some(reason),
            },
        }
    }
}

/// A relay at a path, and who waits for it.
#[derive(Debug)]
pub struct BroadcastHandle {
    path: String,
    waiting: Waiting,
    relay: Relay<String>,
}

/// A handle between two events.
pub struct HandleState {
    /// Where the input FIFO is.
    pub path: Seq<char>,
    /// Who waits for the relay.
    pub waiting: Waiting,
    /// The relay.
    pub relay: RelayState<String>,
}

impl View for BroadcastHandle {
    type V = HandleState;

    closed spec fn view(&self) -> HandleState {
        HandleState { path: self.path@, waiting: self.waiting, relay: self.relay@ }
    }
}

/// A handle of a relay that has not begun, or the complaint that it has no outputs.
pub open spec fn is_started(
    started: Result<BroadcastHandle, String>,
    path: Seq<char>,
    spread: Spread,
    waiting: Waiting,
    outputs: usize,
    timeout: u64,
    max_time: u64,
) -> bool {
    match started {
        Ok(handle) => outputs > 0 && handle@ == (HandleState {
            path,
            waiting,
            relay: crate::relay::new_relay::<String>(
                spread,
                outputs,
                Some(timeout),
                Some(max_time),
            ),
        }),
        Err(text) => outputs == 0 && text@ == no_outputs_text(spread),
    }
}

fn start(
    path: &str,
    spread: Spread,
    waiting: Waiting,
    outputs: usize,
    timeout: u64,
    max_time: u64,
) -> (started: Result<BroadcastHandle, String>)
    ensures
        is_started(started, path@, spread, waiting, outputs, timeout, max_time),
{
    match begin(spread, outputs, Some(timeout), Some(max_time)) {
        Ok(relay) => Ok(BroadcastHandle { path: path.to_string(), waiting, relay }),
        Err(text) => Err(text),
    }
}

/// A broadcast whose caller waits until it is over.
pub fn broadcast_inner(path: &str, outputs: usize, timeout: u64, max_time: u64) -> (started: Result<
    BroadcastHandle,
    String,
>)
    ensures
        is_started(
            started,
            path@,
            Spread::All,
            Waiting::Foreground,
            outputs,
            timeout,
            max_time,
        ),
        started is Ok <==> outputs > 0,
        started matches Ok(handle) ==> handle@.path == path@ && handle@.waiting is Foreground
            && handle@.relay.spread is All && handle@.relay.outputs == outputs
            && handle@.relay.timeout == Some(timeout) && handle@.relay.max_time == Some(max_time)
            && handle@.relay.phase is Creating && handle@.relay.count == 0 && handle@.relay.turn
            == 0,
{
    start(path, Spread::All, Waiting::Foreground, outputs, timeout, max_time)
}

/// A broadcast in the background.
pub fn broadcast_start(path: &str, outputs: usize, timeout: u64, max_time: u64) -> (started: Result<
    BroadcastHandle,
    String,
>)
    ensures
        is_started(
            started,
            path@,
            Spread::All,
            Waiting::Background,
            outputs,
            timeout,
            max_time,
        ),
        started is Ok <==> outputs > 0,
        started matches Ok(handle) ==> handle@.path == path@ && handle@.waiting is Background
            && handle@.relay.spread is All && handle@.relay.outputs == outputs
            && handle@.relay.timeout == Some(timeout) && handle@.relay.max_time == Some(max_time)
            && handle@.relay.phase is Creating && handle@.relay.count == 0 && handle@.relay.turn
            == 0,
{
    start(path, Spread::All, Waiting::Background, outputs, timeout, max_time)
}

/// A round-robin in the background.
pub fn roundrobin_start(path: &str, outputs: usize, timeout: u64, max_time: u64) -> (started:
    Result<BroadcastHandle, String>)
    ensures
        is_started(
            started,
            path@,
            Spread::Rotate,
            Waiting::Background,
            outputs,
            timeout,
            max_time,
        ),
        started is Ok <==> outputs > 0,
        started matches Ok(handle) ==> handle@.path == path@ && handle@.waiting is Background
            && handle@.relay.spread is Rotate && handle@.relay.outputs == outputs
            && handle@.relay.timeout == Some(timeout) && handle@.relay.max_time == Some(max_time)
            && handle@.relay.phase is Creating && handle@.relay.count == 0 && handle@.relay.turn
            == 0,
{
    start(path, Spread::Rotate, Waiting::Background, outputs, timeout, max_time)
}

/// Why a relay came to nothing, if it did.
pub open spec fn relay_failure(
    spread: Spread,
    waiting: Waiting,
    end: RelayEnd<Seq<char>>,
    path: Seq<char>,
) -> Option<Seq<char>> {
    match end {
        RelayEnd::Clean => None,
        RelayEnd::TimedOut => Some(crate::reader::no_writer_text(path)),
        RelayEnd::Refused(error) => Some(crate::create::refusal_text(error, path)),
        RelayEnd::SpawnFailed(reason) => Some(spawn_headline(spread, waiting) + ": "@ + reason),
    }
}

impl HandleState {
    /// What stopping the relay gives: how many messages were handed on, or why it came to
    /// nothing.
    pub open spec fn outcome(self) -> Result<usize, Seq<char>> {
        match self.relay.phase {
            RelayPhase::Ended(end) => match relay_failure(
                self.relay.spread,
                self.waiting,
                end@,
                self.path,
            ) {
                Some(text) => Err(text),
                None => Ok(self.relay.count),
            },
            _ => Ok(self.relay.count),
        }
    }
}

/// Stopping a relay that ended cleanly gives the number of messages that it took; one that
/// timed out took none, and says so.
pub proof fn stopping_gives_the_number_of_messages(
    handle: HandleState,
    outputs: usize,
    timeout: u64,
    max_time: u64,
    events: Seq<RelayEvent<Seq<u8>, String>>,
)
    requires
        handle.relay == crate::relay::runs::run(
            crate::relay::new_relay::<String>(
                handle.relay.spread,
                outputs,
                Some(timeout),
                Some(max_time),
            ),
            events,
        ),
    ensures
        ({
            let start = crate::relay::new_relay::<String>(
                handle.relay.spread,
                outputs,
                Some(timeout),
                Some(max_time),
            );
            let taken = crate::relay::runs::taken(start, events).len();
            &&& handle.relay.phase == RelayPhase::<String>::Ended(RelayEnd::Clean) && taken
                <= usize::MAX ==> handle.outcome() == Ok::<usize, Seq<char>>(taken as usize)
            &&& handle.relay.phase == RelayPhase::<String>::Ended(RelayEnd::TimedOut) ==> taken
                == 0 && handle.outcome() == Err::<usize, Seq<char>>(
                crate::reader::no_writer_text(handle.path),
            )
        }),
{
    crate::relay::runs::every_message_is_counted(
        handle.relay.spread,
        outputs,
        Some(timeout),
        Some(max_time),
        events,
    );
    crate::relay::runs::a_writer_ends_the_timeout(
        handle.relay.spread,
        outputs,
        Some(timeout),
        Some(max_time),
        events,
    );
}

impl BroadcastHandle {
    /// What a relay that has not begun asks for.
    pub fn first_action(&self) -> (action: RelayAction<Vec<u8>>)
        ensures
            action@ == self@.relay.first_action(),
            self@.relay.phase is Creating ==> action@ is Mkfifo,
    {
        self.relay.first_action()
    }

    /// Tells the relay what happened; the answer is what to do next.
    pub fn step(&mut self, event: RelayEvent<Vec<u8>, String>) -> (action: RelayAction<Vec<u8>>)
        ensures
            (final(self)@.relay, action@) == old(self)@.relay.step(event@),
            final(self)@ == (HandleState { relay: final(self)@.relay, ..old(self)@ }),
    {
        self.relay.step(event)
    }

    /// What came of the relay: how many messages were handed on, or why it came to nothing.
    pub fn stop(self) -> (outcome: Result<usize, String>)
        ensures
            match (outcome, self@.outcome()) {
                (Ok(count), Ok(expected)) => count == expected,
                (Err(text), Err(expected)) => text@ == expected,
                _ => false,
            },
    {
        let BroadcastHandle { path, waiting, relay } = self;
        let spread = relay.spread();
        let count = relay.count();
        match relay.into_end() {
            None => Ok(count),
            Some(RelayEnd::Clean) => Ok(count),
            Some(RelayEnd::TimedOut) => Err(no_writer(path.as_str())),
            Some(RelayEnd::Refused(error)) => Err(error.message(path.as_str())),
            Some(RelayEnd::SpawnFailed(reason)) => {
                let mut text = spawn_complaint(spread, waiting);
                text.append(": ");
                text.append(reason.as_str());
                Err(text)
            },
        }
    }
}

} // verus!
