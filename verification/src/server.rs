//! The server: what runs in the background for whom, and what its tools answer.
//!
//! A tool that starts something asks first whether the path is free, and is told afterwards
//! what became of the start. A tool that stops something takes it out, and is told afterwards
//! what it left behind.
use crate::paths::PathKeyView;
use crate::registry::Registry;
use crate::request::{
    BroadcastStartRequest, BroadcastStopRequest, RoundRobinStartRequest, RoundRobinStopRequest,
    StartLingerRequest, StillLingerRequest, StopLingerRequest,
};
use crate::text::{decimal, join3, join_all};
use vstd::prelude::*;

pub mod laws;

verus! {

/// What can run in the background.
#[derive(Debug, Clone, Copy)]
pub enum Kind {
    /// A lingering reader.
    Linger,
    /// A broadcast.
    Broadcast,
    /// A round-robin.
    RoundRobin,
}

/// The answer where one runs already.
pub open spec fn active_text(kind: Kind, path: Seq<char>) -> Seq<char> {
    match kind {
        Kind::Linger => "linger reader already active for '"@ + path + "'"@,
        Kind::Broadcast => "broadcast already active for '"@ + path + "'"@,
        Kind::RoundRobin => "round-robin already active for '"@ + path + "'"@,
    }
}

/// The answer where one was started.
pub open spec fn started_text(kind: Kind, path: Seq<char>) -> Seq<char> {
    match kind {
        Kind::Linger => "linger reader started at '"@ + path + "'"@,
        Kind::Broadcast => "broadcast started at '"@ + path + "'"@,
        Kind::RoundRobin => "round-robin started at '"@ + path + "'"@,
    }
}

/// The answer where none runs.
pub open spec fn missing_text(kind: Kind, path: Seq<char>) -> Seq<char> {
    match kind {
        Kind::Linger => "no linger reader found for '"@ + path + "'"@,
        Kind::Broadcast => "no broadcast found for '"@ + path + "'"@,
        Kind::RoundRobin => "no round-robin found for '"@ + path + "'"@,
    }
}

fn active(kind: Kind, path: &str) -> (text: String)
    ensures
        text@ == active_text(kind, path@),
{
    match kind {
        Kind::Linger => join3("linger reader already active for '", path, "'"),
        Kind::Broadcast => join3("broadcast already active for '", path, "'"),
        Kind::RoundRobin => join3("round-robin already active for '", path, "'"),
    }
}

fn started_at(kind: Kind, path: &str) -> (text: String)
    ensures
        text@ == started_text(kind, path@),
{
    match kind {
        Kind::Linger => join3("linger reader started at '", path, "'"),
        Kind::Broadcast => join3("broadcast started at '", path, "'"),
        Kind::RoundRobin => join3("round-robin started at '", path, "'"),
    }
}

fn missing(kind: Kind, path: &str) -> (text: String)
    ensures
        text@ == missing_text(kind, path@),
{
    match kind {
        Kind::Linger => join3("no linger reader found for '", path, "'"),
        Kind::Broadcast => join3("no broadcast found for '", path, "'"),
        Kind::RoundRobin => join3("no round-robin found for '", path, "'"),
    }
}

/// Whether something runs at a path.
pub open spec fn runs_at<H>(running: Map<PathKeyView, H>, path: Seq<char>) -> bool {
    running.dom().contains(crate::paths::key_of(path))
}

/// What runs after a start, and the answer to it.
pub open spec fn after_start<H>(
    running: Map<PathKeyView, H>,
    kind: Kind,
    path: Seq<char>,
    started: Result<H, Seq<char>>,
) -> (Map<PathKeyView, H>, Result<Seq<char>, Seq<char>>) {
    if runs_at(running, path) {
        (running, Err(active_text(kind, path)))
    } else {
        match started {
            Ok(handle) => (
                running.insert(crate::paths::key_of(path), handle),
                Ok(started_text(kind, path)),
            ),
            Err(text) => (running, Err(text)),
        }
    }
}

/// What runs after one was taken out, and the one taken out, or the answer where none runs.
pub open spec fn after_take<H>(running: Map<PathKeyView, H>, kind: Kind, path: Seq<char>) -> (
    Map<PathKeyView, H>,
    Result<H, Seq<char>>,
) {
    if runs_at(running, path) {
        (
            running.remove(crate::paths::key_of(path)),
            Ok(running[crate::paths::key_of(path)]),
        )
    } else {
        (running, Err(missing_text(kind, path)))
    }
}

/// A result by its text, where it is an error.
pub open spec fn error_view<H>(result: Result<H, String>) -> Result<H, Seq<char>> {
    match result {
        Ok(value) => Ok(value),
        Err(text) => Err(text@),
    }
}

/// The answer to a count.
pub open spec fn counted(before: Seq<char>, count: usize, after: Seq<char>) -> Seq<char> {
    before + crate::text::decimal_digits(count as nat) + after
}

fn vacancy<H>(running: &Registry<H>, kind: Kind, path: &str) -> (free: Result<(), String>)
    ensures
        match free {
            Ok(_) => !runs_at(running@, path@),
            Err(text) => runs_at(running@, path@) && text@ == active_text(kind, path@),
        },
{
    if running.contains(path) {
        Err(active(kind, path))
    } else {
        Ok(())
    }
}

fn enter<H>(
    running: &mut Registry<H>,
    kind: Kind,
    path: &str,
    started: Result<H, String>,
) -> (reply: Result<String, String>)
    ensures
        final(running)@ == after_start(old(running)@, kind, path@, error_view(started)).0,
        crate::text::says(
            reply,
            after_start(old(running)@, kind, path@, error_view(started)).1,
        ),
{
    if running.contains(path) {
        return Err(active(kind, path));
    }
    match started {
        Ok(handle) => {
            let _ = running.insert(path, handle);
            Ok(started_at(kind, path))
        },
        Err(text) => Err(text),
    }
}

fn take<H>(running: &mut Registry<H>, kind: Kind, path: &str) -> (taken: Result<H, String>)
    ensures
        (final(running)@, error_view(taken)) == after_take(old(running)@, kind, path@),
{
    match running.remove(path) {
        Some(handle) => Ok(handle),
        None => {
            assert(running@ =~= old(running)@);
            Err(missing(kind, path))
        },
    }
}

/// What runs in the background.
#[derive(Debug)]
pub struct SynctellServer<R, B> {
    readers: Registry<R>,
    broadcasters: Registry<B>,
    roundrobins: Registry<B>,
}

/// What runs in the background, by path.
pub struct ServerState<R, B> {
    /// The lingering readers.
    pub readers: Map<PathKeyView, R>,
    /// The broadcasts.
    pub broadcasters: Map<PathKeyView, B>,
    /// The round-robins.
    pub roundrobins: Map<PathKeyView, B>,
}

/// Nothing runs.
pub open spec fn idle<R, B>() -> ServerState<R, B> {
    ServerState { readers: Map::empty(), broadcasters: Map::empty(), roundrobins: Map::empty() }
}

impl<R, B> View for SynctellServer<R, B> {
    type V = ServerState<R, B>;

    closed spec fn view(&self) -> ServerState<R, B> {
        ServerState {
            readers: self.readers@,
            broadcasters: self.broadcasters@,
            roundrobins: self.roundrobins@,
        }
    }
}

impl<R, B> Default for SynctellServer<R, B> {
    fn default() -> (server: SynctellServer<R, B>)
        ensures
            server@ == idle::<R, B>(),
    {
        SynctellServer::new()
    }
}

impl<R, B> SynctellServer<R, B> {
    /// A server for which nothing runs.
    pub fn new() -> (server: SynctellServer<R, B>)
        ensures
            server@ == idle::<R, B>(),
    {
        SynctellServer {
            readers: Registry::new(),
            broadcasters: Registry::new(),
            roundrobins: Registry::new(),
        }
    }

    /// The answer to a write, by what became of it.
    pub fn synctell_write(&self, written: Result<usize, String>) -> (reply: Result<String, String>)
        ensures
            crate::text::says(
                reply,
                match written {
                    Ok(n) => Ok(counted("wrote "@, n, " bytes"@)),
                    Err(text) => Err(text@),
                },
            ),
    {
        match written {
            Ok(n) => Ok(join3("wrote ", decimal(n).as_str(), " bytes")),
            Err(text) => Err(text),
        }
    }

    /// Whether a lingering reader can be started, or the answer why not.
    pub fn linger_vacancy(&self, request: &StartLingerRequest) -> (free: Result<(), String>)
        ensures
            match free {
                Ok(_) => !runs_at(self@.readers, request.path@),
                Err(text) => runs_at(self@.readers, request.path@) && text@ == active_text(
                    Kind::Linger,
                    request.path@,
                ),
            },
    {
        vacancy(&self.readers, Kind::Linger, request.path.as_str())
    }

    /// Enters a lingering reader that was started, or answers why there is none.
    pub fn synctell_read_start_linger(
        &mut self,
        request: &StartLingerRequest,
        started: Result<R, String>,
    ) -> (reply: Result<String, String>)
        ensures
            ({
                let (readers, answer) = after_start(
                    old(self)@.readers,
                    Kind::Linger,
                    request.path@,
                    error_view(started),
                );
                &&& final(self)@ == (ServerState { readers, ..old(self)@ })
                &&& crate::text::says(reply, answer)
            }),
    {
        enter(&mut self.readers, Kind::Linger, request.path.as_str(), started)
    }

    /// Takes a lingering reader out, for it to be stopped, or answers that there is none.
    pub fn synctell_read_stop_linger(&mut self, request: &StopLingerRequest) -> (taken: Result<
        R,
        String,
    >)
        ensures
            ({
                let (readers, answer) = after_take(
                    old(self)@.readers,
                    Kind::Linger,
                    request.path@,
                );
                &&& final(self)@ == (ServerState { readers, ..old(self)@ })
                &&& error_view(taken) == answer
            }),
    {
        take(&mut self.readers, Kind::Linger, request.path.as_str())
    }

    /// The answer of a lingering reader that was stopped: all its messages, one after the
    /// other.
    pub fn linger_stopped(&self, messages: Result<Vec<String>, String>) -> (reply: Result<
        String,
        String,
    >)
        ensures
            crate::text::says(
                reply,
                match messages {
                    Ok(list) => Ok(crate::text::all_of(crate::text::views(list@))),
                    Err(text) => Err(text@),
                },
            ),
    {
        match messages {
            Ok(list) => Ok(join_all(&list)),
            Err(text) => Err(text),
        }
    }

    /// The lingering reader to take a message from, or the answer that there is none.
    pub fn synctell_read_still_linger(&self, request: &StillLingerRequest) -> (found: Result<
        &R,
        String,
    >)
        ensures
            match found {
                Ok(reader) => runs_at(self@.readers, request.path@) && *reader
                    == self@.readers[crate::paths::key_of(request.path@)],
                Err(text) => !runs_at(self@.readers, request.path@) && text@ == missing_text(
                    Kind::Linger,
                    request.path@,
                ),
            },
    {
        match self.readers.get(request.path.as_str()) {
            Some(reader) => Ok(reader),
            None => Err(missing(Kind::Linger, request.path.as_str())),
        }
    }

    /// Whether a broadcast can be started, or the answer why not.
    pub fn broadcast_vacancy(&self, request: &BroadcastStartRequest) -> (free: Result<(), String>)
        ensures
            match free {
                Ok(_) => !runs_at(self@.broadcasters, request.path@),
                Err(text) => runs_at(self@.broadcasters, request.path@) && text@ == active_text(
                    Kind::Broadcast,
                    request.path@,
                ),
            },
    {
        vacancy(&self.broadcasters, Kind::Broadcast, request.path.as_str())
    }

    /// Enters a broadcast that was started, or answers why there is none.
    pub fn synctell_broadcast_start(
        &mut self,
        request: &BroadcastStartRequest,
        started: Result<B, String>,
    ) -> (reply: Result<String, String>)
        ensures
            ({
                let (broadcasters, answer) = after_start(
                    old(self)@.broadcasters,
                    Kind::Broadcast,
                    request.path@,
                    error_view(started),
                );
                &&& final(self)@ == (ServerState { broadcasters, ..old(self)@ })
                &&& crate::text::says(reply, answer)
            }),
    {
        enter(&mut self.broadcasters, Kind::Broadcast, request.path.as_str(), started)
    }

    /// Takes a broadcast out, for it to be stopped, or answers that there is none.
    pub fn synctell_broadcast_stop(&mut self, request: &BroadcastStopRequest) -> (taken: Result<
        B,
        String,
    >)
        ensures
            ({
                let (broadcasters, answer) = after_take(
                    old(self)@.broadcasters,
                    Kind::Broadcast,
                    request.path@,
                );
                &&& final(self)@ == (ServerState { broadcasters, ..old(self)@ })
                &&& error_view(taken) == answer
            }),
    {
        take(&mut self.broadcasters, Kind::Broadcast, request.path.as_str())
    }

    /// The answer of a broadcast that was stopped: how many messages it handed on.
    pub fn broadcast_stopped(&self, outcome: Result<usize, String>) -> (reply: Result<
        String,
        String,
    >)
        ensures
            crate::text::says(
                reply,
                match outcome {
                    Ok(count) => Ok(counted("broadcast "@, count, " message(s)"@)),
                    Err(text) => Err(text@),
                },
            ),
    {
        match outcome {
            Ok(count) => Ok(join3("broadcast ", decimal(count).as_str(), " message(s)")),
            Err(text) => Err(text),
        }
    }

    /// Whether a round-robin can be started, or the answer why not.
    pub fn roundrobin_vacancy(&self, request: &RoundRobinStartRequest) -> (free: Result<(), String>)
        ensures
            match free {
                Ok(_) => !runs_at(self@.roundrobins, request.path@),
                Err(text) => runs_at(self@.roundrobins, request.path@) && text@ == active_text(
                    Kind::RoundRobin,
                    request.path@,
                ),
            },
    {
        vacancy(&self.roundrobins, Kind::RoundRobin, request.path.as_str())
    }

    /// Enters a round-robin that was started, or answers why there is none.
    pub fn synctell_roundrobin_start(
        &mut self,
        request: &RoundRobinStartRequest,
        started: Result<B, String>,
    ) -> (reply: Result<String, String>)
        ensures
            ({
                let (roundrobins, answer) = after_start(
                    old(self)@.roundrobins,
                    Kind::RoundRobin,
                    request.path@,
                    error_view(started),
                );
                &&& final(self)@ == (ServerState { roundrobins, ..old(self)@ })
                &&& crate::text::says(reply, answer)
            }),
    {
        enter(&mut self.roundrobins, Kind::RoundRobin, request.path.as_str(), started)
    }

    /// Takes a round-robin out, for it to be stopped, or answers that there is none.
    pub fn synctell_roundrobin_stop(&mut self, request: &RoundRobinStopRequest) -> (taken: Result<
        B,
        String,
    >)
        ensures
            ({
                let (roundrobins, answer) = after_take(
                    old(self)@.roundrobins,
                    Kind::RoundRobin,
                    request.path@,
                );
                &&& final(self)@ == (ServerState { roundrobins, ..old(self)@ })
                &&& error_view(taken) == answer
            }),
    {
        take(&mut self.roundrobins, Kind::RoundRobin, request.path.as_str())
    }

    /// The answer of a round-robin that was stopped: how many messages it handed on.
    pub fn roundrobin_stopped(&self, outcome: Result<usize, String>) -> (reply: Result<
        String,
        String,
    >)
        ensures
            crate::text::says(
                reply,
                match outcome {
                    Ok(count) => Ok(counted("distributed "@, count, " message(s)"@)),
                    Err(text) => Err(text@),
                },
            ),
    {
        match outcome {
            Ok(count) => Ok(join3("distributed ", decimal(count).as_str(), " message(s)")),
            Err(text) => Err(text),
        }
    }
}

} // verus!
