//! The server and its tools, on a file system that is only made up.
use synctell::fanout::{broadcast_start, roundrobin_start, BroadcastHandle};
use synctell::close::{first_step, next_step, CloseStep, Remover};
use synctell::create::{create_fifo, refuse_taken, CreateError, CreateStep, Mkfifo, Stat};
use synctell::linger::{start_linger, LingerAction, LingerEvent, LingerReader, Started};
use synctell::oneshot::{read_oneshot, OneshotAction, OneshotEvent};
use synctell::reader::Arrival;
use synctell::registry::Registry;
use synctell::relay::{RelayAction, RelayEvent};
use synctell::request::{
    BroadcastStartRequest, BroadcastStopRequest, ReadOneshotRequest, RoundRobinStartRequest,
    RoundRobinStopRequest, StartLingerRequest, StillLingerRequest, StopLingerRequest, WriteRequest,
};
use synctell::server::SynctellServer;
use synctell::writer::{write_fifo_blocking, write_to_fifo, WriteAction, WriteEvent, Writer};

const SECOND: u64 = 1_000_000_000;

/// A file system with FIFOs and ordinary files, and a clock.
struct World {
    fifos: Vec<String>,
    files: Vec<String>,
    now: u64,
}

impl World {
    fn new() -> World {
        World {
            fifos: Vec::new(),
            files: Vec::new(),
            now: 0,
        }
    }

    fn has_fifo(&self, path: &str) -> bool {
        self.fifos.iter().any(|p| p == path)
    }

    fn is_there(&self, path: &str) -> bool {
        self.has_fifo(path) || self.files.iter().any(|p| p == path)
    }

    fn mkfifo(&mut self, path: &str) -> Mkfifo<String> {
        if self.is_there(path) {
            Mkfifo::AlreadyExists
        } else {
            self.fifos.push(path.to_string());
            Mkfifo::Created
        }
    }

    fn stat(&self, path: &str) -> Stat<String> {
        if self.has_fifo(path) {
            Stat::Fifo
        } else if self.is_there(path) {
            Stat::NotFifo
        } else {
            Stat::Failed("No such file or directory (os error 2)".to_string())
        }
    }

    fn remove(&mut self, path: &str) {
        self.fifos.retain(|p| p != path);
    }

    fn pass(&mut self, seconds: u64) {
        self.now += seconds * SECOND;
    }
}

/// Writes as the write tool does: what it reports, and what reached the FIFO.
fn write(world: &World, path: &str, message: &str) -> (Result<usize, String>, Option<Vec<u8>>) {
    let mut writer: Writer<String> = write_to_fifo(message);
    let mut sent = None;
    let mut action: WriteAction<Vec<u8>> = writer.first_action();
    loop {
        action = match action {
            WriteAction::Probe => writer.step(WriteEvent::Probed(world.is_there(path))),
            WriteAction::Sleep => writer.step(WriteEvent::Slept),
            WriteAction::Open => writer.step(WriteEvent::Opened),
            WriteAction::Write(data) => {
                sent = Some(data);
                writer.step(WriteEvent::Written)
            }
            WriteAction::Exit => break,
            WriteAction::ReadStdin => panic!("standard input is not to be read"),
            WriteAction::Nothing => panic!("the writer was told something unexpected"),
        };
    }
    (writer.into_end().unwrap().result(path), sent)
}

/// Creates a FIFO as the tools do.
fn create(world: &mut World, path: &str) -> Result<(), CreateError<String>> {
    match create_fifo(world.mkfifo(path)) {
        CreateStep::Ready => Ok(()),
        CreateStep::Stat => Err(refuse_taken(world.stat(path))),
        CreateStep::Refused(error) => Err(error),
    }
}

/// Starts a lingering reader and lets its thread open the FIFO.
fn linger(world: &mut World, path: &str) -> Result<LingerReader, String> {
    let started = match create(world, path) {
        Ok(()) => Started::Running,
        Err(error) => Started::Refused(error),
    };
    let mut reader = start_linger(path, 0, started)?;
    assert!(matches!(reader.step(LingerEvent::Turn), LingerAction::Open));
    Ok(reader)
}

/// A writer comes and goes.
fn receive(reader: &mut LingerReader, data: &[u8]) {
    assert!(matches!(reader.step(LingerEvent::Opened), LingerAction::Read));
    assert!(reader.is_reading());
    assert!(matches!(
        reader.step(LingerEvent::Read(data.to_vec())),
        LingerAction::Turn
    ));
    assert!(matches!(reader.step(LingerEvent::Turn), LingerAction::Open));
}

/// Stops a lingering reader: its thread is let out, the FIFO removed, the thread joined.
fn stop(world: &mut World, path: &str, mut reader: LingerReader) -> Result<Vec<String>, String> {
    let mut step = first_step();
    loop {
        match step {
            CloseStep::RaiseStop => reader.raise_stop(),
            CloseStep::Unblock => {
                assert!(world.has_fifo(path));
                assert!(matches!(reader.step(LingerEvent::Opened), LingerAction::Read));
                assert!(matches!(
                    reader.step(LingerEvent::Read(Vec::new())),
                    LingerAction::Turn
                ));
            }
            CloseStep::Remove => world.remove(path),
            CloseStep::Join => {
                assert!(!world.is_there(path));
                assert!(matches!(reader.step(LingerEvent::Turn), LingerAction::Exit));
            }
            CloseStep::Done => break,
        }
        step = next_step(step, Remover::Closer, true);
    }
    reader.stop()
}

/// What comes in while a relay waits.
enum Incoming {
    Message(&'static str),
    /// A writer comes and stays without a word.
    Writer,
    /// Someone creates a FIFO.
    Appears(&'static str),
    HangUp,
    Signal,
    Silence,
}

/// What a relay has written to its outputs, and the warnings on the way.
struct Delivered {
    to: Vec<Vec<Vec<u8>>>,
    warnings: Vec<String>,
}

/// Runs a relay to its end, or until nothing comes in any more where `patient` is false.
/// A step of silence lasts a second. Returns whether it ended.
fn run_relay<F>(
    world: &mut World,
    path: &str,
    outputs: &[&str],
    incoming: Vec<Incoming>,
    patient: bool,
    mut step: F,
) -> (bool, Delivered)
where
    F: FnMut(RelayEvent<Vec<u8>, String>) -> RelayAction<Vec<u8>>,
{
    let mut delivered = Delivered {
        to: outputs.iter().map(|_| Vec::new()).collect(),
        warnings: Vec::new(),
    };
    let mut incoming = incoming.into_iter();
    let mut stopped = false;
    let mut connected = false;
    let mut action: RelayAction<Vec<u8>> = RelayAction::Mkfifo;
    loop {
        let event = match action {
            RelayAction::Mkfifo => RelayEvent::Mkfifo(world.mkfifo(path)),
            RelayAction::Stat => RelayEvent::Stat(world.stat(path)),
            RelayAction::StartReader => RelayEvent::Started(world.now),
            RelayAction::ReadClock => RelayEvent::Clock(world.now),
            RelayAction::Receive => match incoming.next() {
                Some(Incoming::Message(text)) => {
                    connected = true;
                    RelayEvent::Message(text.as_bytes().to_vec())
                }
                Some(Incoming::Writer) => {
                    connected = true;
                    world.pass(1);
                    RelayEvent::Quiet {
                        quit: false,
                        connected,
                        now: world.now,
                    }
                }
                Some(Incoming::Appears(output)) => {
                    world.mkfifo(output);
                    world.pass(1);
                    RelayEvent::Quiet {
                        quit: false,
                        connected,
                        now: world.now,
                    }
                }
                Some(Incoming::HangUp) => RelayEvent::HangUp,
                Some(Incoming::Signal) => RelayEvent::Quiet {
                    quit: true,
                    connected,
                    now: world.now,
                },
                Some(Incoming::Silence) => {
                    world.pass(1);
                    RelayEvent::Quiet {
                        quit: false,
                        connected,
                        now: world.now,
                    }
                }
                None => {
                    if !patient {
                        return (false, delivered);
                    }
                    world.pass(1);
                    RelayEvent::Quiet {
                        quit: false,
                        connected,
                        now: world.now,
                    }
                }
            },
            RelayAction::Deliver { data, first, end } => {
                for i in first..end {
                    match write_fifo_blocking(outputs[i], world.is_there(outputs[i]), &data) {
                        Ok(n) => {
                            assert_eq!(n, data.len());
                            delivered.to[i].push(data.clone());
                        }
                        Err(warning) => delivered.warnings.push(warning),
                    }
                }
                RelayEvent::Clock(world.now)
            }
            RelayAction::RaiseStop => {
                stopped = true;
                RelayEvent::Done
            }
            RelayAction::Unblock => {
                assert!(stopped);
                RelayEvent::Done
            }
            RelayAction::Remove => {
                world.remove(path);
                RelayEvent::Done
            }
            RelayAction::Exit => return (true, delivered),
            RelayAction::Nothing => panic!("the relay was told something unexpected"),
        };
        action = step(event);
    }
}

/// Reads one message as the tool does; it is written after so many seconds, if at all.
fn one_message(
    world: &mut World,
    path: &str,
    timeout: u64,
    message: Option<(u64, &str)>,
) -> Result<String, String> {
    let mut reading = read_oneshot::<Vec<u8>, String>(timeout);
    let mut message = message;
    let mut action = reading.first_action();
    loop {
        action = match action {
            OneshotAction::Mkfifo => {
                let outcome = world.mkfifo(path);
                reading.step(OneshotEvent::Mkfifo {
                    outcome,
                    now: world.now,
                })
            }
            OneshotAction::Stat => reading.step(OneshotEvent::Stat(world.stat(path))),
            OneshotAction::Listen | OneshotAction::Wait => {
                assert!(world.has_fifo(path));
                world.pass(1);
                let arrival = match message.take() {
                    Some((0, text)) => {
                        let (written, data) = write(world, path, text);
                        assert!(written.is_ok(), "write should succeed: {:?}", written);
                        Arrival::Data(data.unwrap())
                    }
                    Some((seconds, text)) => {
                        message = Some((seconds - 1, text));
                        Arrival::Waiting
                    }
                    None => Arrival::Waiting,
                };
                reading.step(OneshotEvent::Polled {
                    arrival,
                    now: world.now,
                })
            }
            OneshotAction::Remove => {
                world.remove(path);
                reading.step(OneshotEvent::Removed)
            }
            OneshotAction::Exit => break,
            OneshotAction::Nothing => panic!("the reading was told something unexpected"),
        };
    }
    reading.into_end().unwrap().reply(path)
}

/// A relay in the background, and what was written to its input.
struct Running {
    path: String,
    outputs: Vec<String>,
    handle: BroadcastHandle,
    waiting: Vec<Incoming>,
}

/// A server and the world around it. What runs is known to the server by a number.
struct Client {
    world: World,
    server: SynctellServer<usize, usize>,
    readers: Vec<Option<(String, LingerReader)>>,
    relays: Vec<Option<Running>>,
}

impl Client {
    fn new() -> Client {
        Client {
            world: World::new(),
            server: SynctellServer::new(),
            readers: Vec::new(),
            relays: Vec::new(),
        }
    }

    /// What was written to a path reaches whoever listens there.
    fn arrive(&mut self, path: &str, data: &[u8]) {
        for slot in self.readers.iter_mut().flatten() {
            if slot.0 == path {
                receive(&mut slot.1, data);
            }
        }
        let text: &'static str = match data {
            b"msg1" => "msg1",
            b"msg2" => "msg2",
            b"msg3" => "msg3",
            _ => "other",
        };
        for relay in self.relays.iter_mut().flatten() {
            if relay.path == path {
                relay.waiting.push(Incoming::Message(text));
            }
        }
    }

    fn write(&mut self, path: &str, message: &str) -> Result<String, String> {
        let request = WriteRequest {
            path: path.to_string(),
            message: message.to_string(),
        };
        let (written, data) = write(&self.world, &request.path, &request.message);
        if let Some(data) = data {
            self.arrive(path, &data);
        }
        self.server.synctell_write(written)
    }

    fn oneshot(
        &mut self,
        path: &str,
        timeout: u64,
        message: Option<(u64, &str)>,
    ) -> Result<String, String> {
        let request = ReadOneshotRequest {
            path: path.to_string(),
            timeout,
        };
        one_message(&mut self.world, &request.path, request.timeout, message)
    }

    fn start_linger(&mut self, path: &str) -> Result<String, String> {
        let request = StartLingerRequest {
            path: path.to_string(),
            timeout: 0,
        };
        self.server.linger_vacancy(&request)?;
        let started = match linger(&mut self.world, path) {
            Ok(reader) => {
                self.readers.push(Some((path.to_string(), reader)));
                Ok(self.readers.len() - 1)
            }
            Err(text) => Err(text),
        };
        self.server.synctell_read_start_linger(&request, started)
    }

    fn still_linger(&mut self, path: &str, timeout: u64, waited: u64) -> Result<String, String> {
        let request = StillLingerRequest {
            path: path.to_string(),
            timeout,
        };
        let number = *self.server.synctell_read_still_linger(&request)?;
        let reader = &mut self.readers[number].as_mut().unwrap().1;
        reader.pop_message(timeout, waited, true).unwrap()
    }

    fn stop_linger(&mut self, path: &str) -> Result<String, String> {
        let request = StopLingerRequest {
            path: path.to_string(),
        };
        let number = self.server.synctell_read_stop_linger(&request)?;
        let (path, reader) = self.readers[number].take().unwrap();
        let messages = stop(&mut self.world, &path, reader);
        self.server.linger_stopped(messages)
    }

    /// Lets a relay create its FIFO and wait.
    fn launch(&mut self, path: &str, outputs: &[&str], mut handle: BroadcastHandle) -> Result<usize, String> {
        let outcome = self.world.mkfifo(path);
        match handle.step(RelayEvent::Mkfifo(outcome)) {
            RelayAction::StartReader => {}
            _ => {
                handle.step(RelayEvent::Stat(self.world.stat(path)));
                return Err(handle.stop().unwrap_err());
            }
        }
        self.relays.push(Some(Running {
            path: path.to_string(),
            outputs: outputs.iter().map(|o| o.to_string()).collect(),
            handle,
            waiting: Vec::new(),
        }));
        Ok(self.relays.len() - 1)
    }

    /// Lets a relay hand on all that came in, and end.
    fn finish(&mut self, number: usize) -> Result<usize, String> {
        let Running {
            path,
            outputs,
            mut handle,
            mut waiting,
        } = self.relays[number].take().unwrap();
        waiting.push(Incoming::HangUp);
        let names: Vec<&str> = outputs.iter().map(|o| o.as_str()).collect();
        let mut begun = false;
        let now = self.world.now;
        self.world.remove(&path);
        let (ended, delivered) =
            run_relay(&mut self.world, &path, &names, waiting, true, |event| {
                if begun {
                    handle.step(event)
                } else {
                    begun = true;
                    handle.step(RelayEvent::Started(now))
                }
            });
        assert!(ended);
        for (i, messages) in delivered.to.iter().enumerate() {
            for data in messages {
                self.arrive(&outputs[i], data);
            }
        }
        handle.stop()
    }

    fn start_broadcast(&mut self, path: &str, outputs: &[&str]) -> Result<String, String> {
        let request = BroadcastStartRequest {
            path: path.to_string(),
            outputs: outputs.iter().map(|o| o.to_string()).collect(),
            timeout: 0,
            max_time: 0,
        };
        self.server.broadcast_vacancy(&request)?;
        let started = match broadcast_start(path, outputs.len(), request.timeout, request.max_time) {
            Ok(handle) => self.launch(path, outputs, handle),
            Err(text) => Err(text),
        };
        self.server.synctell_broadcast_start(&request, started)
    }

    fn stop_broadcast(&mut self, path: &str) -> Result<String, String> {
        let request = BroadcastStopRequest {
            path: path.to_string(),
        };
        let number = self.server.synctell_broadcast_stop(&request)?;
        let outcome = self.finish(number);
        self.server.broadcast_stopped(outcome)
    }

    fn start_roundrobin(&mut self, path: &str, outputs: &[&str]) -> Result<String, String> {
        let request = RoundRobinStartRequest {
            path: path.to_string(),
            outputs: outputs.iter().map(|o| o.to_string()).collect(),
            timeout: 0,
            max_time: 0,
        };
        self.server.roundrobin_vacancy(&request)?;
        let started = match roundrobin_start(path, outputs.len(), request.timeout, request.max_time) {
            Ok(handle) => self.launch(path, outputs, handle),
            Err(text) => Err(text),
        };
        self.server.synctell_roundrobin_start(&request, started)
    }

    fn stop_roundrobin(&mut self, path: &str) -> Result<String, String> {
        let request = RoundRobinStopRequest {
            path: path.to_string(),
        };
        let number = self.server.synctell_roundrobin_stop(&request)?;
        let outcome = self.finish(number);
        self.server.roundrobin_stopped(outcome)
    }
}

#[test]
fn test_write_no_reader_errors() {
    let mut client = Client::new();
    let result = client.write("/tmp/nonexistent-test-fifo-12345", "hello");
    assert!(result.is_err(), "write to non-existent FIFO should error");
    let err = result.unwrap_err();
    assert!(
        err.contains("does not exist"),
        "error should mention FIFO does not exist: {err}"
    );
}

#[test]
fn test_oneshot_timeout_errors() {
    let mut client = Client::new();
    let path = "test_oneshot_timeout.fifo";
    let result = client.oneshot(path, 1, None);
    assert!(result.is_err(), "read_oneshot with no writer should timeout");
    let err = result.unwrap_err();
    assert!(
        err.contains("timed out") || err.contains("timeout"),
        "error message should mention timeout: {err}"
    );
    assert!(!client.world.is_there(path), "FIFO should be removed after timeout");
}

#[test]
fn test_linger_creates_fifo() {
    let mut client = Client::new();
    let path = "test_linger_creates_fifo.fifo";
    let result = client.start_linger(path);
    assert!(result.is_ok(), "start_linger should succeed: {:?}", result);
    assert!(client.world.is_there(path), "FIFO should exist after start_linger");

    let result = client.stop_linger(path);
    assert!(result.is_ok(), "stop_linger should succeed: {:?}", result);
    assert!(!client.world.is_there(path), "FIFO should be removed after stop_linger");
}

#[test]
fn test_linger_write_roundtrip() {
    let mut client = Client::new();
    let path = "test_linger_write_roundtrip.fifo";
    client.start_linger(path).unwrap();
    assert!(client.world.is_there(path), "FIFO should exist");

    assert_eq!(client.write(path, "hello from test").unwrap(), "wrote 15 bytes");
    assert_eq!(client.write(path, "second message").unwrap(), "wrote 14 bytes");

    let data = client.stop_linger(path).unwrap();
    assert!(data.contains("hello from test"), "should contain first message: {data:?}");
    assert!(data.contains("second message"), "should contain second message: {data:?}");
    assert_eq!(data, "hello from test\nsecond message\n");
    assert!(!client.world.is_there(path), "FIFO should be removed after stop_linger");
}

#[test]
fn test_linger_rejects_duplicate() {
    let mut client = Client::new();
    let path = "test_linger_rejects_duplicate.fifo";
    assert!(client.start_linger(path).is_ok());

    let result = client.start_linger(path);
    assert!(result.is_err(), "duplicate start_linger should error");
    assert!(
        result.unwrap_err().contains("already active"),
        "error should mention already active"
    );
    assert!(client.stop_linger(path).is_ok());
}

#[test]
fn test_stop_linger_rejects_invalid() {
    let mut client = Client::new();
    let result = client.stop_linger("test_stop_linger_rejects_invalid.fifo");
    assert!(result.is_err(), "stop_linger on unknown path should error");
    assert!(
        result.unwrap_err().contains("no linger reader"),
        "error should mention no linger reader"
    );
}

#[test]
fn test_oneshot_roundtrip() {
    let mut client = Client::new();
    let path = "test_oneshot_roundtrip.fifo";
    let result = client.oneshot(path, 10, Some((1, "hello from roundtrip")));
    assert!(result.is_ok(), "read_oneshot should succeed: {:?}", result);
    let data = result.unwrap();
    assert!(
        data.contains("hello from roundtrip"),
        "should contain the written message: {data:?}"
    );
    assert!(!client.world.is_there(path), "FIFO should be removed after oneshot read");
}

#[test]
fn test_roundrobin_creates_fifo() {
    let mut client = Client::new();
    let path = "test_rr_create.fifo";
    let out1 = "test_rr_create_out1.fifo";
    assert!(client.start_linger(out1).is_ok());

    let result = client.start_roundrobin(path, &[out1]);
    assert!(result.is_ok(), "roundrobin_start: {:?}", result);
    assert!(client.world.is_there(path), "FIFO should exist after roundrobin_start");

    let result = client.stop_roundrobin(path);
    assert!(result.is_ok(), "roundrobin_stop: {:?}", result);
    assert!(!client.world.is_there(path), "FIFO should be removed after stop");
    let _ = client.stop_linger(out1);
}

#[test]
fn test_roundrobin_distributes_round_robin() {
    let mut client = Client::new();
    let input = "test_rr_dist_input.fifo";
    let out1 = "test_rr_dist_out1.fifo";
    let out2 = "test_rr_dist_out2.fifo";
    let _ = client.start_linger(out1);
    let _ = client.start_linger(out2);
    assert!(client.start_roundrobin(input, &[out1, out2]).is_ok());
    for message in ["msg1", "msg2", "msg3"] {
        let _ = client.write(input, message);
    }
    let result = client.stop_roundrobin(input);
    assert!(result.is_ok(), "roundrobin_stop: {:?}", result);
    let reply = result.unwrap();
    assert!(reply.contains("3"), "should have distributed 3 messages");
    assert_eq!(reply, "distributed 3 message(s)");

    let d1 = client.stop_linger(out1).unwrap_or_default();
    let d2 = client.stop_linger(out2).unwrap_or_default();
    assert!(d1.contains("msg1"), "out1 should have msg1: {d1:?}");
    assert!(d1.contains("msg3"), "out1 should have msg3: {d1:?}");
    assert!(d2.contains("msg2"), "out2 should have msg2: {d2:?}");
    assert_eq!(d1, "msg1\nmsg3\n");
    assert_eq!(d2, "msg2\n");
}

#[test]
fn test_roundrobin_rejects_duplicate() {
    let mut client = Client::new();
    let path = "test_rr_dup.fifo";
    let out1 = "test_rr_dup_out1.fifo";
    let _ = client.start_linger(out1);
    assert!(client.start_roundrobin(path, &[out1]).is_ok());

    let result = client.start_roundrobin(path, &[out1]);
    assert!(result.is_err(), "duplicate roundrobin_start should error");
    assert!(
        result.unwrap_err().contains("already active"),
        "error should mention already active"
    );
    let _ = client.stop_roundrobin(path);
}

#[test]
fn test_roundrobin_stop_invalid() {
    let mut client = Client::new();
    let result = client.stop_roundrobin("test_rr_stop_invalid.fifo");
    assert!(result.is_err(), "stop on unknown path should error");
    assert!(
        result.unwrap_err().contains("no round-robin"),
        "error should mention no round-robin"
    );
}

#[test]
fn a_broadcast_answers_with_its_count() {
    let mut client = Client::new();
    client.start_linger("/x/o1").unwrap();
    client.start_linger("/x/o2").unwrap();
    assert_eq!(
        client.start_broadcast("/x/in", &["/x/o1", "/x/o2"]).unwrap(),
        "broadcast started at '/x/in'"
    );
    assert_eq!(
        client.start_broadcast("/x//in", &["/x/o1"]).unwrap_err(),
        "broadcast already active for '/x//in'"
    );
    for message in ["msg1", "msg2"] {
        client.write("/x/in", message).unwrap();
    }
    assert_eq!(client.stop_broadcast("/x/in").unwrap(), "broadcast 2 message(s)");
    assert_eq!(
        client.stop_broadcast("/x/in").unwrap_err(),
        "no broadcast found for '/x/in'"
    );
    assert_eq!(client.stop_linger("/x/o1").unwrap(), "msg1\nmsg2\n");
    assert_eq!(client.stop_linger("/x/o2").unwrap(), "msg1\nmsg2\n");
    assert_eq!(
        client.start_broadcast("/x/in", &[]).unwrap_err(),
        "broadcast requires at least one output FIFO"
    );
    assert_eq!(
        client.start_roundrobin("/x/in", &[]).unwrap_err(),
        "roundrobin requires at least one output FIFO"
    );
}

#[test]
fn a_path_that_is_taken_is_free_again_after_the_stop() {
    let mut client = Client::new();
    assert_eq!(
        client.start_linger("/x/l").unwrap(),
        "linger reader started at '/x/l'"
    );
    assert_eq!(
        client.start_linger("/x/./l/").unwrap_err(),
        "linger reader already active for '/x/./l/'"
    );
    assert_eq!(
        client.start_roundrobin("/x/l", &["o"]).unwrap_err(),
        "'/x/l' already exists as a FIFO \u{2014} another listener may own this channel"
    );
    assert_eq!(
        client.stop_roundrobin("/x/l").unwrap_err(),
        "no round-robin found for '/x/l'"
    );
    assert_eq!(client.stop_linger("/x//l").unwrap(), "");
    assert!(client.start_linger("/x/l").is_ok());
    assert_eq!(
        client.start_roundrobin("/x/r", &["o"]).unwrap(),
        "round-robin started at '/x/r'"
    );
    assert_eq!(
        client.start_roundrobin("/x/r", &["o"]).unwrap_err(),
        "round-robin already active for '/x/r'"
    );
}

#[test]
fn a_message_can_be_taken_while_the_reader_goes_on() {
    let mut client = Client::new();
    assert_eq!(
        client.still_linger("/x/l", 1, 0).unwrap_err(),
        "no linger reader found for '/x/l'"
    );
    client.start_linger("/x/l").unwrap();
    client.write("/x/l", "one").unwrap();
    client.write("/x/l", "two").unwrap();
    assert_eq!(client.still_linger("/x/l", 1, 0).unwrap(), "one\n");
    assert_eq!(client.stop_linger("/x/l").unwrap(), "two\n");
}

#[test]
fn a_server_begins_with_nothing() {
    let mut server: SynctellServer<u8, u8> = SynctellServer::default();
    let request = StopLingerRequest {
        path: "p".to_string(),
    };
    assert_eq!(
        server.synctell_read_stop_linger(&request).unwrap_err(),
        "no linger reader found for 'p'"
    );
    assert_eq!(server.synctell_write(Err("why".to_string())).unwrap_err(), "why");
    assert_eq!(server.synctell_write(Ok(0)).unwrap(), "wrote 0 bytes");
    assert_eq!(
        server.synctell_write(Ok(usize::MAX)).unwrap(),
        format!("wrote {} bytes", usize::MAX)
    );
}

#[test]
fn a_registry_holds_one_handle_for_a_path() {
    let mut registry: Registry<u32> = Registry::new();
    assert_eq!(registry.insert("/a/b", 1), None);
    assert_eq!(registry.insert("/a/c", 2), None);
    assert_eq!(registry.insert("b", 3), None);
    assert_eq!(registry.insert("/a//b/.", 4), Some(4));
    assert!(registry.contains("/a/./b"));
    assert!(!registry.contains("a/b"));
    assert_eq!(registry.get("/a/c/"), Some(&2));
    assert_eq!(registry.remove("/a/b"), Some(1));
    assert_eq!(registry.remove("/a/b"), None);
    assert_eq!(registry.get("/a/c"), Some(&2));
    assert_eq!(registry.get("./b"), None);
    assert_eq!(registry.get("b"), Some(&3));
}
