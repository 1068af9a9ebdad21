//! The commands, on a file system that is only made up.
use synctell::fanout::{cmd_broadcast, cmd_roundrobin};
use synctell::cli::{lingers, Exit, LingerFlag};
use synctell::create::{Mkfifo, Stat};
use synctell::input::{cmd_input, Input, InputAction, InputEvent};
use synctell::reader::Arrival;
use synctell::relay::{told_to_end, Relay, RelayAction, RelayEvent};
use synctell::writer::{cmd_output, write_fifo_blocking, WriteAction, WriteEvent, Writer};

const SECOND: u64 = 1_000_000_000;

/// A file system with FIFOs and ordinary files, and a clock.
struct World {
    fifos: Vec<String>,
    files: Vec<String>,
    now: u64,
}

impl World {
    fn new() -> World {
        World {
            fifos: Vec::new(),
            files: Vec::new(),
            now: 0,
        }
    }

    fn has_fifo(&self, path: &str) -> bool {
        self.fifos.iter().any(|p| p == path)
    }

    fn is_there(&self, path: &str) -> bool {
        self.has_fifo(path) || self.files.iter().any(|p| p == path)
    }

    fn mkfifo(&mut self, path: &str) -> Mkfifo<String> {
        if self.is_there(path) {
            Mkfifo::AlreadyExists
        } else {
            self.fifos.push(path.to_string());
            Mkfifo::Created
        }
    }

    fn stat(&self, path: &str) -> Stat<String> {
        if self.has_fifo(path) {
            Stat::Fifo
        } else if self.is_there(path) {
            Stat::NotFifo
        } else {
            Stat::Failed("No such file or directory (os error 2)".to_string())
        }
    }

    fn remove(&mut self, path: &str) {
        self.fifos.retain(|p| p != path);
    }

    fn pass(&mut self, seconds: u64) {
        self.now += seconds * SECOND;
    }
}

/// What comes in while a relay waits.
enum Incoming {
    Message(&'static str),
    /// A writer comes and stays without a word.
    Writer,
    /// Someone creates a FIFO.
    Appears(&'static str),
    HangUp,
    Signal,
    Silence,
}

/// What a relay has written to its outputs, and the warnings on the way.
struct Delivered {
    to: Vec<Vec<Vec<u8>>>,
    warnings: Vec<String>,
}

/// Runs a relay to its end, or until nothing comes in any more where `patient` is false.
/// A step of silence lasts a second. Returns whether it ended.
fn run_relay<F>(
    world: &mut World,
    path: &str,
    outputs: &[&str],
    incoming: Vec<Incoming>,
    patient: bool,
    mut step: F,
) -> (bool, Delivered)
where
    F: FnMut(RelayEvent<Vec<u8>, String>) -> RelayAction<Vec<u8>>,
{
    let mut delivered = Delivered {
        to: outputs.iter().map(|_| Vec::new()).collect(),
        warnings: Vec::new(),
    };
    let mut incoming = incoming.into_iter();
    let mut stopped = false;
    let mut connected = false;
    let mut action: RelayAction<Vec<u8>> = RelayAction::Mkfifo;
    loop {
        let event = match action {
            RelayAction::Mkfifo => RelayEvent::Mkfifo(world.mkfifo(path)),
            RelayAction::Stat => RelayEvent::Stat(world.stat(path)),
            RelayAction::StartReader => RelayEvent::Started(world.now),
            RelayAction::ReadClock => RelayEvent::Clock(world.now),
            RelayAction::Receive => match incoming.next() {
                Some(Incoming::Message(text)) => {
                    connected = true;
                    RelayEvent::Message(text.as_bytes().to_vec())
                }
                Some(Incoming::Writer) => {
                    connected = true;
                    world.pass(1);
                    RelayEvent::Quiet {
                        quit: false,
                        connected,
                        now: world.now,
                    }
                }
                Some(Incoming::Appears(output)) => {
                    world.mkfifo(output);
                    world.pass(1);
                    RelayEvent::Quiet {
                        quit: false,
                        connected,
                        now: world.now,
                    }
                }
                Some(Incoming::HangUp) => RelayEvent::HangUp,
                Some(Incoming::Signal) => RelayEvent::Quiet {
                    quit: true,
                    connected,
                    now: world.now,
                },
                Some(Incoming::Silence) => {
                    world.pass(1);
                    RelayEvent::Quiet {
                        quit: false,
                        connected,
                        now: world.now,
                    }
                }
                None => {
                    if !patient {
                        return (false, delivered);
                    }
                    world.pass(1);
                    RelayEvent::Quiet {
                        quit: false,
                        connected,
                        now: world.now,
                    }
                }
            },
            RelayAction::Deliver { data, first, end } => {
                for i in first..end {
                    match write_fifo_blocking(outputs[i], world.is_there(outputs[i]), &data) {
                        Ok(n) => {
                            assert_eq!(n, data.len());
                            delivered.to[i].push(data.clone());
                        }
                        Err(warning) => delivered.warnings.push(warning),
                    }
                }
                RelayEvent::Clock(world.now)
            }
            RelayAction::RaiseStop => {
                stopped = true;
                RelayEvent::Done
            }
            RelayAction::Unblock => {
                assert!(stopped);
                RelayEvent::Done
            }
            RelayAction::Remove => {
                world.remove(path);
                RelayEvent::Done
            }
            RelayAction::Exit => return (true, delivered),
            RelayAction::Nothing => panic!("the relay was told something unexpected"),
        };
        action = step(event);
    }
}

/// What a run of the read command left behind.
struct Output {
    exit: Exit<String>,
    stdout: String,
    elapsed: u64,
}

/// Runs the read command. Each message comes so many seconds after the one before; with
/// `signal` a signal asks to end after so many seconds.
fn run_read(
    world: &mut World,
    path: &str,
    flags: &[LingerFlag],
    timeout: Option<u64>,
    max_time: Option<u64>,
    messages: &[(u64, &str)],
    signal: Option<u64>,
) -> Output {
    let begun = world.now;
    let mut stdout = Vec::new();
    let mut messages = messages.iter();
    let mut next = messages.next();
    let mut listening_since = world.now;
    let mut command: Input<String> = cmd_input(timeout, lingers(&flags.to_vec()), max_time);
    let mut action: InputAction<Vec<u8>> = command.first_action();
    loop {
        action = match action {
            InputAction::Mkfifo => {
                let outcome = world.mkfifo(path);
                command.step(InputEvent::Mkfifo {
                    outcome,
                    now: world.now,
                })
            }
            InputAction::Stat => command.step(InputEvent::Stat(world.stat(path))),
            InputAction::Listen | InputAction::Wait => {
                assert!(world.has_fifo(path), "FIFO should exist");
                if matches!(action, InputAction::Listen) {
                    listening_since = world.now;
                }
                world.pass(1);
                let arrival = match next {
                    Some((seconds, text)) if world.now >= listening_since + seconds * SECOND => {
                        next = messages.next();
                        Arrival::Data(text.as_bytes().to_vec())
                    }
                    _ => Arrival::Waiting,
                };
                let quit = match signal {
                    Some(seconds) => world.now >= begun + seconds * SECOND,
                    None => false,
                };
                command.step(InputEvent::Polled {
                    quit,
                    arrival,
                    now: world.now,
                })
            }
            InputAction::Print(data) => {
                stdout.extend_from_slice(&data);
                command.step(InputEvent::Printed(world.now))
            }
            InputAction::Remove => {
                world.remove(path);
                command.step(InputEvent::Removed)
            }
            InputAction::Exit => break,
            InputAction::Nothing => panic!("the command was told something unexpected"),
        };
    }
    Output {
        exit: command.into_end().unwrap().exit(path),
        stdout: String::from_utf8(stdout).unwrap(),
        elapsed: world.now - begun,
    }
}

/// Runs a relay command to its end; `None` if it was still running when nothing came in.
fn run_command(
    world: &mut World,
    path: &str,
    outputs: &[&str],
    begun: Result<Relay<String>, String>,
    incoming: Vec<Incoming>,
    patient: bool,
) -> (Option<Exit<String>>, Delivered) {
    let mut relay = begun.unwrap();
    let (ended, delivered) =
        run_relay(world, path, outputs, incoming, patient, |e| relay.step(e));
    let spread = relay.spread();
    let end = relay.into_end();
    assert_eq!(ended, end.is_some());
    (end.map(|end| end.exit(spread, path)), delivered)
}

fn with_outputs(outputs: &[&str]) -> World {
    let mut world = World::new();
    for output in outputs {
        world.mkfifo(output);
    }
    world
}

#[test]
fn read_timeout_no_writer_exits_124() {
    let mut world = World::new();
    let output = run_read(&mut world, "p", &[], Some(2), None, &[], None);
    assert_eq!(output.exit.code(), 124);
    assert_eq!(output.elapsed, 2 * SECOND);
    assert!(!world.is_there("p"), "FIFO should be removed after timeout");
    match output.exit {
        Exit::Complaint { text, .. } => {
            assert_eq!(text, "error: timed out waiting for writer on 'p'")
        }
        _ => panic!("a timeout is a complaint"),
    }
}

#[test]
fn read_timeout_no_linger_no_writer_exits_124() {
    let mut world = World::new();
    let flags = [LingerFlag::Oneshot];
    let output = run_read(&mut world, "p", &flags, Some(2), None, &[], None);
    assert_eq!(output.exit.code(), 124);
    assert_eq!(output.elapsed, 2 * SECOND);
    assert!(!world.is_there("p"), "FIFO should be removed after timeout");
}

#[test]
fn read_timeout_linger_no_writer_exits_124() {
    let mut world = World::new();
    let flags = [LingerFlag::Linger];
    let output = run_read(&mut world, "p", &flags, Some(2), None, &[], None);
    assert_eq!(output.exit.code(), 124);
    assert_eq!(output.elapsed, 2 * SECOND);
    assert!(!world.is_there("p"), "FIFO should be removed after timeout");
}

#[test]
fn read_timeout_zero_blocks_forever() {
    let mut world = World::new();
    let flags = [LingerFlag::Oneshot];
    let messages = [(1000, "hello from writer")];
    let output = run_read(&mut world, "p", &flags, Some(0), None, &messages, None);
    assert_eq!(output.exit.code(), 0);
    assert!(output.stdout.contains("hello from writer"));
    assert!(!world.is_there("p"), "FIFO should be removed after read");
}

#[test]
fn read_default_linger_multiple_writers() {
    let mut world = World::new();
    let messages = [(1, "first"), (1, "second")];
    let output = run_read(&mut world, "p", &[], None, Some(6), &messages, None);
    assert_eq!(output.exit.code(), 0);
    assert!(output.stdout.contains("first"));
    assert!(output.stdout.contains("second"));
    assert_eq!(output.stdout, "first\nsecond\n");
    assert!(!world.is_there("p"), "FIFO should be removed");
}

#[test]
fn read_no_linger_exits_after_one() {
    let mut world = World::new();
    let flags = [LingerFlag::Oneshot];
    let messages = [(1, "only one"), (1, "never read")];
    let output = run_read(&mut world, "p", &flags, None, None, &messages, None);
    assert_eq!(output.exit.code(), 0);
    assert_eq!(output.stdout, "only one\n");
    assert!(!world.is_there("p"), "FIFO should be removed");
}

#[test]
fn read_linger_then_no_linger_last_wins() {
    let mut world = World::new();
    let flags = [LingerFlag::Linger, LingerFlag::Oneshot];
    let messages = [(1, "only one"), (1, "never read")];
    let output = run_read(&mut world, "p", &flags, None, None, &messages, None);
    assert_eq!(output.exit.code(), 0);
    assert_eq!(output.stdout, "only one\n");
    assert!(!world.is_there("p"), "FIFO should be removed");
}

#[test]
fn read_no_linger_then_linger_last_wins() {
    let mut world = World::new();
    let flags = [LingerFlag::Oneshot, LingerFlag::Linger];
    let messages = [(1, "first"), (1, "second")];
    let output = run_read(&mut world, "p", &flags, None, Some(6), &messages, None);
    assert_eq!(output.exit.code(), 0);
    assert!(output.stdout.contains("first"));
    assert!(output.stdout.contains("second"));
    assert!(!world.is_there("p"), "FIFO should be removed");
}

#[test]
fn read_max_time_no_writer_exits_cleanly() {
    let mut world = World::new();
    let output = run_read(&mut world, "p", &[], None, Some(2), &[], None);
    assert_eq!(output.exit.code(), 0);
    assert_eq!(output.elapsed, 2 * SECOND);
    assert!(!world.is_there("p"), "FIFO should be removed");
}

#[test]
fn read_max_time_linger_receives_then_exits() {
    let mut world = World::new();
    let flags = [LingerFlag::Linger];
    let messages = [(1, "first message"), (1, "second message")];
    let output = run_read(&mut world, "p", &flags, None, Some(4), &messages, None);
    assert_eq!(output.exit.code(), 0);
    assert_eq!(output.elapsed, 4 * SECOND);
    assert!(output.stdout.contains("first message"));
    assert!(output.stdout.contains("second message"));
    assert!(!world.is_there("p"), "FIFO should be removed");
}

#[test]
fn read_max_time_zero_blocks_forever() {
    let mut world = World::new();
    let flags = [LingerFlag::Oneshot];
    let messages = [(1000, "hello after wait")];
    let output = run_read(&mut world, "p", &flags, None, Some(0), &messages, None);
    assert_eq!(output.exit.code(), 0);
    assert!(output.stdout.contains("hello after wait"));
    assert!(!world.is_there("p"), "FIFO should be removed");
}

#[test]
fn a_first_message_puts_an_end_to_the_timeout() {
    let mut world = World::new();
    let messages = [(1, "first"), (100, "much later")];
    let output = run_read(&mut world, "p", &[], Some(2), Some(200), &messages, None);
    assert_eq!(output.exit.code(), 0);
    assert_eq!(output.stdout, "first\nmuch later\n");
    assert_eq!(output.elapsed, 200 * SECOND);
}

#[test]
fn messages_without_a_pause_do_not_put_the_maximum_time_off() {
    let mut world = World::new();
    let messages = [(1, "x"); 100];
    let output = run_read(&mut world, "p", &[], None, Some(4), &messages, None);
    assert_eq!(output.exit.code(), 0);
    assert_eq!(output.stdout, "x\nx\nx\nx\n");
    assert_eq!(output.elapsed, 4 * SECOND);
    assert!(!world.is_there("p"));
}

#[test]
fn a_signal_ends_a_read_and_removes_the_fifo() {
    let mut world = World::new();
    let messages = [(1, "one\n")];
    let output = run_read(&mut world, "p", &[], None, None, &messages, Some(5));
    assert_eq!(output.exit.code(), 0);
    assert_eq!(output.stdout, "one\n");
    assert_eq!(output.elapsed, 5 * SECOND);
    assert!(!world.is_there("p"));
}

#[test]
fn a_timeout_that_has_passed_comes_before_the_maximum_time() {
    let mut world = World::new();
    let output = run_read(&mut world, "p", &[], Some(3), Some(3), &[], None);
    assert_eq!(output.exit.code(), 124);
}

#[test]
fn a_read_is_refused_where_something_is() {
    let mut world = World::new();
    world.mkfifo("p");
    let output = run_read(&mut world, "p", &[], None, None, &[], None);
    assert_eq!(output.exit.code(), 1);
    assert!(world.is_there("p"), "the other listener keeps its FIFO");
    match output.exit {
        Exit::Error { headline, cause } => {
            assert!(headline.contains("already exists as a FIFO"));
            assert!(cause.is_none());
        }
        _ => panic!("a refusal is an error"),
    }
    world.files.push("f".to_string());
    let output = run_read(&mut world, "f", &[], None, None, &[], None);
    match output.exit {
        Exit::Error { headline, .. } => {
            assert_eq!(headline, "'f' already exists but is not a FIFO")
        }
        _ => panic!("a refusal is an error"),
    }
}

#[test]
fn a_message_that_cannot_be_read_or_printed_still_removes_the_fifo() {
    let mut command: Input<String> = cmd_input(None, true, None);
    command.step(InputEvent::Mkfifo {
        outcome: Mkfifo::Created,
        now: 0,
    });
    let polled = InputEvent::Polled {
        quit: false,
        arrival: Arrival::ReadFailed("broken".to_string()),
        now: 1,
    };
    assert!(matches!(command.step(polled), InputAction::Remove));
    assert!(matches!(
        command.step(InputEvent::Removed),
        InputAction::Exit
    ));
    match command.into_end().unwrap().exit("p") {
        Exit::Error { headline, .. } => assert_eq!(headline, "failed to read from 'p': broken"),
        _ => panic!("a failed read is an error"),
    }

    let mut command: Input<String> = cmd_input(None, true, None);
    command.step(InputEvent::Mkfifo {
        outcome: Mkfifo::Created,
        now: 0,
    });
    let polled = InputEvent::Polled {
        quit: false,
        arrival: Arrival::Data(b"x".to_vec()),
        now: 1,
    };
    assert!(matches!(command.step(polled), InputAction::Print(_)));
    assert!(matches!(
        command.step(InputEvent::PrintFailed("closed".to_string())),
        InputAction::Remove
    ));
    command.step(InputEvent::Removed);
    match command.into_end().unwrap().exit("p") {
        Exit::Error { headline, cause } => {
            assert_eq!(headline, "failed to write to stdout");
            assert_eq!(cause, Some("closed".to_string()));
        }
        _ => panic!("a failed print is an error"),
    }
}

/// Runs the write command; the FIFO is there from the given second on, if at all.
fn run_write(message: &str, timeout: Option<u64>, from: Option<u64>) -> (Exit<String>, u64, Vec<u8>) {
    let mut writer: Writer<String> = cmd_output(Some(message), timeout);
    let mut waited = 0;
    let mut sent = Vec::new();
    let mut action: WriteAction<Vec<u8>> = writer.first_action();
    loop {
        action = match action {
            WriteAction::Probe => writer.step(WriteEvent::Probed(match from {
                Some(seconds) => waited >= seconds,
                None => false,
            })),
            WriteAction::Sleep => {
                waited += 1;
                writer.step(WriteEvent::Slept)
            }
            WriteAction::Open => writer.step(WriteEvent::Opened),
            WriteAction::Write(data) => {
                sent.extend_from_slice(&data);
                writer.step(WriteEvent::Written)
            }
            WriteAction::Exit => break,
            WriteAction::ReadStdin => panic!("standard input is not to be read"),
            WriteAction::Nothing => panic!("the writer was told something unexpected"),
        };
    }
    (writer.into_end().unwrap().exit("w"), waited, sent)
}

#[test]
fn a_write_waits_for_the_fifo_to_appear() {
    let (exit, waited, sent) = run_write("hi", Some(5), Some(3));
    assert_eq!(exit.code(), 0);
    assert_eq!(waited, 3);
    assert_eq!(sent, b"hi");
    let (exit, waited, _) = run_write("hi", Some(5), Some(5));
    assert_eq!(exit.code(), 0);
    assert_eq!(waited, 5);
    let (exit, waited, sent) = run_write("hi", Some(5), Some(6));
    assert_eq!(exit.code(), 124);
    assert_eq!(waited, 5);
    assert!(sent.is_empty());
    match exit {
        Exit::Complaint { text, .. } => assert_eq!(
            text,
            "error: timed out waiting for 'w' to appear (no reader listening)"
        ),
        _ => panic!("a timeout is a complaint"),
    }
    let (exit, waited, _) = run_write("hi", Some(0), None);
    assert_eq!(exit.code(), 124);
    assert_eq!(waited, 0);
}

#[test]
fn a_write_without_a_timeout_needs_the_fifo_at_once() {
    let (exit, waited, _) = run_write("hi", None, Some(1));
    assert_eq!(exit.code(), 1);
    assert_eq!(waited, 0);
    match exit {
        Exit::Complaint { text, .. } => {
            assert_eq!(text, "error: 'w' does not exist (no reader listening)")
        }
        _ => panic!("a missing FIFO is a complaint"),
    }
    let (exit, _, sent) = run_write("hi", None, Some(0));
    assert_eq!(exit.code(), 0);
    assert_eq!(sent, b"hi");
}

#[test]
fn a_write_that_fails_says_whether_the_fifo_disappeared() {
    for (there, expected) in [
        (false, "'w' disappeared (no reader listening)"),
        (true, "failed to open 'w' for writing"),
    ] {
        let mut writer: Writer<String> = cmd_output(Some("hi"), None);
        writer.step(WriteEvent::Probed(true));
        assert!(matches!(
            writer.step(WriteEvent::OpenFailed("no".to_string())),
            WriteAction::Probe
        ));
        assert!(matches!(
            writer.step(WriteEvent::Probed(there)),
            WriteAction::Exit
        ));
        match writer.into_end().unwrap().exit("w") {
            Exit::Error { headline, cause } => {
                assert_eq!(headline, expected);
                assert_eq!(cause, Some("no".to_string()));
            }
            _ => panic!("a failed open is an error"),
        }
    }
    let mut writer: Writer<String> = cmd_output(Some("hi"), Some(3));
    writer.step(WriteEvent::Probed(true));
    writer.step(WriteEvent::Opened);
    writer.step(WriteEvent::WriteFailed("full".to_string()));
    match writer.into_end().unwrap().exit("w") {
        Exit::Error { headline, cause } => {
            assert_eq!(headline, "failed to write to 'w'");
            assert_eq!(cause, Some("full".to_string()));
        }
        _ => panic!("a failed write is an error"),
    }
}

#[test]
fn without_a_message_all_of_standard_input_is_written() {
    let mut writer: Writer<String> = cmd_output(None, Some(3));
    assert!(matches!(writer.first_action(), WriteAction::ReadStdin));
    // Nothing is opened before standard input is read.
    assert!(matches!(
        writer.step(WriteEvent::Probed(true)),
        WriteAction::Nothing
    ));
    assert!(matches!(
        writer.step(WriteEvent::StdinRead(b"one\ntwo\xff".to_vec())),
        WriteAction::Probe
    ));
    assert!(matches!(
        writer.step(WriteEvent::Probed(true)),
        WriteAction::Open
    ));
    match writer.step(WriteEvent::Opened) {
        WriteAction::Write(data) => assert_eq!(data, b"one\ntwo\xff"),
        _ => panic!("it should write"),
    }
    writer.step(WriteEvent::Written);
    assert_eq!(writer.into_end().unwrap().result("w").unwrap(), 8);
}

#[test]
fn standard_input_that_cannot_be_read_is_an_error() {
    let mut writer: Writer<String> = cmd_output(None, None);
    assert!(matches!(
        writer.step(WriteEvent::StdinFailed("closed".to_string())),
        WriteAction::Exit
    ));
    let end = writer.into_end().unwrap();
    assert_eq!(
        end.result("w").unwrap_err(),
        "failed to read from stdin: closed"
    );
    match end.exit("w") {
        Exit::Error { headline, cause } => {
            assert_eq!(headline, "failed to read from stdin");
            assert_eq!(cause, Some("closed".to_string()));
        }
        _ => panic!("it is an error"),
    }
}

#[test]
fn a_writer_that_came_in_time_does_not_time_a_read_out() {
    let mut command: Input<String> = cmd_input(Some(1), true, Some(10));
    command.step(InputEvent::Mkfifo {
        outcome: Mkfifo::Created,
        now: 0,
    });
    let poll = |command: &mut Input<String>, arrival: Arrival<Vec<u8>, String>, second: u64| {
        command.step(InputEvent::Polled {
            quit: false,
            arrival,
            now: second * SECOND,
        })
    };
    assert!(matches!(poll(&mut command, Arrival::Reading, 1), InputAction::Wait));
    assert!(matches!(poll(&mut command, Arrival::Waiting, 5), InputAction::Wait));
    assert!(matches!(poll(&mut command, Arrival::Reading, 9), InputAction::Wait));
    // The maximum time does not wait for a writer.
    assert!(matches!(poll(&mut command, Arrival::Reading, 10), InputAction::Remove));
    command.step(InputEvent::Removed);
    assert_eq!(command.into_end().unwrap().exit("p").code(), 0);
}

#[test]
fn a_writer_that_stays_does_not_keep_a_relay_beyond_its_maximum_time() {
    let mut world = with_outputs(&["o1"]);
    let incoming = vec![Incoming::Writer];
    let begun = cmd_broadcast(1, Some(1), Some(3));
    let (exit, _) = run_command(&mut world, "in", &["o1"], begun, incoming, true);
    assert_eq!(exit.unwrap().code(), 0);
    assert_eq!(world.now, 3 * SECOND);
    assert!(!world.is_there("in"));
}

#[test]
fn a_limit_of_zero_is_as_good_as_none() {
    for (timeout, max_time) in [(None, None), (Some(0), None), (None, Some(0)), (Some(0), Some(0))] {
        let mut world = with_outputs(&["o1"]);
        let mut incoming = Vec::new();
        for _ in 0..1000 {
            incoming.push(Incoming::Silence);
        }
        incoming.push(Incoming::Message("late"));
        let begun = cmd_broadcast(1, timeout, max_time);
        let (exit, delivered) = run_command(&mut world, "in", &["o1"], begun, incoming, false);
        assert!(exit.is_none());
        assert_eq!(delivered.to[0], vec![b"late\n".to_vec()]);
    }
}

#[test]
fn broadcast_fans_out() {
    let outputs = ["o1", "o2", "o3"];
    let mut world = with_outputs(&outputs);
    let incoming = vec![Incoming::Message("hello broadcast")];
    let begun = cmd_broadcast(3, None, None);
    let (exit, delivered) = run_command(&mut world, "in", &outputs, begun, incoming, false);
    assert!(exit.is_none());
    assert!(world.is_there("in"), "input FIFO should exist");
    for i in 0..3 {
        assert_eq!(delivered.to[i], vec![b"hello broadcast\n".to_vec()]);
    }
}

#[test]
fn broadcast_timeout_exits_124() {
    let mut world = with_outputs(&["o1"]);
    let begun = cmd_broadcast(1, Some(2), None);
    let (exit, _) = run_command(&mut world, "in", &["o1"], begun, vec![], true);
    assert_eq!(exit.unwrap().code(), 124);
    assert_eq!(world.now, 2 * SECOND);
    assert!(!world.is_there("in"), "input FIFO should be cleaned up");
}

#[test]
fn broadcast_survives_output_disconnect() {
    let mut world = with_outputs(&["o1", "o2"]);
    world.remove("o1");
    let incoming = vec![Incoming::Message("still alive")];
    let begun = cmd_broadcast(2, None, None);
    let (exit, delivered) = run_command(&mut world, "in", &["o1", "o2"], begun, incoming, false);
    assert!(exit.is_none());
    assert_eq!(delivered.to[1], vec![b"still alive\n".to_vec()]);
    assert!(delivered.to[0].is_empty());
    assert_eq!(
        delivered.warnings,
        vec!["'o1' does not exist (no reader listening)"]
    );
}

#[test]
fn broadcast_cleans_up_input() {
    let mut world = with_outputs(&["o1"]);
    let begun = cmd_broadcast(1, Some(1), None);
    let (exit, _) = run_command(&mut world, "in", &["o1"], begun, vec![], true);
    assert_eq!(exit.unwrap().code(), 124);
    assert!(!world.is_there("in"), "input FIFO should be cleaned up after exit");
}

#[test]
fn broadcast_timeout_zero_blocks_forever() {
    let mut world = with_outputs(&["o1"]);
    let incoming = vec![
        Incoming::Silence,
        Incoming::Silence,
        Incoming::Message("still here"),
    ];
    let begun = cmd_broadcast(1, Some(0), None);
    let (exit, delivered) = run_command(&mut world, "in", &["o1"], begun, incoming, false);
    assert!(exit.is_none());
    assert_eq!(delivered.to[0], vec![b"still here\n".to_vec()]);
}

#[test]
fn broadcast_max_time_no_writer_exits_cleanly() {
    let mut world = with_outputs(&["o1"]);
    let begun = cmd_broadcast(1, None, Some(2));
    let (exit, _) = run_command(&mut world, "in", &["o1"], begun, vec![], true);
    assert_eq!(exit.unwrap().code(), 0);
    assert_eq!(world.now, 2 * SECOND);
    assert!(!world.is_there("in"), "input FIFO should be cleaned up");
}

#[test]
fn broadcast_max_time_receives_then_exits() {
    let mut world = with_outputs(&["o1"]);
    let incoming = vec![
        Incoming::Message("first message"),
        Incoming::Silence,
        Incoming::Message("second message"),
    ];
    let begun = cmd_broadcast(1, None, Some(4));
    let (exit, delivered) = run_command(&mut world, "in", &["o1"], begun, incoming, true);
    assert_eq!(exit.unwrap().code(), 0);
    assert_eq!(
        delivered.to[0],
        vec![b"first message\n".to_vec(), b"second message\n".to_vec()]
    );
    assert!(!world.is_there("in"), "input FIFO should be cleaned up");
}

#[test]
fn broadcast_max_time_zero_blocks_forever() {
    let mut world = with_outputs(&["o1"]);
    let incoming = vec![
        Incoming::Silence,
        Incoming::Silence,
        Incoming::Message("still here after delay"),
    ];
    let begun = cmd_broadcast(1, None, Some(0));
    let (exit, delivered) = run_command(&mut world, "in", &["o1"], begun, incoming, false);
    assert!(exit.is_none());
    assert_eq!(delivered.to[0], vec![b"still here after delay\n".to_vec()]);
}

#[test]
fn roundrobin_distributes_round_robin() {
    let outputs = ["o1", "o2", "o3"];
    let mut world = with_outputs(&outputs);
    let incoming = vec![
        Incoming::Message("msg1"),
        Incoming::Message("msg2"),
        Incoming::Message("msg3"),
        Incoming::Message("msg4"),
        Incoming::Message("msg5"),
    ];
    let begun = cmd_roundrobin(3, None, None);
    let (exit, delivered) = run_command(&mut world, "in", &outputs, begun, incoming, false);
    assert!(exit.is_none());
    assert_eq!(delivered.to[0], vec![b"msg1\n".to_vec(), b"msg4\n".to_vec()]);
    assert_eq!(delivered.to[1], vec![b"msg2\n".to_vec(), b"msg5\n".to_vec()]);
    assert_eq!(delivered.to[2], vec![b"msg3\n".to_vec()]);
}

#[test]
fn roundrobin_timeout_exits_124() {
    let mut world = with_outputs(&["o1"]);
    let begun = cmd_roundrobin(1, Some(2), None);
    let (exit, _) = run_command(&mut world, "in", &["o1"], begun, vec![], true);
    assert_eq!(exit.unwrap().code(), 124);
    assert!(!world.is_there("in"), "input FIFO should be cleaned up");
}

#[test]
fn roundrobin_max_time_exits_cleanly() {
    let mut world = with_outputs(&["o1"]);
    let begun = cmd_roundrobin(1, None, Some(2));
    let (exit, _) = run_command(&mut world, "in", &["o1"], begun, vec![], true);
    assert_eq!(exit.unwrap().code(), 0);
    assert!(!world.is_there("in"), "input FIFO should be cleaned up");
}

#[test]
fn roundrobin_survives_output_disconnect() {
    let mut world = with_outputs(&["o1", "o2"]);
    world.remove("o1");
    let incoming = vec![
        Incoming::Message("msg1"),
        Incoming::Message("msg2"),
        Incoming::Message("msg3"),
    ];
    let begun = cmd_roundrobin(2, None, Some(4));
    let (exit, delivered) = run_command(&mut world, "in", &["o1", "o2"], begun, incoming, true);
    assert_eq!(exit.unwrap().code(), 0);
    assert_eq!(delivered.to[1], vec![b"msg2\n".to_vec()]);
    assert!(delivered.to[0].is_empty());
    assert_eq!(delivered.warnings.len(), 2);
}

#[test]
fn roundrobin_cleans_up_input() {
    let mut world = with_outputs(&["o1"]);
    let begun = cmd_roundrobin(1, Some(1), None);
    let (exit, _) = run_command(&mut world, "in", &["o1"], begun, vec![], true);
    assert_eq!(exit.unwrap().code(), 124);
    assert!(!world.is_there("in"), "input FIFO should be cleaned up");
}

#[test]
fn a_first_message_puts_an_end_to_the_timeout_of_a_relay() {
    let mut world = with_outputs(&["o1"]);
    let mut incoming = vec![Incoming::Message("first")];
    for _ in 0..100 {
        incoming.push(Incoming::Silence);
    }
    incoming.push(Incoming::Message("last"));
    incoming.push(Incoming::HangUp);
    let begun = cmd_broadcast(1, Some(2), None);
    let (exit, delivered) = run_command(&mut world, "in", &["o1"], begun, incoming, true);
    assert_eq!(exit.unwrap().code(), 0);
    assert_eq!(
        delivered.to[0],
        vec![b"first\n".to_vec(), b"last\n".to_vec()]
    );
}

#[test]
fn a_signal_ends_a_relay_and_removes_the_fifo() {
    let mut world = with_outputs(&["o1"]);
    let incoming = vec![Incoming::Message("one"), Incoming::Signal];
    let begun = cmd_roundrobin(1, Some(2), Some(10));
    let (exit, delivered) = run_command(&mut world, "in", &["o1"], begun, incoming, true);
    assert_eq!(exit.unwrap().code(), 0);
    assert_eq!(delivered.to[0].len(), 1);
    assert!(!world.is_there("in"));
}

#[test]
fn a_relay_needs_an_output() {
    assert_eq!(
        cmd_broadcast(0, None, None).unwrap_err(),
        "broadcast requires at least one output FIFO"
    );
    assert_eq!(
        cmd_roundrobin(0, None, None).unwrap_err(),
        "roundrobin requires at least one output FIFO"
    );
}

#[test]
fn a_relay_whose_thread_does_not_start_fails_with_the_cause() {
    for (begun, expected) in [
        (
            cmd_broadcast(1, None, None),
            "failed to spawn broadcast reader thread",
        ),
        (
            cmd_roundrobin(1, None, None),
            "failed to spawn round-robin reader thread",
        ),
    ] {
        let mut relay = begun.unwrap();
        relay.step(RelayEvent::Mkfifo(Mkfifo::Created));
        assert!(matches!(
            relay.step(RelayEvent::SpawnFailed("out of threads".to_string())),
            RelayAction::Remove
        ));
        assert!(matches!(relay.step(RelayEvent::Done), RelayAction::Exit));
        let spread = relay.spread();
        match relay.into_end().unwrap().exit(spread, "in") {
            Exit::Error { headline, cause } => {
                assert_eq!(headline, expected);
                assert_eq!(cause, Some("out of threads".to_string()));
            }
            _ => panic!("it is an error"),
        }
    }
}

#[test]
fn without_a_flag_the_last_one_or_lingering_counts() {
    assert!(lingers(&vec![]));
    assert!(!lingers(&vec![
        LingerFlag::Linger,
        LingerFlag::Linger,
        LingerFlag::Oneshot
    ]));
    assert!(lingers(&vec![LingerFlag::Oneshot, LingerFlag::Linger]));
}

#[test]
fn a_relay_that_has_not_begun_asks_for_its_fifo() {
    let mut relay = cmd_broadcast(1, None, None).unwrap();
    assert!(matches!(relay.first_action(), RelayAction::Mkfifo));
    relay.step(RelayEvent::Mkfifo(Mkfifo::Created));
    assert!(matches!(relay.first_action(), RelayAction::Nothing));
    let mut command: Input<String> = cmd_input(None, true, None);
    assert!(matches!(command.first_action(), InputAction::Mkfifo));
    command.step(InputEvent::Mkfifo {
        outcome: Mkfifo::Created,
        now: 0,
    });
    assert!(matches!(command.first_action(), InputAction::Nothing));
}

#[test]
fn a_stop_waits_for_a_writer_and_a_signal_does_not() {
    assert!(told_to_end(true, false, false));
    assert!(!told_to_end(true, true, false));
    assert!(!told_to_end(false, false, false));
    assert!(!told_to_end(false, true, false));
    for stop in [false, true] {
        for busy in [false, true] {
            assert!(told_to_end(stop, busy, true));
        }
    }
}
