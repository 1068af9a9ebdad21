//! Framing, deadlines, paths and numbers.
use std::path::Path;
use synctell::close::{first_step, next_step, CloseStep, Remover};
use synctell::deadline::Deadline;
use synctell::feed::{feed, FeedAction, FeedEvent};
use synctell::frame::{frame_bytes, frame_string, frame_text};
use synctell::paths::path_key;
use synctell::reader::{read_one_message, Arrival, ReadResult};
use synctell::text::{decimal, join3, join_all};

const SECOND: u64 = 1_000_000_000;

#[test]
fn a_missing_newline_is_added() {
    assert_eq!(frame_bytes(b"hello".to_vec()), b"hello\n");
    assert_eq!(frame_bytes(b"hello\n".to_vec()), b"hello\n");
    assert_eq!(frame_bytes(b"a\nb".to_vec()), b"a\nb\n");
    assert_eq!(frame_bytes(b"\n".to_vec()), b"\n");
    assert_eq!(frame_bytes(Vec::new()), b"\n");
}

#[test]
fn framing_twice_is_framing_once() {
    for data in [&b""[..], b"x", b"x\n", b"\n\n"] {
        let once = frame_bytes(data.to_vec());
        assert_eq!(frame_bytes(once.clone()), once);
    }
}

#[test]
fn bytes_that_are_not_text_are_replaced() {
    assert_eq!(frame_text(b"ok"), "ok\n");
    assert_eq!(frame_text(b"ok\n"), "ok\n");
    assert_eq!(frame_text(b""), "\n");
    assert_eq!(frame_text(b"a\xff\xfeb"), "a\u{fffd}\u{fffd}b\n");
    assert_eq!(frame_text(b"cut \xe2\x82"), "cut \u{fffd}\n");
    assert_eq!(frame_text("gr\u{fc}\u{df}e\n".as_bytes()), "gr\u{fc}\u{df}e\n");
}

#[test]
fn a_text_gets_the_newline_that_it_lacks() {
    assert_eq!(frame_string(String::new()), "\n");
    assert_eq!(frame_string("one".to_string()), "one\n");
    assert_eq!(frame_string("one\n".to_string()), "one\n");
    assert_eq!(frame_string("\u{1f600}".to_string()), "\u{1f600}\n");
}

#[test]
fn text_and_bytes_are_framed_alike() {
    for text in ["", "one", "one\n", "gr\u{fc}\u{df}e", "\u{1f600}"] {
        assert_eq!(
            frame_text(text.as_bytes()).as_bytes(),
            &frame_bytes(text.as_bytes().to_vec())[..]
        );
    }
}

#[test]
fn lines_of_many_writers_stay_apart() {
    let mut stream = Vec::new();
    for message in ["first", "second\n", "third"] {
        stream.extend(frame_bytes(message.as_bytes().to_vec()));
    }
    assert_eq!(stream, b"first\nsecond\nthird\n");
}

#[test]
fn a_deadline_is_reached_to_the_nanosecond() {
    let deadline = Deadline::after(5, Some(2));
    assert!(!deadline.expired(4));
    assert!(!deadline.expired(2 * SECOND + 4));
    assert!(deadline.expired(2 * SECOND + 5));
    assert!(deadline.expired(u64::MAX));
}

#[test]
fn no_seconds_are_no_deadline() {
    assert!(!Deadline::never().expired(u64::MAX));
    assert!(!Deadline::after(0, None).expired(u64::MAX));
    assert!(!Deadline::after(0, Some(0)).expired(u64::MAX));
    assert!(!Deadline::after(u64::MAX, Some(u64::MAX)).expired(u64::MAX));
}

#[test]
fn a_wait_ends_by_signal_then_message_then_deadlines() {
    let soon = Deadline::after(0, Some(1));
    let later = Deadline::after(0, Some(2));
    let never = Deadline::never();
    let data = |quit: bool, now: u64| {
        read_one_message::<u8, u8>(quit, Arrival::Data(7), &soon, &soon, now)
    };
    assert!(matches!(data(true, SECOND), Some(ReadResult::Interrupted)));
    assert!(matches!(data(false, SECOND), Some(ReadResult::Data(7))));
    let pending = |first: &Deadline, hard: &Deadline, now: u64| {
        read_one_message::<u8, u8>(false, Arrival::Waiting, first, hard, now)
    };
    let reading = |first: &Deadline, hard: &Deadline, now: u64| {
        read_one_message::<u8, u8>(false, Arrival::Reading, first, hard, now)
    };
    assert!(reading(&soon, &later, SECOND).is_none());
    assert!(matches!(
        reading(&soon, &later, 2 * SECOND),
        Some(ReadResult::MaxTimeReached)
    ));
    assert!(pending(&soon, &later, SECOND - 1).is_none());
    assert!(matches!(
        pending(&soon, &soon, SECOND),
        Some(ReadResult::TimedOut)
    ));
    assert!(matches!(
        pending(&later, &soon, SECOND),
        Some(ReadResult::MaxTimeReached)
    ));
    assert!(pending(&never, &never, u64::MAX).is_none());
    assert!(matches!(
        read_one_message::<u8, u8>(false, Arrival::ReadFailed(1), &soon, &soon, SECOND),
        Some(ReadResult::Failed(_))
    ));
}

#[test]
fn paths_are_the_same_where_the_standard_library_says_so() {
    let paths = [
        "", ".", "./", "/", "//", "/.", "a", "./a", "a/", "a/.", "a//", "/a", "//a", "/./a", "a/b",
        "a//b", "a/./b", "a/b/", "a/b/.", "./a/b", "a/../b", "a/..", "..", "../", "./..", "/..",
        "a/ b", "a /b", "a/.b", "a/b.", "a/...", "...", "\u{e9}/b", "a\\b", "/a/b", "/tmp/x.fifo",
        "/tmp//x.fifo", "/tmp/./x.fifo", "/tmp/x.fifo/",
    ];
    for one in paths {
        for other in paths {
            assert_eq!(
                path_key(one).same(&path_key(other)),
                Path::new(one) == Path::new(other),
                "{one:?} and {other:?}"
            );
        }
    }
}

#[test]
fn numbers_are_written_in_decimal() {
    for n in [0, 7, 9, 10, 42, 99, 100, 1234567890, usize::MAX] {
        assert_eq!(decimal(n), format!("{n}"));
    }
}

#[test]
fn pieces_are_joined() {
    assert_eq!(join3("a", "", "c"), "ac");
    assert_eq!(join_all(&vec![]), "");
    assert_eq!(join_all(&vec!["a\n".to_string(), "b\n".to_string()]), "a\nb\n");
}

#[test]
fn a_thread_is_let_out_before_it_is_waited_for() {
    let mut step = first_step();
    let mut steps = vec![];
    while step != CloseStep::Done {
        steps.push(step);
        step = next_step(step, Remover::Closer, true);
    }
    assert_eq!(
        steps,
        vec![
            CloseStep::RaiseStop,
            CloseStep::Unblock,
            CloseStep::Remove,
            CloseStep::Join
        ]
    );
    for remover in [Remover::Closer, Remover::Thread] {
        for let_out in [false, true] {
            assert_eq!(next_step(CloseStep::Done, remover, let_out), CloseStep::Done);
            assert_eq!(
                next_step(CloseStep::RaiseStop, remover, let_out),
                CloseStep::Unblock
            );
            assert_eq!(next_step(CloseStep::Join, remover, let_out), CloseStep::Done);
        }
    }
    assert_eq!(
        next_step(CloseStep::Unblock, Remover::Closer, false),
        CloseStep::Remove
    );
    assert_eq!(
        next_step(CloseStep::Remove, Remover::Closer, false),
        CloseStep::Done
    );
    assert_eq!(
        next_step(CloseStep::Unblock, Remover::Thread, false),
        CloseStep::Join
    );
}

#[test]
fn a_reading_thread_passes_on_what_is_not_empty() {
    assert!(matches!(
        feed(FeedEvent::Turn { stop: false }),
        FeedAction::Open
    ));
    assert!(matches!(
        feed(FeedEvent::Turn { stop: true }),
        FeedAction::Exit
    ));
    assert!(matches!(feed(FeedEvent::Opened), FeedAction::Read));
    assert!(feed(FeedEvent::Opened).is_busy());
    assert!(feed(FeedEvent::Read(b"x".to_vec())).is_busy());
    assert!(!feed(FeedEvent::Read(vec![])).is_busy());
    assert!(!feed(FeedEvent::Sent).is_busy());
    assert!(matches!(feed(FeedEvent::Read(vec![])), FeedAction::Turn));
    match feed(FeedEvent::Read(b"x".to_vec())) {
        FeedAction::Send(data) => assert_eq!(data, b"x"),
        _ => panic!("it should be passed on"),
    }
    assert!(matches!(feed(FeedEvent::Sent), FeedAction::Turn));
    assert!(matches!(feed(FeedEvent::Unwanted), FeedAction::Exit));
    assert!(matches!(feed(FeedEvent::OpenFailed), FeedAction::Exit));
    assert!(matches!(feed(FeedEvent::ReadFailed), FeedAction::Exit));
}
