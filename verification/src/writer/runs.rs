//! What holds of a writer over all that it is told, in any order.
use crate::cli::Exit;
use crate::writer::{WriteAction, WriteEnd, WriteEvent, WritePhase, WriteState};
use vstd::prelude::*;

verus! {

/// The writer after a run of events.
pub open spec fn run<T>(start: WriteState<T>, events: Seq<WriteEvent<Seq<u8>, T>>) -> WriteState<T>
    decreases events.len(),
{
    if events.len() == 0 {
        start
    } else {
        run(start, events.drop_last()).step(events.last()).0
    }
}

/// What the writer asked for in a run, one action for each event.
pub open spec fn actions<T>(start: WriteState<T>, events: Seq<WriteEvent<Seq<u8>, T>>) -> Seq<
    WriteAction<Seq<u8>>,
>
    decreases events.len(),
{
    if events.len() == 0 {
        Seq::empty()
    } else {
        actions(start, events.drop_last()).push(
            run(start, events.drop_last()).step(events.last()).1,
        )
    }
}

/// What was written.
pub open spec fn written(done: Seq<WriteAction<Seq<u8>>>) -> Seq<Seq<u8>>
    decreases done.len(),
{
    if done.len() == 0 {
        Seq::empty()
    } else {
        let before = written(done.drop_last());
        match done.last() {
            WriteAction::Write(data) => before.push(data),
            _ => before,
        }
    }
}

/// How many seconds were waited.
pub open spec fn slept(done: Seq<WriteAction<Seq<u8>>>) -> nat
    decreases done.len(),
{
    if done.len() == 0 {
        0
    } else {
        slept(done.drop_last()) + if done.last() is Sleep {
            1nat
        } else {
            0nat
        }
    }
}

/// How often the writer looked for the FIFO and did not find it.
pub open spec fn misses<T>(start: WriteState<T>, events: Seq<WriteEvent<Seq<u8>, T>>) -> nat
    decreases events.len(),
{
    if events.len() == 0 {
        0
    } else {
        let before = misses(start, events.drop_last());
        if run(start, events.drop_last()).phase is Probing && events.last() == WriteEvent::<
            Seq<u8>,
            T,
        >::Probed(false) {
            before + 1
        } else {
            before
        }
    }
}

/// Whether the writer found the FIFO.
pub open spec fn found<T>(start: WriteState<T>, events: Seq<WriteEvent<Seq<u8>, T>>) -> bool
    decreases events.len(),
{
    events.len() > 0 && (found(start, events.drop_last()) || (run(
        start,
        events.drop_last(),
    ).phase is Probing && events.last() == WriteEvent::<Seq<u8>, T>::Probed(true)))
}

/// A writer with a timeout looks for the FIFO once at once and once after each second of
/// the timeout. It times out exactly when it has looked that often in vain, and has by then
/// waited all the seconds.
pub proof fn a_writer_looks_once_a_second<T>(
    secs: u64,
    recheck: bool,
    message: Option<Seq<u8>>,
    events: Seq<WriteEvent<Seq<u8>, T>>,
)
    ensures
        ({
            let start = crate::writer::new_writer::<T>(Some(secs), recheck, message);
            let s = run(start, events);
            let vain = misses(start, events);
            &&& vain <= secs + 1
            &&& s.phase == WritePhase::<T>::Ended(WriteEnd::TimedOut) <==> vain == secs + 1
            &&& s.phase != WritePhase::<T>::Ended(WriteEnd::Missing)
            &&& slept(actions(start, events)) == if vain <= secs {
                vain
            } else {
                secs as nat
            }
            &&& s.wait == Some(
                (if vain <= secs {
                    secs - vain
                } else {
                    0
                }) as u64,
            )
        }),
    decreases events.len(),
{
    let start = crate::writer::new_writer::<T>(Some(secs), recheck, message);
    if events.len() > 0 {
        let earlier = events.drop_last();
        a_writer_looks_once_a_second(secs, recheck, message, earlier);
        assert(actions(start, events).drop_last() =~= actions(start, earlier));
    }
}

/// A writer without a timeout looks for the FIFO once, never waits, and gives up exactly
/// when it is not there.
pub proof fn without_a_timeout_the_fifo_has_to_be_there<T>(
    recheck: bool,
    message: Option<Seq<u8>>,
    events: Seq<WriteEvent<Seq<u8>, T>>,
)
    ensures
        ({
            let start = crate::writer::new_writer::<T>(None, recheck, message);
            let s = run(start, events);
            &&& misses(start, events) <= 1
            &&& s.phase == WritePhase::<T>::Ended(WriteEnd::Missing) <==> misses(start, events) == 1
            &&& s.phase != WritePhase::<T>::Ended(WriteEnd::TimedOut)
            &&& slept(actions(start, events)) == 0
            &&& s.wait is None
        }),
    decreases events.len(),
{
    let start = crate::writer::new_writer::<T>(None, recheck, message);
    if events.len() > 0 {
        let earlier = events.drop_last();
        without_a_timeout_the_fifo_has_to_be_there(recheck, message, earlier);
        assert(actions(start, events).drop_last() =~= actions(start, earlier));
    }
}

/// The message of a writer: the one that was given, or else what standard input held when the
/// writer had asked for it.
pub open spec fn message_of<T>(
    start: WriteState<T>,
    given: Option<Seq<u8>>,
    events: Seq<WriteEvent<Seq<u8>, T>>,
) -> Option<Seq<u8>>
    decreases events.len(),
{
    if events.len() == 0 {
        given
    } else {
        match events.last() {
            WriteEvent::StdinRead(data) if run(
                start,
                events.drop_last(),
            ).phase is Buffering => Some(data),
            _ => message_of(start, given, events.drop_last()),
        }
    }
}

/// A writer writes its message whole and once, as it is, and only to a FIFO that it found;
/// the size that it reports is the size of the message.
pub proof fn the_message_is_written_once<T>(
    wait: Option<u64>,
    recheck: bool,
    message: Option<Seq<u8>>,
    events: Seq<WriteEvent<Seq<u8>, T>>,
)
    ensures
        ({
            let start = crate::writer::new_writer::<T>(wait, recheck, message);
            let s = run(start, events);
            let wrote = written(actions(start, events));
            let whole = message_of(start, message, events);
            &&& wrote == match s.phase {
                WritePhase::Writing
                | WritePhase::Ended(WriteEnd::Sent(_))
                | WritePhase::Ended(WriteEnd::WriteFailed(_)) => seq![whole.unwrap()],
                _ => Seq::empty(),
            }
            &&& wrote.len() > 0 ==> whole is Some && found(start, events)
            &&& s.phase matches WritePhase::Ended(WriteEnd::Sent(size)) ==> (whole.unwrap().len()
                <= usize::MAX ==> size == whole.unwrap().len())
        }),
{
    written_so_far(wait, recheck, message, events);
}

/// Where a message is given, it is the message, and standard input is never asked for. Where
/// none is given, standard input is asked for first and once, and neither is the FIFO looked
/// for or opened before all of it is there, nor anything else made the message.
pub proof fn standard_input_is_read_first_or_not_at_all<T>(
    wait: Option<u64>,
    recheck: bool,
    message: Option<Seq<u8>>,
    events: Seq<WriteEvent<Seq<u8>, T>>,
)
    ensures
        ({
            let start = crate::writer::new_writer::<T>(wait, recheck, message);
            let done = actions(start, events);
            &&& start.first_action() is ReadStdin <==> message is None
            &&& forall|i: int| 0 <= i < done.len() ==> !(#[trigger] done[i] is ReadStdin)
            &&& message is Some ==> message_of(start, message, events) == message
            &&& message_of(start, message, events) is None ==> forall|i: int|
                0 <= i < done.len() ==> #[trigger] done[i] is Nothing || done[i] is Exit
        }),
    decreases events.len(),
{
    let start = crate::writer::new_writer::<T>(wait, recheck, message);
    if events.len() > 0 {
        let earlier = events.drop_last();
        standard_input_is_read_first_or_not_at_all(wait, recheck, message, earlier);
        written_so_far(wait, recheck, message, earlier);
        assert(actions(start, events).drop_last() =~= actions(start, earlier));
    }
}

proof fn written_so_far<T>(
    wait: Option<u64>,
    recheck: bool,
    message: Option<Seq<u8>>,
    events: Seq<WriteEvent<Seq<u8>, T>>,
)
    ensures
        ({
            let start = crate::writer::new_writer::<T>(wait, recheck, message);
            let s = run(start, events);
            let whole = message_of(start, message, events);
            &&& s.recheck == recheck
            &&& whole is None <==> (s.phase is Buffering || s.phase matches WritePhase::Ended(
                WriteEnd::StdinFailed(_),
            ))
            &&& s.phase is Buffering ==> message is None
            &&& whole is Some ==> s.size == whole.unwrap().len() as usize
            &&& written(actions(start, events)) == match s.phase {
                WritePhase::Writing
                | WritePhase::Ended(WriteEnd::Sent(_))
                | WritePhase::Ended(WriteEnd::WriteFailed(_)) => seq![whole.unwrap()],
                _ => Seq::empty(),
            }
            &&& s.phase is Probing || s.phase is Sleeping || s.phase is Opening ==> s.data
                == whole.unwrap()
            &&& s.phase is Opening || s.phase is Rechecking || s.phase is Writing ==> found(
                start,
                events,
            )
            &&& s.phase matches WritePhase::Ended(end) ==> (end is Missing || end is TimedOut
                || end is StdinFailed || found(
                start,
                events,
            ))
            &&& s.phase matches WritePhase::Ended(WriteEnd::Sent(size)) ==> size
                == whole.unwrap().len() as usize
        }),
    decreases events.len(),
{
    let start = crate::writer::new_writer::<T>(wait, recheck, message);
    if events.len() > 0 {
        let earlier = events.drop_last();
        written_so_far(wait, recheck, message, earlier);
        assert(actions(start, events).drop_last() =~= actions(start, earlier));
        assert(written(actions(start, events)) =~= match run(start, events).phase {
            WritePhase::Writing
            | WritePhase::Ended(WriteEnd::Sent(_))
            | WritePhase::Ended(WriteEnd::WriteFailed(_)) => seq![
                message_of(start, message, events).unwrap(),
            ],
            _ => Seq::empty(),
        });
    }
}

/// What the writer asked for last.
pub open spec fn asked<T>(
    start: WriteState<T>,
    events: Seq<WriteEvent<Seq<u8>, T>>,
) -> WriteAction<Seq<u8>>
    decreases events.len(),
{
    if events.len() == 0 {
        start.first_action()
    } else {
        let action = run(start, events.drop_last()).step(events.last()).1;
        if action is Nothing {
            asked(start, events.drop_last())
        } else {
            action
        }
    }
}

/// Whether an event is an answer to what was asked for.
pub open spec fn answers<T>(action: WriteAction<Seq<u8>>, event: WriteEvent<Seq<u8>, T>) -> bool {
    match action {
        WriteAction::ReadStdin => event is StdinRead || event is StdinFailed,
        WriteAction::Probe => event is Probed,
        WriteAction::Sleep => event is Slept,
        WriteAction::Open => event is Opened || event is OpenFailed,
        WriteAction::Write(_) => event is Written || event is WriteFailed,
        WriteAction::Exit | WriteAction::Nothing => false,
    }
}

/// A writer waits for what it asked for last, and for nothing else. It opens a FIFO that it
/// found, and no other; after each second that it waited it looks again.
pub proof fn a_writer_waits_for_what_it_asked_for<T>(
    wait: Option<u64>,
    recheck: bool,
    message: Option<Seq<u8>>,
    events: Seq<WriteEvent<Seq<u8>, T>>,
    event: WriteEvent<Seq<u8>, T>,
)
    ensures
        ({
            let start = crate::writer::new_writer::<T>(wait, recheck, message);
            let s = run(start, events);
            let last = asked(start, events);
            &&& s.recheck == recheck
            &&& start.first_action() == if message is None {
                WriteAction::<Seq<u8>>::ReadStdin
            } else {
                WriteAction::<Seq<u8>>::Probe
            }
            &&& match s.phase {
                WritePhase::Buffering => last is ReadStdin,
                WritePhase::Probing => last is Probe,
                WritePhase::Sleeping => last is Sleep,
                WritePhase::Opening => last is Open,
                WritePhase::Rechecking(_) => last is Probe,
                WritePhase::Writing => last is Write,
                WritePhase::Ended(_) => last is Exit,
            }
            &&& s.step(event).1 is Nothing <==> !answers(last, event)
            &&& s.step(event).1 is Nothing ==> s.step(event).0 == s
            &&& s.step(event).1 is Open <==> s.phase is Probing && event == WriteEvent::<
                Seq<u8>,
                T,
            >::Probed(true)
            &&& s.step(event).1 is Write <==> s.phase is Opening && event is Opened
        }),
    decreases events.len(),
{
    if events.len() > 0 {
        a_writer_waits_for_what_it_asked_for(wait, recheck, message, events.drop_last(), event);
        a_writer_waits_for_what_it_asked_for(
            wait,
            recheck,
            message,
            events.drop_last(),
            events.last(),
        );
    }
}

/// Why a writer ends: each failure with what the system said of it. Where an open that failed is
/// looked into, a FIFO that is gone has disappeared, and one that is there could not be opened.
pub proof fn a_writer_ends_for_what_it_was_told<T>(s: WriteState<T>, reason: T)
    ensures
        s.phase is Buffering ==> s.step(WriteEvent::StdinFailed(reason)).0.phase
            == WritePhase::Ended(WriteEnd::StdinFailed(reason)),
        s.phase is Sleeping ==> s.step(WriteEvent::Slept).0.phase is Probing,
        s.phase is Probing ==> s.step(WriteEvent::Probed(true)).0.phase is Opening,
        s.phase is Opening && !s.recheck ==> s.step(WriteEvent::OpenFailed(reason)).0.phase
            == WritePhase::Ended(WriteEnd::OpenFailed(reason)),
        s.phase is Opening && s.recheck ==> {
            let looking = s.step(WriteEvent::OpenFailed(reason)).0;
            &&& s.step(WriteEvent::OpenFailed(reason)).1 is Probe
            &&& looking.step(WriteEvent::Probed(true)).0.phase == WritePhase::Ended(
                WriteEnd::OpenFailed(reason),
            )
            &&& looking.step(WriteEvent::Probed(false)).0.phase == WritePhase::Ended(
                WriteEnd::Disappeared(reason),
            )
        },
        s.phase is Writing ==> s.step(WriteEvent::WriteFailed(reason)).0.phase
            == WritePhase::Ended(WriteEnd::WriteFailed(reason)),
        s.phase is Writing ==> s.step(WriteEvent::Written).0.phase == WritePhase::<T>::Ended(
            WriteEnd::Sent(s.size),
        ),
{
}

/// What the write tool reports: the number of bytes that were written, or why there are none,
/// with the path and with what the system said.
pub proof fn a_write_is_reported(size: usize, path: Seq<char>, reason: Seq<char>)
    ensures
        crate::writer::write_result(WriteEnd::Sent(size), path) == Ok::<usize, Seq<char>>(size),
        crate::writer::write_result(WriteEnd::StdinFailed(reason), path) == Err::<
            usize,
            Seq<char>,
        >("failed to read from stdin: "@ + reason),
        crate::writer::write_result(WriteEnd::Missing, path) == Err::<usize, Seq<char>>(
            "'"@ + path + "' does not exist (no reader listening)"@,
        ),
        crate::writer::write_result(WriteEnd::TimedOut, path) == Err::<usize, Seq<char>>(
            "timed out waiting for '"@ + path + "' to appear (no reader listening)"@,
        ),
        crate::writer::write_result(WriteEnd::Disappeared(reason), path) == Err::<
            usize,
            Seq<char>,
        >("'"@ + path + "' disappeared (no reader listening)"@),
        crate::writer::write_result(WriteEnd::OpenFailed(reason), path) == Err::<
            usize,
            Seq<char>,
        >("failed to open '"@ + path + "' for writing: "@ + reason),
        crate::writer::write_result(WriteEnd::WriteFailed(reason), path) == Err::<
            usize,
            Seq<char>,
        >("failed to write to '"@ + path + "': "@ + reason),
{
}

/// How a write command leaves: with success exactly where the message was written, with the
/// code of a timeout exactly where no FIFO appeared in time, and otherwise with 1; it says which
/// path, and why.
pub proof fn a_write_command_leaves_by_its_end(end: WriteEnd<Seq<char>>, path: Seq<char>)
    ensures
        ({
            let exit = crate::writer::write_exit(end, path);
            &&& exit.code_of() == 0 <==> end is Sent
            &&& exit.code_of() == 124 <==> end is TimedOut
            &&& exit.code_of() == 1 <==> !(end is Sent) && !(end is TimedOut)
            &&& end is Missing ==> exit == (Exit::Complaint {
                code: 1,
                text: "error: "@ + ("'"@ + path + "' does not exist (no reader listening)"@),
            })
            &&& end is TimedOut ==> exit == (Exit::Complaint {
                code: 124,
                text: "error: "@ + ("timed out waiting for '"@ + path
                    + "' to appear (no reader listening)"@),
            })
            &&& end matches WriteEnd::StdinFailed(reason) ==> exit == (Exit::Error {
                headline: "failed to read from stdin"@,
                cause: Some(reason),
            })
            &&& end matches WriteEnd::Disappeared(reason) ==> exit == (Exit::Error {
                headline: "'"@ + path + "' disappeared (no reader listening)"@,
                cause: Some(reason),
            })
            &&& end matches WriteEnd::OpenFailed(reason) ==> exit == (Exit::Error {
                headline: "failed to open '"@ + path + "' for writing"@,
                cause: Some(reason),
            })
            &&& end matches WriteEnd::WriteFailed(reason) ==> exit == (Exit::Error {
                headline: "failed to write to '"@ + path + "'"@,
                cause: Some(reason),
            })
        }),
{
}

/// What a writer is told, what it asks for and how it ended is taken as it stands.
pub proof fn write_events_are_taken_as_they_are<T>(
    data: Vec<u8>,
    reason: T,
    there: bool,
    text: String,
    size: usize,
)
    ensures
        WriteEvent::<Vec<u8>, T>::StdinRead(data)@ == WriteEvent::<Seq<u8>, T>::StdinRead(data@),
        WriteEvent::<Vec<u8>, T>::StdinFailed(reason)@ == WriteEvent::<Seq<u8>, T>::StdinFailed(
            reason,
        ),
        WriteEvent::<Vec<u8>, T>::Probed(there)@ == WriteEvent::<Seq<u8>, T>::Probed(there),
        WriteEvent::<Vec<u8>, T>::Slept@ is Slept,
        WriteEvent::<Vec<u8>, T>::Opened@ is Opened,
        WriteEvent::<Vec<u8>, T>::OpenFailed(reason)@ == WriteEvent::<Seq<u8>, T>::OpenFailed(
            reason,
        ),
        WriteEvent::<Vec<u8>, T>::Written@ is Written,
        WriteEvent::<Vec<u8>, T>::WriteFailed(reason)@ == WriteEvent::<Seq<u8>, T>::WriteFailed(
            reason,
        ),
        WriteAction::Write(data)@ == WriteAction::Write(data@),
        WriteAction::<Vec<u8>>::ReadStdin@ is ReadStdin,
        WriteAction::<Vec<u8>>::Probe@ is Probe,
        WriteAction::<Vec<u8>>::Sleep@ is Sleep,
        WriteAction::<Vec<u8>>::Open@ is Open,
        WriteAction::<Vec<u8>>::Exit@ is Exit,
        WriteAction::<Vec<u8>>::Nothing@ is Nothing,
        WriteEnd::<String>::Sent(size)@ == WriteEnd::<Seq<char>>::Sent(size),
        WriteEnd::StdinFailed(text)@ == WriteEnd::StdinFailed(text@),
        WriteEnd::<String>::Missing@ is Missing,
        WriteEnd::<String>::TimedOut@ is TimedOut,
        WriteEnd::Disappeared(text)@ == WriteEnd::Disappeared(text@),
        WriteEnd::OpenFailed(text)@ == WriteEnd::OpenFailed(text@),
        WriteEnd::WriteFailed(text)@ == WriteEnd::WriteFailed(text@),
{
}

} // verus!
