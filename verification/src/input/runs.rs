//! What holds of a read command over all that it is told, in any order.
use crate::cli::Exit;
use crate::create::{CreateError, Mkfifo, Stat};
use crate::input::{InputAction, InputEnd, InputEvent, InputPhase, InputState};
use crate::reader::{Arrival, ReadError};
use vstd::prelude::*;

verus! {

/// The command after a run of events.
pub open spec fn run<T>(start: InputState<T>, events: Seq<InputEvent<Seq<u8>, T>>) -> InputState<T>
    decreases events.len(),
{
    if events.len() == 0 {
        start
    } else {
        run(start, events.drop_last()).step(events.last()).0
    }
}

/// What the command asked for in a run, one action for each event.
pub open spec fn actions<T>(start: InputState<T>, events: Seq<InputEvent<Seq<u8>, T>>) -> Seq<
    InputAction<Seq<u8>>,
>
    decreases events.len(),
{
    if events.len() == 0 {
        Seq::empty()
    } else {
        actions(start, events.drop_last()).push(
            run(start, events.drop_last()).step(events.last()).1,
        )
    }
}

/// The messages that the command took in a run: those that came while it listened and no
/// signal asked to end.
pub open spec fn taken<T>(start: InputState<T>, events: Seq<InputEvent<Seq<u8>, T>>) -> Seq<Seq<u8>>
    decreases events.len(),
{
    if events.len() == 0 {
        Seq::empty()
    } else {
        let before = taken(start, events.drop_last());
        match events.last() {
            InputEvent::Polled { quit: false, arrival: Arrival::Data(data), .. } if run(
                start,
                events.drop_last(),
            ).phase is Listening => before.push(data),
            _ => before,
        }
    }
}

/// What was printed, piece by piece.
pub open spec fn printed(done: Seq<InputAction<Seq<u8>>>) -> Seq<Seq<u8>>
    decreases done.len(),
{
    if done.len() == 0 {
        Seq::empty()
    } else {
        let before = printed(done.drop_last());
        match done.last() {
            InputAction::Print(data) => before.push(data),
            _ => before,
        }
    }
}

/// The part of what was asked for that ends the command.
pub open spec fn ending(done: Seq<InputAction<Seq<u8>>>) -> Seq<InputAction<Seq<u8>>>
    decreases done.len(),
{
    if done.len() == 0 {
        Seq::empty()
    } else {
        let before = ending(done.drop_last());
        match done.last() {
            InputAction::Remove | InputAction::Exit => before.push(done.last()),
            _ => before,
        }
    }
}

/// When the command made its FIFO.
pub open spec fn made_at<T>(
    start: InputState<T>,
    events: Seq<InputEvent<Seq<u8>, T>>,
) -> Option<u64>
    decreases events.len(),
{
    if events.len() == 0 {
        None
    } else {
        match events.last() {
            InputEvent::Mkfifo { outcome: Mkfifo::Created, now } if run(
                start,
                events.drop_last(),
            ).phase is Creating => Some(now),
            _ => made_at(start, events.drop_last()),
        }
    }
}

/// Whether a writer was seen to have come while the command listened.
pub open spec fn connected<T>(start: InputState<T>, events: Seq<InputEvent<Seq<u8>, T>>) -> bool
    decreases events.len(),
{
    events.len() > 0 && (connected(start, events.drop_last()) || (run(
        start,
        events.drop_last(),
    ).phase is Listening && events.last() matches InputEvent::Polled {
        quit: false,
        arrival: Arrival::Reading,
        ..
    }))
}

/// How the command is ending or has ended.
pub open spec fn outcome<T>(phase: InputPhase<T>) -> Option<InputEnd<T>> {
    match phase {
        InputPhase::Removing(end) => Some(end),
        InputPhase::Ended(end) => Some(end),
        _ => None,
    }
}

/// What holds of a command in each phase.
proof fn shape_of_a_run<T>(
    linger: bool,
    timeout: Option<u64>,
    max_time: Option<u64>,
    events: Seq<InputEvent<Seq<u8>, T>>,
)
    ensures
        ({
            let start = crate::input::new_input::<T>(linger, timeout, max_time);
            let s = run(start, events);
            let made = made_at(start, events);
            let messages = taken(start, events).len();
            &&& s.linger == linger && s.timeout == timeout && s.max_time == max_time
            &&& s.phase is Creating || s.phase is Checking || outcome(s.phase) matches Some(
                InputEnd::Refused(_),
            ) <==> made is None
            &&& made is None ==> messages == 0 && !connected(start, events)
            &&& made matches Some(t0) ==> s.max_deadline == crate::deadline::limit_from(
                t0 as int,
                max_time,
            )
            &&& s.phase is Listening ==> s.deadline == if messages == 0 && !connected(
                start,
                events,
            ) {
                crate::deadline::limit_from(made.unwrap() as int, timeout)
            } else {
                None
            }
            &&& s.phase is Printing ==> messages > 0
            &&& s.phase is Listening && !linger ==> messages == 0
            &&& !linger ==> messages <= 1
            &&& outcome(s.phase) == Some(InputEnd::<T>::TimedOut) ==> messages == 0 && !connected(
                start,
                events,
            )
            &&& s.phase matches InputPhase::Removing(end) ==> !(end is Refused)
        }),
    decreases events.len(),
{
    if events.len() > 0 {
        shape_of_a_run(linger, timeout, max_time, events.drop_last());
    }
}

/// Everything that a read command takes it prints, framed, in the order in which it came,
/// and it prints nothing else.
pub proof fn every_message_is_printed<T>(
    linger: bool,
    timeout: Option<u64>,
    max_time: Option<u64>,
    events: Seq<InputEvent<Seq<u8>, T>>,
)
    ensures
        ({
            let start = crate::input::new_input::<T>(linger, timeout, max_time);
            printed(actions(start, events)) == taken(start, events).map_values(
                |data: Seq<u8>| crate::frame::framed(data),
            )
        }),
    decreases events.len(),
{
    let start = crate::input::new_input::<T>(linger, timeout, max_time);
    let framing = |data: Seq<u8>| crate::frame::framed(data);
    if events.len() == 0 {
        assert(taken(start, events).map_values(framing) =~= Seq::empty());
    } else {
        let earlier = events.drop_last();
        every_message_is_printed(linger, timeout, max_time, earlier);
        assert(actions(start, events).drop_last() =~= actions(start, earlier));
        assert(printed(actions(start, events)) =~= taken(start, events).map_values(framing));
    }
}

/// A read command that does not linger takes one message at most; one that has taken its
/// message listens no more.
pub proof fn without_lingering_one_message_is_taken<T>(
    timeout: Option<u64>,
    max_time: Option<u64>,
    events: Seq<InputEvent<Seq<u8>, T>>,
)
    ensures
        ({
            let start = crate::input::new_input::<T>(false, timeout, max_time);
            &&& taken(start, events).len() <= 1
            &&& taken(start, events).len() == 1 ==> !(run(start, events).phase is Listening)
        }),
{
    shape_of_a_run(false, timeout, max_time, events);
}

/// A read command that lingers listens again once a message is printed, unless its maximum
/// time has passed by then; so messages without a pause do not keep it beyond that time.
pub proof fn a_lingering_command_listens_again<T>(
    timeout: Option<u64>,
    max_time: Option<u64>,
    events: Seq<InputEvent<Seq<u8>, T>>,
    now: u64,
)
    requires
        run(crate::input::new_input::<T>(true, timeout, max_time), events).phase is Printing,
    ensures
        ({
            let start = crate::input::new_input::<T>(true, timeout, max_time);
            let after = run(start, events.push(InputEvent::Printed(now))).phase;
            let t0 = made_at(start, events).unwrap() as int;
            let over = crate::deadline::reached(
                crate::deadline::limit_from(t0, max_time),
                now as int,
            );
            &&& made_at(start, events) is Some
            &&& over ==> after == InputPhase::<T>::Removing(InputEnd::Done)
            &&& !over ==> after is Listening
        }),
{
    shape_of_a_run(true, timeout, max_time, events);
    assert(events.push(InputEvent::Printed(now)).drop_last() =~= events);
}

/// Only a read command to which no writer ever came times out: not one that took a message,
/// nor one that saw a writer.
pub proof fn a_writer_ends_the_timeout<T>(
    linger: bool,
    timeout: Option<u64>,
    max_time: Option<u64>,
    events: Seq<InputEvent<Seq<u8>, T>>,
)
    ensures
        ({
            let start = crate::input::new_input::<T>(linger, timeout, max_time);
            taken(start, events).len() > 0 || connected(start, events) ==> outcome(
                run(start, events).phase,
            ) != Some(InputEnd::<T>::TimedOut)
        }),
{
    shape_of_a_run(linger, timeout, max_time, events);
}

/// A look at a read that is still going on ends the command exactly where a limit has been
/// reached: by a timeout where no writer is there or ever came and the timeout has passed,
/// cleanly where the maximum time has passed otherwise. Neither writers nor messages put the
/// maximum time off.
pub proof fn limits_end_the_wait<T>(
    linger: bool,
    timeout: Option<u64>,
    max_time: Option<u64>,
    events: Seq<InputEvent<Seq<u8>, T>>,
    arrival: Arrival<Seq<u8>, T>,
    now: u64,
)
    requires
        run(crate::input::new_input::<T>(linger, timeout, max_time), events).phase is Listening,
        arrival is Waiting || arrival is Reading,
    ensures
        ({
            let start = crate::input::new_input::<T>(linger, timeout, max_time);
            let look = InputEvent::Polled { quit: false, arrival, now };
            let after = run(start, events.push(look)).phase;
            let t0 = made_at(start, events).unwrap() as int;
            let late = arrival is Waiting && !connected(start, events) && taken(
                start,
                events,
            ).len() == 0 && crate::deadline::reached(
                crate::deadline::limit_from(t0, timeout),
                now as int,
            );
            let over = crate::deadline::reached(
                crate::deadline::limit_from(t0, max_time),
                now as int,
            );
            &&& made_at(start, events) is Some
            &&& late ==> after == InputPhase::<T>::Removing(InputEnd::TimedOut)
            &&& !late && over ==> after == InputPhase::<T>::Removing(InputEnd::Done)
            &&& !late && !over ==> after is Listening
        }),
{
    let look = InputEvent::Polled { quit: false, arrival, now };
    shape_of_a_run(linger, timeout, max_time, events);
    assert(events.push(look).drop_last() =~= events);
}

/// A limit of zero seconds acts as one that is left out: the command asks for the same and
/// is in the same phase, whatever it is told.
pub proof fn a_limit_of_zero_acts_as_none<T>(
    linger: bool,
    timeout: Option<u64>,
    max_time: Option<u64>,
    events: Seq<InputEvent<Seq<u8>, T>>,
)
    ensures
        ({
            let zero = crate::input::new_input::<T>(linger, Some(0), max_time);
            let none = crate::input::new_input::<T>(linger, None, max_time);
            &&& actions(zero, events) == actions(none, events)
            &&& run(zero, events) == (InputState { timeout: Some(0), ..run(none, events) })
            &&& run(none, events).timeout is None
        }),
        ({
            let zero = crate::input::new_input::<T>(linger, timeout, Some(0));
            let none = crate::input::new_input::<T>(linger, timeout, None);
            &&& actions(zero, events) == actions(none, events)
            &&& run(zero, events) == (InputState { max_time: Some(0), ..run(none, events) })
            &&& run(none, events).max_time is None
        }),
    decreases events.len(),
{
    if events.len() > 0 {
        a_limit_of_zero_acts_as_none(linger, timeout, max_time, events.drop_last());
    }
}

/// A signal ends a listening command cleanly, whatever has been read.
pub proof fn a_signal_ends_the_wait<T>(
    linger: bool,
    timeout: Option<u64>,
    max_time: Option<u64>,
    events: Seq<InputEvent<Seq<u8>, T>>,
    arrival: Arrival<Seq<u8>, T>,
    now: u64,
)
    requires
        run(crate::input::new_input::<T>(linger, timeout, max_time), events).phase is Listening,
    ensures
        run(
            crate::input::new_input::<T>(linger, timeout, max_time),
            events.push(InputEvent::Polled { quit: true, arrival, now }),
        ).phase == InputPhase::<T>::Removing(InputEnd::Done),
{
    assert(events.push(InputEvent::Polled { quit: true, arrival, now }).drop_last() =~= events);
}

/// What a read command has asked for to end, in each phase.
pub open spec fn ending_so_far<T>(phase: InputPhase<T>) -> Seq<InputAction<Seq<u8>>> {
    match phase {
        InputPhase::Removing(_) => seq![InputAction::Remove],
        InputPhase::Ended(InputEnd::Refused(_)) => seq![InputAction::Exit],
        InputPhase::Ended(_) => seq![InputAction::Remove, InputAction::Exit],
        _ => Seq::empty(),
    }
}

/// A read command removes its FIFO on every way out, once, and before it exits; a FIFO
/// that it did not make it never removes.
pub proof fn the_fifo_is_removed_on_every_way_out<T>(
    linger: bool,
    timeout: Option<u64>,
    max_time: Option<u64>,
    events: Seq<InputEvent<Seq<u8>, T>>,
)
    ensures
        ({
            let start = crate::input::new_input::<T>(linger, timeout, max_time);
            let s = run(start, events);
            &&& ending(actions(start, events)) == ending_so_far(s.phase)
            &&& made_at(start, events) is None <==> s.phase is Creating || s.phase is Checking
                || s.phase matches InputPhase::Ended(InputEnd::Refused(_))
        }),
    decreases events.len(),
{
    let start = crate::input::new_input::<T>(linger, timeout, max_time);
    shape_of_a_run(linger, timeout, max_time, events);
    if events.len() > 0 {
        let earlier = events.drop_last();
        the_fifo_is_removed_on_every_way_out(linger, timeout, max_time, earlier);
        shape_of_a_run(linger, timeout, max_time, earlier);
        assert(actions(start, events).drop_last() =~= actions(start, earlier));
        assert(ending(actions(start, events)) =~= ending_so_far(run(start, events).phase));
    }
}

/// What the command asked for last.
pub open spec fn asked<T>(
    start: InputState<T>,
    events: Seq<InputEvent<Seq<u8>, T>>,
) -> InputAction<Seq<u8>>
    decreases events.len(),
{
    if events.len() == 0 {
        start.first_action()
    } else {
        let action = run(start, events.drop_last()).step(events.last()).1;
        if action is Nothing {
            asked(start, events.drop_last())
        } else {
            action
        }
    }
}

/// Whether an event is an answer to what was asked for.
pub open spec fn answers<T>(action: InputAction<Seq<u8>>, event: InputEvent<Seq<u8>, T>) -> bool {
    match action {
        InputAction::Mkfifo => event is Mkfifo,
        InputAction::Stat => event is Stat,
        InputAction::Listen | InputAction::Wait => event is Polled,
        InputAction::Print(_) => event is Printed || event is PrintFailed,
        InputAction::Remove => event is Removed,
        InputAction::Exit | InputAction::Nothing => false,
    }
}

/// A read command waits for what it asked for last, and for nothing else: it goes on exactly
/// when it is told of that, and otherwise stays as it is and asks for nothing. It asks for
/// `mkfifo` first. It starts a read when the FIFO was made and when a message was printed, and
/// waits on for one exactly where that read is still going on.
pub proof fn a_command_waits_for_what_it_asked_for<T>(
    linger: bool,
    timeout: Option<u64>,
    max_time: Option<u64>,
    events: Seq<InputEvent<Seq<u8>, T>>,
    event: InputEvent<Seq<u8>, T>,
)
    ensures
        ({
            let start = crate::input::new_input::<T>(linger, timeout, max_time);
            let s = run(start, events);
            let last = asked(start, events);
            &&& start.first_action() is Mkfifo
            &&& match s.phase {
                InputPhase::Creating => last is Mkfifo,
                InputPhase::Checking => last is Stat,
                InputPhase::Listening => last is Listen || last is Wait,
                InputPhase::Printing => last is Print,
                InputPhase::Removing(_) => last is Remove,
                InputPhase::Ended(_) => last is Exit,
            }
            &&& s.step(event).1 is Nothing <==> !answers(last, event)
            &&& s.step(event).1 is Nothing ==> s.step(event).0 == s
            &&& s.step(event).1 is Listen <==> s.step(event).0.phase is Listening && (
            s.phase is Creating || s.phase is Printing)
            &&& s.step(event).1 is Wait <==> s.step(event).0.phase is Listening && s.phase
                is Listening && event is Polled
            &&& s.step(event).1 is Wait ==> (event matches InputEvent::Polled {
                quit: false,
                arrival,
                ..
            } && (arrival is Waiting || arrival is Reading))
        }),
    decreases events.len(),
{
    if events.len() > 0 {
        a_command_waits_for_what_it_asked_for(
            linger,
            timeout,
            max_time,
            events.drop_last(),
            event,
        );
        a_command_waits_for_what_it_asked_for(
            linger,
            timeout,
            max_time,
            events.drop_last(),
            events.last(),
        );
    }
}

/// How often the command started a read.
pub open spec fn reads_started(done: Seq<InputAction<Seq<u8>>>) -> nat
    decreases done.len(),
{
    if done.len() == 0 {
        0
    } else {
        reads_started(done.drop_last()) + if done.last() is Listen {
            1nat
        } else {
            0nat
        }
    }
}

/// A read command starts a new read for every message: while it listens, it has started one
/// read more than it has taken messages, and while it prints one, as many as messages.
pub proof fn every_message_has_its_own_read<T>(
    linger: bool,
    timeout: Option<u64>,
    max_time: Option<u64>,
    events: Seq<InputEvent<Seq<u8>, T>>,
)
    ensures
        ({
            let start = crate::input::new_input::<T>(linger, timeout, max_time);
            let s = run(start, events);
            let reads = reads_started(actions(start, events));
            &&& s.phase is Listening ==> reads == taken(start, events).len() + 1 && reads
                == printed(actions(start, events)).len() + 1
            &&& s.phase is Printing ==> reads == taken(start, events).len() && reads == printed(
                actions(start, events),
            ).len()
            &&& s.phase is Creating || s.phase is Checking ==> reads == 0
        }),
    decreases events.len(),
{
    let start = crate::input::new_input::<T>(linger, timeout, max_time);
    every_message_is_printed(linger, timeout, max_time, events);
    shape_of_a_run(linger, timeout, max_time, events);
    if events.len() > 0 {
        let earlier = events.drop_last();
        every_message_has_its_own_read(linger, timeout, max_time, earlier);
        shape_of_a_run(linger, timeout, max_time, earlier);
        assert(actions(start, events).drop_last() =~= actions(start, earlier));
    }
}

/// A command that has begun to end ends as it began to, whatever it is told.
pub proof fn a_command_ends_as_it_began_to<T>(s: InputState<T>, event: InputEvent<Seq<u8>, T>)
    ensures
        outcome(s.phase) is Some ==> outcome(s.step(event).0.phase) == outcome(s.phase),
        s.phase matches InputPhase::Ended(_) ==> s.step(event).0 == s,
{
}

/// Why a read command ends: each failure with what the system said of it; one that does not
/// linger with its first message.
pub proof fn a_command_ends_for_what_it_was_told<T>(
    s: InputState<T>,
    reason: T,
    data: Seq<u8>,
    now: u64,
)
    ensures
        s.phase is Creating ==> {
            &&& s.step(
                InputEvent::Mkfifo { outcome: Mkfifo::Created, now },
            ).0.phase is Listening
            &&& s.step(
                InputEvent::Mkfifo { outcome: Mkfifo::AlreadyExists, now },
            ).0.phase is Checking
            &&& s.step(
                InputEvent::Mkfifo { outcome: Mkfifo::NulByte(reason), now },
            ).0.phase == InputPhase::Ended(InputEnd::Refused(CreateError::NulByte(reason)))
            &&& s.step(InputEvent::Mkfifo { outcome: Mkfifo::Failed(reason), now }).0.phase
                == InputPhase::Ended(InputEnd::Refused(CreateError::Failed(reason)))
        },
        s.phase is Checking ==> {
            &&& s.step(InputEvent::Stat(Stat::Fifo)).0.phase == InputPhase::<T>::Ended(
                InputEnd::Refused(CreateError::ExistsAsFifo),
            )
            &&& s.step(InputEvent::Stat(Stat::NotFifo)).0.phase == InputPhase::<T>::Ended(
                InputEnd::Refused(CreateError::ExistsNotFifo),
            )
            &&& s.step(InputEvent::Stat(Stat::Failed(reason))).0.phase == InputPhase::Ended(
                InputEnd::Refused(CreateError::CannotStat(reason)),
            )
        },
        s.phase is Listening ==> {
            &&& s.step(
                InputEvent::Polled { quit: false, arrival: Arrival::OpenFailed(reason), now },
            ).0.phase == InputPhase::Removing(InputEnd::Failed(ReadError::Open(reason)))
            &&& s.step(
                InputEvent::Polled { quit: false, arrival: Arrival::ReadFailed(reason), now },
            ).0.phase == InputPhase::Removing(InputEnd::Failed(ReadError::Read(reason)))
            &&& s.step(
                InputEvent::Polled { quit: false, arrival: Arrival::Data(data), now },
            ).1 == InputAction::Print(crate::frame::framed(data))
        },
        s.phase is Printing ==> {
            &&& s.step(InputEvent::PrintFailed(reason)).0.phase == InputPhase::Removing(
                InputEnd::PrintFailed(reason),
            )
            &&& !s.linger ==> s.step(InputEvent::Printed(now)).0.phase == InputPhase::<
                T,
            >::Removing(InputEnd::Done)
        },
{
}

/// How a read command leaves: with success exactly where it ended as it should, with the code
/// of a timeout and a complaint that names the path exactly where no writer came, and otherwise
/// with an error that says what failed and why.
pub proof fn a_read_command_leaves_by_its_end(end: InputEnd<Seq<char>>, path: Seq<char>)
    ensures
        ({
            let exit = crate::input::input_exit(end, path);
            &&& exit.code_of() == 0 <==> end is Done
            &&& exit.code_of() == 124 <==> end is TimedOut
            &&& exit.code_of() == 1 <==> !(end is Done) && !(end is TimedOut)
            &&& end is TimedOut ==> exit == (Exit::Complaint {
                code: 124,
                text: "error: "@ + ("timed out waiting for writer on '"@ + path + "'"@),
            })
            &&& end matches InputEnd::Refused(error) ==> exit == (Exit::Error {
                headline: crate::create::refusal_headline(error, path),
                cause: error.reason(),
            })
            &&& end matches InputEnd::Failed(error) ==> exit == (Exit::Error {
                headline: crate::reader::read_error_text(error, path),
                cause: None,
            })
            &&& end matches InputEnd::PrintFailed(reason) ==> exit == (Exit::Error {
                headline: "failed to write to stdout"@,
                cause: Some(reason),
            })
        }),
{
}

/// What a read command is told, what it asks for and how it ended is taken as it stands.
pub proof fn input_events_are_taken_as_they_are<T>(
    outcome: Mkfifo<T>,
    found: Stat<T>,
    quit: bool,
    arrival: Arrival<Vec<u8>, T>,
    reason: T,
    now: u64,
    data: Vec<u8>,
)
    ensures
        (InputEvent::<Vec<u8>, T>::Mkfifo { outcome, now })@ == (InputEvent::<
            Seq<u8>,
            T,
        >::Mkfifo { outcome, now }),
        InputEvent::<Vec<u8>, T>::Stat(found)@ == InputEvent::<Seq<u8>, T>::Stat(found),
        (InputEvent::Polled { quit, arrival, now })@ == (InputEvent::Polled {
            quit,
            arrival: arrival@,
            now,
        }),
        InputEvent::<Vec<u8>, T>::Printed(now)@ == InputEvent::<Seq<u8>, T>::Printed(now),
        InputEvent::<Vec<u8>, T>::PrintFailed(reason)@ == InputEvent::<Seq<u8>, T>::PrintFailed(
            reason,
        ),
        InputEvent::<Vec<u8>, T>::Removed@ == InputEvent::<Seq<u8>, T>::Removed,
        InputAction::Print(data)@ == InputAction::Print(data@),
        InputAction::<Vec<u8>>::Mkfifo@ is Mkfifo,
        InputAction::<Vec<u8>>::Stat@ is Stat,
        InputAction::<Vec<u8>>::Listen@ is Listen,
        InputAction::<Vec<u8>>::Wait@ is Wait,
        InputAction::<Vec<u8>>::Remove@ is Remove,
        InputAction::<Vec<u8>>::Exit@ is Exit,
        InputAction::<Vec<u8>>::Nothing@ is Nothing,
{
}

/// How a read command ended is taken as it stands.
pub proof fn input_ends_are_taken_as_they_are(
    error: CreateError<String>,
    failure: ReadError<String>,
    reason: String,
)
    ensures
        InputEnd::<String>::Done@ is Done,
        InputEnd::<String>::TimedOut@ is TimedOut,
        InputEnd::Refused(error)@ == InputEnd::Refused(error@),
        InputEnd::Failed(failure)@ == InputEnd::Failed(failure@),
        InputEnd::PrintFailed(reason)@ == InputEnd::PrintFailed(reason@),
{
}

} // verus!
