//! What holds of the reading of one message over all that it is told, in any order.
use crate::create::{CreateError, Mkfifo, Stat};
use crate::oneshot::{OneshotAction, OneshotEnd, OneshotEvent, OneshotPhase, OneshotState};
use crate::reader::{Arrival, ReadError};
use vstd::prelude::*;

verus! {

/// The reading after a run of events.
pub open spec fn run<D, T>(
    start: OneshotState<D, T>,
    events: Seq<OneshotEvent<D, T>>,
) -> OneshotState<D, T>
    decreases events.len(),
{
    if events.len() == 0 {
        start
    } else {
        run(start, events.drop_last()).step(events.last()).0
    }
}

/// What was asked for in a run, one action for each event.
pub open spec fn actions<D, T>(
    start: OneshotState<D, T>,
    events: Seq<OneshotEvent<D, T>>,
) -> Seq<OneshotAction>
    decreases events.len(),
{
    if events.len() == 0 {
        Seq::empty()
    } else {
        actions(start, events.drop_last()).push(
            run(start, events.drop_last()).step(events.last()).1,
        )
    }
}

/// The part of what was asked for that ends the reading.
pub open spec fn ending(done: Seq<OneshotAction>) -> Seq<OneshotAction>
    decreases done.len(),
{
    if done.len() == 0 {
        Seq::empty()
    } else {
        let before = ending(done.drop_last());
        match done.last() {
            OneshotAction::Remove | OneshotAction::Exit => before.push(done.last()),
            _ => before,
        }
    }
}

/// When the FIFO was made.
pub open spec fn made_at<D, T>(
    start: OneshotState<D, T>,
    events: Seq<OneshotEvent<D, T>>,
) -> Option<u64>
    decreases events.len(),
{
    if events.len() == 0 {
        None
    } else {
        match events.last() {
            OneshotEvent::Mkfifo { outcome: Mkfifo::Created, now } if run(
                start,
                events.drop_last(),
            ).phase is Creating => Some(now),
            _ => made_at(start, events.drop_last()),
        }
    }
}

/// The first message that came while the reading listened.
pub open spec fn taken<D, T>(
    start: OneshotState<D, T>,
    events: Seq<OneshotEvent<D, T>>,
) -> Option<D>
    decreases events.len(),
{
    if events.len() == 0 {
        None
    } else {
        match events.last() {
            OneshotEvent::Polled { arrival: Arrival::Data(data), .. } if run(
                start,
                events.drop_last(),
            ).phase is Listening => Some(data),
            _ => taken(start, events.drop_last()),
        }
    }
}

/// Whether a writer was seen to have come while the reading listened.
pub open spec fn connected<D, T>(
    start: OneshotState<D, T>,
    events: Seq<OneshotEvent<D, T>>,
) -> bool
    decreases events.len(),
{
    events.len() > 0 && (connected(start, events.drop_last()) || (run(
        start,
        events.drop_last(),
    ).phase is Listening && events.last() matches OneshotEvent::Polled {
        arrival: Arrival::Reading,
        ..
    }))
}

/// How the reading is ending or has ended.
pub open spec fn outcome<D, T>(phase: OneshotPhase<D, T>) -> Option<OneshotEnd<D, T>> {
    match phase {
        OneshotPhase::Removing(end) => Some(end),
        OneshotPhase::Ended(end) => Some(end),
        _ => None,
    }
}

proof fn shape_of_a_run<D, T>(timeout: u64, events: Seq<OneshotEvent<D, T>>)
    ensures
        ({
            let start = crate::oneshot::new_oneshot::<D, T>(timeout);
            let s = run(start, events);
            let made = made_at(start, events);
            &&& s.timeout == timeout
            &&& s.phase is Creating || s.phase is Checking || outcome(s.phase) matches Some(
                OneshotEnd::Refused(_),
            ) <==> made is None
            &&& made is None ==> !connected(start, events)
            &&& s.phase is Listening ==> s.deadline == if connected(start, events) {
                None
            } else {
                crate::deadline::limit_from(made.unwrap() as int, Some(timeout))
            }
            &&& outcome(s.phase) == Some(OneshotEnd::<D, T>::TimedOut) ==> !connected(start, events)
            &&& s.phase matches OneshotPhase::Removing(end) ==> !(end is Refused)
            &&& outcome(s.phase) is None || made is None ==> taken(start, events) is None
        }),
    decreases events.len(),
{
    if events.len() > 0 {
        shape_of_a_run(timeout, events.drop_last());
    }
}

/// The reading ends with a message exactly where one came while it listened, and with
/// that one.
pub proof fn the_first_message_is_the_result<D, T>(timeout: u64, events: Seq<OneshotEvent<D, T>>)
    ensures
        ({
            let start = crate::oneshot::new_oneshot::<D, T>(timeout);
            match outcome(run(start, events).phase) {
                Some(OneshotEnd::Message(data)) => taken(start, events) == Some(data),
                _ => taken(start, events) is None,
            }
        }),
    decreases events.len(),
{
    if events.len() > 0 {
        the_first_message_is_the_result(timeout, events.drop_last());
        shape_of_a_run(timeout, events.drop_last());
    }
}

/// A look that finds no writer times the reading out exactly where no writer was ever seen,
/// a timeout was given and its seconds have passed; with a timeout of zero the wait goes on
/// forever.
pub proof fn the_timeout_ends_the_wait<D, T>(
    timeout: u64,
    events: Seq<OneshotEvent<D, T>>,
    now: u64,
)
    requires
        run(crate::oneshot::new_oneshot::<D, T>(timeout), events).phase is Listening,
    ensures
        ({
            let start = crate::oneshot::new_oneshot::<D, T>(timeout);
            let look = OneshotEvent::Polled { arrival: Arrival::Waiting, now };
            let after = run(start, events.push(look)).phase;
            let t0 = made_at(start, events).unwrap() as int;
            let late = !connected(start, events) && timeout > 0 && now - t0 >= timeout
                * 1_000_000_000;
            &&& made_at(start, events) is Some
            &&& late ==> after == OneshotPhase::<D, T>::Removing(OneshotEnd::TimedOut)
            &&& !late ==> after is Listening
        }),
{
    let look = OneshotEvent::<D, T>::Polled { arrival: Arrival::Waiting, now };
    shape_of_a_run(timeout, events);
    assert(events.push(look).drop_last() =~= events);
}

/// A writer that has come is waited for until it has gone, however long it takes: no look
/// ends the reading while the writer is there, and no reading to which one came times out.
pub proof fn a_writer_that_has_come_is_not_timed_out<D, T>(
    timeout: u64,
    events: Seq<OneshotEvent<D, T>>,
    now: u64,
)
    ensures
        ({
            let start = crate::oneshot::new_oneshot::<D, T>(timeout);
            let look = OneshotEvent::Polled { arrival: Arrival::Reading, now };
            &&& connected(start, events) ==> outcome(run(start, events).phase) != Some(
                OneshotEnd::<D, T>::TimedOut,
            )
            &&& run(start, events).phase is Listening ==> run(
                start,
                events.push(look),
            ).phase is Listening
        }),
{
    let look = OneshotEvent::<D, T>::Polled { arrival: Arrival::Reading, now };
    shape_of_a_run(timeout, events);
    assert(events.push(look).drop_last() =~= events);
}

/// What has been asked for to end, in each phase.
pub open spec fn ending_so_far<D, T>(phase: OneshotPhase<D, T>) -> Seq<OneshotAction> {
    match phase {
        OneshotPhase::Removing(_) => seq![OneshotAction::Remove],
        OneshotPhase::Ended(OneshotEnd::Refused(_)) => seq![OneshotAction::Exit],
        OneshotPhase::Ended(_) => seq![OneshotAction::Remove, OneshotAction::Exit],
        _ => Seq::empty(),
    }
}

/// The FIFO is removed on every way out, once, and before the reading is over; a FIFO that
/// it did not make it never removes.
pub proof fn the_fifo_is_removed_on_every_way_out<D, T>(
    timeout: u64,
    events: Seq<OneshotEvent<D, T>>,
)
    ensures
        ({
            let start = crate::oneshot::new_oneshot::<D, T>(timeout);
            let s = run(start, events);
            &&& ending(actions(start, events)) == ending_so_far(s.phase)
            &&& made_at(start, events) is None <==> s.phase is Creating || s.phase is Checking
                || s.phase matches OneshotPhase::Ended(OneshotEnd::Refused(_))
        }),
    decreases events.len(),
{
    let start = crate::oneshot::new_oneshot::<D, T>(timeout);
    shape_of_a_run(timeout, events);
    if events.len() > 0 {
        let earlier = events.drop_last();
        the_fifo_is_removed_on_every_way_out(timeout, earlier);
        shape_of_a_run(timeout, earlier);
        assert(actions(start, events).drop_last() =~= actions(start, earlier));
        assert(ending(actions(start, events)) =~= ending_so_far(run(start, events).phase));
    }
}

/// What was asked for last.
pub open spec fn asked<D, T>(
    start: OneshotState<D, T>,
    events: Seq<OneshotEvent<D, T>>,
) -> OneshotAction
    decreases events.len(),
{
    if events.len() == 0 {
        start.first_action()
    } else {
        let action = run(start, events.drop_last()).step(events.last()).1;
        if action is Nothing {
            asked(start, events.drop_last())
        } else {
            action
        }
    }
}

/// Whether an event is an answer to what was asked for.
pub open spec fn answers<D, T>(action: OneshotAction, event: OneshotEvent<D, T>) -> bool {
    match action {
        OneshotAction::Mkfifo => event is Mkfifo,
        OneshotAction::Stat => event is Stat,
        OneshotAction::Listen | OneshotAction::Wait => event is Polled,
        OneshotAction::Remove => event is Removed,
        OneshotAction::Exit | OneshotAction::Nothing => false,
    }
}

/// The reading waits for what it asked for last, and for nothing else. It asks for `mkfifo`
/// first, starts its one read when the FIFO was made, and waits on exactly where that read is
/// still going on.
pub proof fn the_reading_waits_for_what_it_asked_for<D, T>(
    timeout: u64,
    events: Seq<OneshotEvent<D, T>>,
    event: OneshotEvent<D, T>,
)
    ensures
        ({
            let start = crate::oneshot::new_oneshot::<D, T>(timeout);
            let s = run(start, events);
            let last = asked(start, events);
            &&& start.first_action() is Mkfifo
            &&& match s.phase {
                OneshotPhase::Creating => last is Mkfifo,
                OneshotPhase::Checking => last is Stat,
                OneshotPhase::Listening => last is Listen || last is Wait,
                OneshotPhase::Removing(_) => last is Remove,
                OneshotPhase::Ended(_) => last is Exit,
            }
            &&& s.step(event).1 is Nothing <==> !answers(last, event)
            &&& s.step(event).1 is Nothing ==> s.step(event).0 == s
            &&& s.step(event).1 is Listen <==> s.phase is Creating && s.step(
                event,
            ).0.phase is Listening
            &&& s.step(event).1 is Wait <==> s.phase is Listening && event is Polled && s.step(
                event,
            ).0.phase is Listening
            &&& s.step(event).1 is Wait ==> (event matches OneshotEvent::Polled { arrival, .. } && (
            arrival is Waiting || arrival is Reading))
        }),
    decreases events.len(),
{
    if events.len() > 0 {
        the_reading_waits_for_what_it_asked_for(timeout, events.drop_last(), event);
        the_reading_waits_for_what_it_asked_for(timeout, events.drop_last(), events.last());
    }
}

/// A reading that has begun to end ends as it began to, whatever it is told.
pub proof fn the_reading_ends_as_it_began_to<D, T>(
    s: OneshotState<D, T>,
    event: OneshotEvent<D, T>,
)
    ensures
        outcome(s.phase) is Some ==> outcome(s.step(event).0.phase) == outcome(s.phase),
        s.phase matches OneshotPhase::Ended(_) ==> s.step(event).0 == s,
{
}

/// Why the reading of one message ends: with the message that came, or with a failure and what
/// the system said of it.
pub proof fn the_reading_ends_for_what_it_was_told<D, T>(
    s: OneshotState<D, T>,
    reason: T,
    data: D,
    now: u64,
)
    ensures
        s.phase is Creating ==> {
            &&& s.step(
                OneshotEvent::Mkfifo { outcome: Mkfifo::Created, now },
            ).0.phase is Listening
            &&& s.step(
                OneshotEvent::Mkfifo { outcome: Mkfifo::AlreadyExists, now },
            ).0.phase is Checking
            &&& s.step(
                OneshotEvent::Mkfifo { outcome: Mkfifo::NulByte(reason), now },
            ).0.phase == OneshotPhase::<D, T>::Ended(
                OneshotEnd::Refused(CreateError::NulByte(reason)),
            )
            &&& s.step(OneshotEvent::Mkfifo { outcome: Mkfifo::Failed(reason), now }).0.phase
                == OneshotPhase::<D, T>::Ended(OneshotEnd::Refused(CreateError::Failed(reason)))
        },
        s.phase is Checking ==> {
            &&& s.step(OneshotEvent::Stat(Stat::Fifo)).0.phase == OneshotPhase::<D, T>::Ended(
                OneshotEnd::Refused(CreateError::ExistsAsFifo),
            )
            &&& s.step(OneshotEvent::Stat(Stat::NotFifo)).0.phase == OneshotPhase::<D, T>::Ended(
                OneshotEnd::Refused(CreateError::ExistsNotFifo),
            )
            &&& s.step(OneshotEvent::Stat(Stat::Failed(reason))).0.phase == OneshotPhase::<
                D,
                T,
            >::Ended(OneshotEnd::Refused(CreateError::CannotStat(reason)))
        },
        s.phase is Listening ==> {
            &&& s.step(
                OneshotEvent::Polled { arrival: Arrival::OpenFailed(reason), now },
            ).0.phase == OneshotPhase::<D, T>::Removing(
                OneshotEnd::Failed(ReadError::Open(reason)),
            )
            &&& s.step(
                OneshotEvent::Polled { arrival: Arrival::ReadFailed(reason), now },
            ).0.phase == OneshotPhase::<D, T>::Removing(
                OneshotEnd::Failed(ReadError::Read(reason)),
            )
            &&& s.step(OneshotEvent::Polled { arrival: Arrival::Data(data), now }).0.phase
                == OneshotPhase::<D, T>::Removing(OneshotEnd::Message(data))
        },
{
}

/// What the tool answers: the message as text with its newline, or why there is none, with the
/// path and with what the system said.
pub proof fn the_tool_answers_by_the_end(
    data: Seq<u8>,
    path: Seq<char>,
    error: CreateError<Seq<char>>,
    failure: ReadError<Seq<char>>,
)
    ensures
        crate::oneshot::oneshot_reply(OneshotEnd::Message(data), path) == Ok::<
            Seq<char>,
            Seq<char>,
        >(crate::frame::framed_chars(crate::frame::text_of(data))),
        crate::oneshot::oneshot_reply(OneshotEnd::TimedOut, path) == Err::<Seq<char>, Seq<char>>(
            "timed out waiting for writer on '"@ + path + "'"@,
        ),
        crate::oneshot::oneshot_reply(OneshotEnd::Refused(error), path) == Err::<
            Seq<char>,
            Seq<char>,
        >(crate::create::refusal_text(error, path)),
        crate::oneshot::oneshot_reply(OneshotEnd::Failed(failure), path) == Err::<
            Seq<char>,
            Seq<char>,
        >(crate::reader::read_error_text(failure, path)),
{
}

/// How the reading ended is taken as it stands.
pub proof fn oneshot_ends_are_taken_as_they_are(
    data: Vec<u8>,
    error: CreateError<String>,
    failure: ReadError<String>,
)
    ensures
        OneshotEnd::<Vec<u8>, String>::Message(data)@ == OneshotEnd::<
            Seq<u8>,
            Seq<char>,
        >::Message(data@),
        OneshotEnd::<Vec<u8>, String>::TimedOut@ is TimedOut,
        OneshotEnd::<Vec<u8>, String>::Refused(error)@ == OneshotEnd::<
            Seq<u8>,
            Seq<char>,
        >::Refused(error@),
        OneshotEnd::<Vec<u8>, String>::Failed(failure)@ == OneshotEnd::<
            Seq<u8>,
            Seq<char>,
        >::Failed(failure@),
{
}

} // verus!
