//! What holds of a relay over all that it is told, in any order.
use crate::create::{CreateError, Mkfifo, Stat};
use crate::relay::{RelayAction, RelayEnd, RelayEvent, RelayPhase, RelayState, Spread};
use vstd::prelude::*;

verus! {

/// The relay after a run of events.
pub open spec fn run<T>(start: RelayState<T>, events: Seq<RelayEvent<Seq<u8>, T>>) -> RelayState<T>
    decreases events.len(),
{
    if events.len() == 0 {
        start
    } else {
        run(start, events.drop_last()).step(events.last()).0
    }
}

/// What the relay asked for in a run, one action for each event.
pub open spec fn actions<T>(start: RelayState<T>, events: Seq<RelayEvent<Seq<u8>, T>>) -> Seq<
    RelayAction<Seq<u8>>,
>
    decreases events.len(),
{
    if events.len() == 0 {
        Seq::empty()
    } else {
        actions(start, events.drop_last()).push(
            run(start, events.drop_last()).step(events.last()).1,
        )
    }
}

/// The messages that the relay took in a run: those that came while it waited for one.
pub open spec fn taken<T>(start: RelayState<T>, events: Seq<RelayEvent<Seq<u8>, T>>) -> Seq<Seq<u8>>
    decreases events.len(),
{
    if events.len() == 0 {
        Seq::empty()
    } else {
        let before = taken(start, events.drop_last());
        match events.last() {
            RelayEvent::Message(data) if run(start, events.drop_last()).phase is Receiving =>
                before.push(data),
            _ => before,
        }
    }
}

/// A message on its way to the outputs from `first` up to, not with, `end`.
pub struct Parcel {
    /// What is written.
    pub data: Seq<u8>,
    /// The first output.
    pub first: int,
    /// The output after the last.
    pub end: int,
}

/// What was sent to the outputs.
pub open spec fn parcels(done: Seq<RelayAction<Seq<u8>>>) -> Seq<Parcel>
    decreases done.len(),
{
    if done.len() == 0 {
        Seq::empty()
    } else {
        let before = parcels(done.drop_last());
        match done.last() {
            RelayAction::Deliver { data, first, end } => before.push(
                Parcel { data, first: first as int, end: end as int },
            ),
            _ => before,
        }
    }
}

/// What was sent to one output.
pub open spec fn sent_to(done: Seq<RelayAction<Seq<u8>>>, output: int) -> Seq<Seq<u8>>
    decreases done.len(),
{
    if done.len() == 0 {
        Seq::empty()
    } else {
        let before = sent_to(done.drop_last(), output);
        match done.last() {
            RelayAction::Deliver { data, first, end } if first <= output < end => before.push(data),
            _ => before,
        }
    }
}

/// The part of what was asked for that ends the relay.
pub open spec fn ending(done: Seq<RelayAction<Seq<u8>>>) -> Seq<RelayAction<Seq<u8>>>
    decreases done.len(),
{
    if done.len() == 0 {
        Seq::empty()
    } else {
        let before = ending(done.drop_last());
        match done.last() {
            RelayAction::RaiseStop
            | RelayAction::Unblock
            | RelayAction::Remove
            | RelayAction::Exit => before.push(done.last()),
            _ => before,
        }
    }
}

/// How often the relay was told that it had made its FIFO, while it waited to hear so.
pub open spec fn made<T>(start: RelayState<T>, events: Seq<RelayEvent<Seq<u8>, T>>) -> nat
    decreases events.len(),
{
    if events.len() == 0 {
        0
    } else {
        let before = made(start, events.drop_last());
        match events.last() {
            RelayEvent::Mkfifo(Mkfifo::Created) if run(
                start,
                events.drop_last(),
            ).phase is Creating => before + 1,
            _ => before,
        }
    }
}

/// The output that a message of a rotation goes to, by the message's number.
pub open spec fn turn_of(k: int, outputs: int) -> int {
    k % outputs
}

/// A relay keeps the terms on which it was begun.
pub proof fn terms_of_a_run<T>(
    spread: Spread,
    outputs: usize,
    timeout: Option<u64>,
    max_time: Option<u64>,
    events: Seq<RelayEvent<Seq<u8>, T>>,
)
    ensures
        ({
            let s = run(crate::relay::new_relay::<T>(spread, outputs, timeout, max_time), events);
            s.spread == spread && s.outputs == outputs && s.timeout == timeout && s.max_time
                == max_time
        }),
    decreases events.len(),
{
    if events.len() > 0 {
        terms_of_a_run(spread, outputs, timeout, max_time, events.drop_last());
    }
}

/// Everything that a broadcast takes goes to every output, framed, in the order in which
/// it came, and nothing else does.
pub proof fn every_output_gets_every_message<T>(
    outputs: usize,
    timeout: Option<u64>,
    max_time: Option<u64>,
    events: Seq<RelayEvent<Seq<u8>, T>>,
    output: int,
)
    requires
        0 <= output < outputs,
    ensures
        ({
            let start = crate::relay::new_relay::<T>(Spread::All, outputs, timeout, max_time);
            sent_to(actions(start, events), output) == taken(start, events).map_values(
                |data: Seq<u8>| crate::frame::framed(data),
            )
        }),
    decreases events.len(),
{
    let start = crate::relay::new_relay::<T>(Spread::All, outputs, timeout, max_time);
    let framing = |data: Seq<u8>| crate::frame::framed(data);
    if events.len() == 0 {
        assert(taken(start, events).map_values(framing) =~= Seq::empty());
    } else {
        let earlier = events.drop_last();
        every_output_gets_every_message(outputs, timeout, max_time, earlier, output);
        terms_of_a_run(Spread::All, outputs, timeout, max_time, earlier);
        assert(actions(start, events).drop_last() =~= actions(start, earlier));
        assert(sent_to(actions(start, events), output) =~= taken(start, events).map_values(
            framing,
        ));
    }
}

proof fn next_turn(k: int, n: int)
    requires
        0 <= k,
        0 < n,
    ensures
        turn_of(k + 1, n) == if turn_of(k, n) + 1 < n {
            turn_of(k, n) + 1
        } else {
            0
        },
        0 <= turn_of(k, n) < n,
{
    let q = k / n;
    let r = k % n;
    vstd::arithmetic::div_mod::lemma_fundamental_div_mod(k, n);
    vstd::arithmetic::mul::lemma_mul_is_distributive_add(n, q, 1);
    vstd::arithmetic::mul::lemma_mul_is_commutative(n, q);
    vstd::arithmetic::mul::lemma_mul_is_commutative(n, q + 1);
    if r + 1 < n {
        vstd::arithmetic::div_mod::lemma_fundamental_div_mod_converse(k + 1, n, q, r + 1);
    } else {
        vstd::arithmetic::div_mod::lemma_fundamental_div_mod_converse(k + 1, n, q + 1, 0);
    }
}

/// The messages that a round robin takes go to the outputs one after the other: the first
/// to the first output, each next one to the next output, and after the last output the
/// first is next again. Each goes, framed, to that one output and no other.
pub proof fn messages_go_round_the_outputs<T>(
    outputs: usize,
    timeout: Option<u64>,
    max_time: Option<u64>,
    events: Seq<RelayEvent<Seq<u8>, T>>,
)
    requires
        outputs > 0,
    ensures
        ({
            let start = crate::relay::new_relay::<T>(Spread::Rotate, outputs, timeout, max_time);
            let sent = parcels(actions(start, events));
            &&& sent.len() == taken(start, events).len()
            &&& forall|k: int| #![trigger sent[k]]
                0 <= k < sent.len() ==> sent[k].data == crate::frame::framed(taken(start, events)[k])
                    && sent[k].first == turn_of(k, outputs as int) && sent[k].end == sent[k].first
                    + 1
        }),
        run(crate::relay::new_relay::<T>(Spread::Rotate, outputs, timeout, max_time), events).turn
            == turn_of(
            taken(
                crate::relay::new_relay::<T>(Spread::Rotate, outputs, timeout, max_time),
                events,
            ).len() as int,
            outputs as int,
        ),
    decreases events.len(),
{
    let start = crate::relay::new_relay::<T>(Spread::Rotate, outputs, timeout, max_time);
    if events.len() == 0 {
        assert(0int % (outputs as int) == 0) by (nonlinear_arith)
            requires
                outputs > 0,
        ;
    } else {
        let earlier = events.drop_last();
        messages_go_round_the_outputs(outputs, timeout, max_time, earlier);
        terms_of_a_run(Spread::Rotate, outputs, timeout, max_time, earlier);
        assert(actions(start, events).drop_last() =~= actions(start, earlier));
        next_turn(taken(start, earlier).len() as int, outputs as int);
    }
}

/// A relay counts the messages that it hands on, whatever becomes of them at an output.
pub proof fn every_message_is_counted<T>(
    spread: Spread,
    outputs: usize,
    timeout: Option<u64>,
    max_time: Option<u64>,
    events: Seq<RelayEvent<Seq<u8>, T>>,
)
    ensures
        ({
            let start = crate::relay::new_relay::<T>(spread, outputs, timeout, max_time);
            taken(start, events).len() <= usize::MAX ==> run(start, events).count == taken(
                start,
                events,
            ).len()
        }),
    decreases events.len(),
{
    if events.len() > 0 {
        every_message_is_counted(spread, outputs, timeout, max_time, events.drop_last());
    }
}

/// Whether the relay was told, while it waited for a message, that a writer has come.
pub open spec fn connected<T>(start: RelayState<T>, events: Seq<RelayEvent<Seq<u8>, T>>) -> bool
    decreases events.len(),
{
    events.len() > 0 && (connected(start, events.drop_last()) || (run(
        start,
        events.drop_last(),
    ).phase is Receiving && events.last() matches RelayEvent::Quiet { connected: true, .. }))
}

/// Only a relay to which no writer ever came times out: not one that took a message, nor one
/// that was told of a writer.
pub proof fn a_writer_ends_the_timeout<T>(
    spread: Spread,
    outputs: usize,
    timeout: Option<u64>,
    max_time: Option<u64>,
    events: Seq<RelayEvent<Seq<u8>, T>>,
)
    ensures
        ({
            let start = crate::relay::new_relay::<T>(spread, outputs, timeout, max_time);
            let s = run(start, events);
            taken(start, events).len() > 0 || connected(start, events) ==> s.deadline is None
                && outcome(s.phase) != Some(RelayEnd::<T>::TimedOut)
        }),
    decreases events.len(),
{
    let start = crate::relay::new_relay::<T>(spread, outputs, timeout, max_time);
    if events.len() > 0 {
        let earlier = events.drop_last();
        a_writer_ends_the_timeout(spread, outputs, timeout, max_time, earlier);
        nothing_before_the_first_receive(spread, outputs, timeout, max_time, earlier);
    }
}

/// How the relay is ending or has ended.
pub open spec fn outcome<T>(phase: RelayPhase<T>) -> Option<RelayEnd<T>> {
    match phase {
        RelayPhase::Stopping(end) => Some(end),
        RelayPhase::Unblocking(end) => Some(end),
        RelayPhase::Removing(end) => Some(end),
        RelayPhase::Ended(end) => Some(end),
        _ => None,
    }
}

proof fn nothing_before_the_first_receive<T>(
    spread: Spread,
    outputs: usize,
    timeout: Option<u64>,
    max_time: Option<u64>,
    events: Seq<RelayEvent<Seq<u8>, T>>,
)
    ensures
        ({
            let start = crate::relay::new_relay::<T>(spread, outputs, timeout, max_time);
            let s = run(start, events);
            s.phase is Creating || s.phase is Checking || s.phase is Starting ==> taken(
                start,
                events,
            ).len() == 0 && !connected(start, events)
        }),
    decreases events.len(),
{
    if events.len() > 0 {
        nothing_before_the_first_receive(
            spread,
            outputs,
            timeout,
            max_time,
            events.drop_last(),
        );
    }
}

/// When the reader thread was started.
pub open spec fn started_at<T>(
    start: RelayState<T>,
    events: Seq<RelayEvent<Seq<u8>, T>>,
) -> Option<u64>
    decreases events.len(),
{
    if events.len() == 0 {
        None
    } else {
        match events.last() {
            RelayEvent::Started(now) if run(start, events.drop_last()).phase is Starting => Some(
                now,
            ),
            _ => started_at(start, events.drop_last()),
        }
    }
}

/// The limits that hold in each phase.
proof fn limits_of_a_run<T>(
    spread: Spread,
    outputs: usize,
    timeout: Option<u64>,
    max_time: Option<u64>,
    events: Seq<RelayEvent<Seq<u8>, T>>,
)
    ensures
        ({
            let start = crate::relay::new_relay::<T>(spread, outputs, timeout, max_time);
            let s = run(start, events);
            let begun = started_at(start, events);
            &&& s.phase is Checkpoint || s.phase is Receiving ==> begun is Some
            &&& s.phase is Creating || s.phase is Checking || s.phase is Starting ==> begun is None
            &&& begun matches Some(t0) ==> s.max_deadline == crate::deadline::limit_from(
                t0 as int,
                max_time,
            )
            &&& begun matches Some(t0) ==> s.deadline == if taken(start, events).len() == 0
                && !connected(start, events) {
                crate::deadline::limit_from(t0 as int, timeout)
            } else {
                None
            }
        }),
    decreases events.len(),
{
    if events.len() > 0 {
        let earlier = events.drop_last();
        limits_of_a_run(spread, outputs, timeout, max_time, earlier);
        terms_of_a_run(spread, outputs, timeout, max_time, earlier);
        nothing_before_the_first_receive(spread, outputs, timeout, max_time, earlier);
    }
}

/// The maximum time is a hard deadline: no message puts it off, and a relay that looks at
/// the clock after it ends, cleanly. Before it the clock ends nothing.
pub proof fn the_maximum_time_is_never_put_off<T>(
    spread: Spread,
    outputs: usize,
    timeout: Option<u64>,
    max_time: Option<u64>,
    events: Seq<RelayEvent<Seq<u8>, T>>,
    now: u64,
)
    requires
        run(
            crate::relay::new_relay::<T>(spread, outputs, timeout, max_time),
            events,
        ).phase is Checkpoint,
    ensures
        ({
            let start = crate::relay::new_relay::<T>(spread, outputs, timeout, max_time);
            let after = run(start, events.push(RelayEvent::Clock(now)));
            let limit = crate::deadline::limit_from(
                started_at(start, events).unwrap() as int,
                max_time,
            );
            &&& started_at(start, events) is Some
            &&& crate::deadline::reached(limit, now as int) ==> after.phase
                == RelayPhase::<T>::Stopping(RelayEnd::Clean)
            &&& !crate::deadline::reached(limit, now as int) ==> after.phase is Receiving
        }),
{
    limits_of_a_run(spread, outputs, timeout, max_time, events);
    assert(events.push(RelayEvent::Clock(now)).drop_last() =~= events);
}

/// The maximum time ends a relay no matter what: once the clock has reached it, the relay is
/// over when the three things that it then asks for are done (raising the stop flag,
/// unblocking the reader thread, removing the FIFO). None of them waits for a writer.
pub proof fn the_maximum_time_ends_the_relay<T>(
    spread: Spread,
    outputs: usize,
    timeout: Option<u64>,
    max_time: Option<u64>,
    events: Seq<RelayEvent<Seq<u8>, T>>,
    now: u64,
)
    requires
        run(
            crate::relay::new_relay::<T>(spread, outputs, timeout, max_time),
            events,
        ).phase is Checkpoint,
        crate::deadline::reached(
            crate::deadline::limit_from(
                started_at(
                    crate::relay::new_relay::<T>(spread, outputs, timeout, max_time),
                    events,
                ).unwrap() as int,
                max_time,
            ),
            now as int,
        ),
    ensures
        ({
            let start = crate::relay::new_relay::<T>(spread, outputs, timeout, max_time);
            let told = events.push(RelayEvent::Clock(now)).push(RelayEvent::Done).push(
                RelayEvent::Done,
            ).push(RelayEvent::Done);
            &&& run(start, told).phase == RelayPhase::<T>::Ended(RelayEnd::Clean)
            &&& actions(start, told) == actions(start, events) + seq![
                RelayAction::RaiseStop,
                RelayAction::Unblock,
                RelayAction::Remove,
                RelayAction::Exit,
            ]
        }),
{
    let start = crate::relay::new_relay::<T>(spread, outputs, timeout, max_time);
    let one = events.push(RelayEvent::Clock(now));
    let two = one.push(RelayEvent::Done);
    let three = two.push(RelayEvent::Done);
    let told = three.push(RelayEvent::Done);
    limits_of_a_run(spread, outputs, timeout, max_time, events);
    assert(one.drop_last() =~= events);
    assert(two.drop_last() =~= one);
    assert(three.drop_last() =~= two);
    assert(told.drop_last() =~= three);
    assert(run(start, one).phase == RelayPhase::<T>::Stopping(RelayEnd::Clean));
    assert(run(start, two).phase == RelayPhase::<T>::Unblocking(RelayEnd::Clean));
    assert(run(start, three).phase == RelayPhase::<T>::Removing(RelayEnd::Clean));
    assert(actions(start, one) =~= actions(start, events).push(RelayAction::RaiseStop));
    assert(actions(start, two) =~= actions(start, one).push(RelayAction::Unblock));
    assert(actions(start, three) =~= actions(start, two).push(RelayAction::Remove));
    assert(actions(start, told) =~= actions(start, events) + seq![
        RelayAction::RaiseStop,
        RelayAction::Unblock,
        RelayAction::Remove,
        RelayAction::Exit,
    ]);
}

/// A second without a message times a relay out exactly where no writer ever came and the
/// seconds of the timeout have passed since the relay began to listen.
pub proof fn a_relay_times_out_without_a_first_writer<T>(
    spread: Spread,
    outputs: usize,
    timeout: Option<u64>,
    max_time: Option<u64>,
    events: Seq<RelayEvent<Seq<u8>, T>>,
    quit: bool,
    came: bool,
    now: u64,
)
    requires
        run(
            crate::relay::new_relay::<T>(spread, outputs, timeout, max_time),
            events,
        ).phase is Receiving,
    ensures
        ({
            let start = crate::relay::new_relay::<T>(spread, outputs, timeout, max_time);
            let after = run(start, events.push(RelayEvent::Quiet { quit, connected: came, now }));
            let limit = crate::deadline::limit_from(
                started_at(start, events).unwrap() as int,
                timeout,
            );
            &&& started_at(start, events) is Some
            &&& after.phase == RelayPhase::<T>::Stopping(RelayEnd::TimedOut) <==> taken(
                start,
                events,
            ).len() == 0 && !connected(start, events) && !came && crate::deadline::reached(
                limit,
                now as int,
            )
        }),
{
    limits_of_a_run(spread, outputs, timeout, max_time, events);
    assert(events.push(RelayEvent::Quiet { quit, connected: came, now }).drop_last() =~= events);
}

/// A relay that is told to stop, with no writer at hand, does not hang: the next quiet moment
/// begins its end, and it is over when the three things that it then asks for are done.
/// Where its timeout has passed without a writer it ends by that, otherwise cleanly.
pub proof fn a_relay_that_is_told_to_stop_ends<T>(
    spread: Spread,
    outputs: usize,
    timeout: Option<u64>,
    max_time: Option<u64>,
    events: Seq<RelayEvent<Seq<u8>, T>>,
    signal: bool,
    came: bool,
    now: u64,
)
    requires
        run(
            crate::relay::new_relay::<T>(spread, outputs, timeout, max_time),
            events,
        ).phase is Receiving,
    ensures
        ({
            let start = crate::relay::new_relay::<T>(spread, outputs, timeout, max_time);
            let quit = crate::relay::must_end(true, false, signal);
            let told = events.push(RelayEvent::Quiet { quit, connected: came, now }).push(
                RelayEvent::Done,
            ).push(RelayEvent::Done).push(RelayEvent::Done);
            let late = taken(start, events).len() == 0 && !connected(start, events) && !came
                && crate::deadline::reached(
                crate::deadline::limit_from(started_at(start, events).unwrap() as int, timeout),
                now as int,
            );
            &&& run(start, told).phase == RelayPhase::<T>::Ended(
                if late {
                    RelayEnd::TimedOut
                } else {
                    RelayEnd::Clean
                },
            )
            &&& actions(start, told) == actions(start, events) + seq![
                RelayAction::RaiseStop,
                RelayAction::Unblock,
                RelayAction::Remove,
                RelayAction::Exit,
            ]
        }),
{
    let start = crate::relay::new_relay::<T>(spread, outputs, timeout, max_time);
    let quit = crate::relay::must_end(true, false, signal);
    let one = events.push(RelayEvent::Quiet { quit, connected: came, now });
    let two = one.push(RelayEvent::Done);
    let three = two.push(RelayEvent::Done);
    let told = three.push(RelayEvent::Done);
    limits_of_a_run(spread, outputs, timeout, max_time, events);
    assert(one.drop_last() =~= events);
    assert(two.drop_last() =~= one);
    assert(three.drop_last() =~= two);
    assert(told.drop_last() =~= three);
    assert(run(start, one).phase is Stopping);
    assert(run(start, two).phase is Unblocking);
    assert(run(start, three).phase is Removing);
    assert(actions(start, one) =~= actions(start, events).push(RelayAction::RaiseStop));
    assert(actions(start, two) =~= actions(start, one).push(RelayAction::Unblock));
    assert(actions(start, three) =~= actions(start, two).push(RelayAction::Remove));
    assert(actions(start, told) =~= actions(start, events) + seq![
        RelayAction::RaiseStop,
        RelayAction::Unblock,
        RelayAction::Remove,
        RelayAction::Exit,
    ]);
}

/// A stop does not cut off a writer that is there: while the reader thread is busy with one,
/// and no signal asks to end, a quiet moment ends nothing.
pub proof fn a_stop_waits_for_a_writer_that_is_there<T>(
    spread: Spread,
    outputs: usize,
    timeout: Option<u64>,
    max_time: Option<u64>,
    events: Seq<RelayEvent<Seq<u8>, T>>,
    stop: bool,
    now: u64,
)
    requires
        run(
            crate::relay::new_relay::<T>(spread, outputs, timeout, max_time),
            events,
        ).phase is Receiving,
    ensures
        ({
            let start = crate::relay::new_relay::<T>(spread, outputs, timeout, max_time);
            let quit = crate::relay::must_end(stop, true, false);
            run(
                start,
                events.push(RelayEvent::Quiet { quit, connected: true, now }),
            ).phase is Checkpoint
        }),
{
    let quit = crate::relay::must_end(stop, true, false);
    assert(events.push(RelayEvent::Quiet { quit, connected: true, now }).drop_last() =~= events);
}

/// An event by which a relay without limits can end.
pub open spec fn asks_to_end<T>(event: RelayEvent<Seq<u8>, T>) -> bool {
    match event {
        RelayEvent::HangUp => true,
        RelayEvent::Quiet { quit, .. } => quit,
        RelayEvent::SpawnFailed(_) => true,
        _ => false,
    }
}

/// A relay whose limits are left out or zero, once it has its FIFO, runs on until a signal
/// or the loss of its reader thread ends it.
pub proof fn without_limits_a_relay_runs_on<T>(
    spread: Spread,
    outputs: usize,
    timeout: Option<u64>,
    max_time: Option<u64>,
    events: Seq<RelayEvent<Seq<u8>, T>>,
)
    requires
        timeout is None || timeout == Some(0u64),
        max_time is None || max_time == Some(0u64),
        forall|i: int| 0 <= i < events.len() ==> !asks_to_end(#[trigger] events[i]),
    ensures
        ({
            let s = run(crate::relay::new_relay::<T>(spread, outputs, timeout, max_time), events);
            match outcome(s.phase) {
                None => true,
                Some(end) => end is Refused,
            }
        }),
    decreases events.len(),
{
    if events.len() > 0 {
        let earlier = events.drop_last();
        assert forall|i: int| 0 <= i < earlier.len() implies !asks_to_end(
            #[trigger] earlier[i],
        ) by {
            assert(earlier[i] == events[i]);
        }
        without_limits_a_relay_runs_on(spread, outputs, timeout, max_time, earlier);
        limits_of_a_run(spread, outputs, timeout, max_time, earlier);
        assert(!asks_to_end(events[events.len() - 1]));
        refused_only_when_over(spread, outputs, timeout, max_time, earlier);
    }
}

/// A limit of zero seconds acts as one that is left out: the relay asks for the same, and so
/// writes the same, and is in the same phase, whatever it is told.
pub proof fn a_limit_of_zero_acts_as_none<T>(
    spread: Spread,
    outputs: usize,
    timeout: Option<u64>,
    max_time: Option<u64>,
    events: Seq<RelayEvent<Seq<u8>, T>>,
)
    ensures
        ({
            let zero = crate::relay::new_relay::<T>(spread, outputs, Some(0), max_time);
            let none = crate::relay::new_relay::<T>(spread, outputs, None, max_time);
            &&& actions(zero, events) == actions(none, events)
            &&& run(zero, events) == (RelayState { timeout: Some(0), ..run(none, events) })
            &&& run(none, events).timeout is None
        }),
        ({
            let zero = crate::relay::new_relay::<T>(spread, outputs, timeout, Some(0));
            let none = crate::relay::new_relay::<T>(spread, outputs, timeout, None);
            &&& actions(zero, events) == actions(none, events)
            &&& run(zero, events) == (RelayState { max_time: Some(0), ..run(none, events) })
            &&& run(none, events).max_time is None
        }),
    decreases events.len(),
{
    if events.len() > 0 {
        a_limit_of_zero_acts_as_none(spread, outputs, timeout, max_time, events.drop_last());
    }
}

proof fn refused_only_when_over<T>(
    spread: Spread,
    outputs: usize,
    timeout: Option<u64>,
    max_time: Option<u64>,
    events: Seq<RelayEvent<Seq<u8>, T>>,
)
    ensures
        ({
            let s = run(crate::relay::new_relay::<T>(spread, outputs, timeout, max_time), events);
            match s.phase {
                RelayPhase::Stopping(end) | RelayPhase::Unblocking(end) => end is Clean || end is TimedOut,
                RelayPhase::Removing(end) => !(end is Refused),
                _ => true,
            }
        }),
    decreases events.len(),
{
    if events.len() > 0 {
        refused_only_when_over(spread, outputs, timeout, max_time, events.drop_last());
    }
}

/// What a relay has asked for to end, in each phase.
pub open spec fn ending_so_far<T>(phase: RelayPhase<T>) -> Seq<RelayAction<Seq<u8>>> {
    match phase {
        RelayPhase::Stopping(_) => seq![RelayAction::RaiseStop],
        RelayPhase::Unblocking(_) => seq![RelayAction::RaiseStop, RelayAction::Unblock],
        RelayPhase::Removing(RelayEnd::SpawnFailed(_)) => seq![RelayAction::Remove],
        RelayPhase::Removing(_) => seq![
            RelayAction::RaiseStop,
            RelayAction::Unblock,
            RelayAction::Remove,
        ],
        RelayPhase::Ended(RelayEnd::Refused(_)) => seq![RelayAction::Exit],
        RelayPhase::Ended(RelayEnd::SpawnFailed(_)) => seq![RelayAction::Remove, RelayAction::Exit],
        RelayPhase::Ended(_) => seq![
            RelayAction::RaiseStop,
            RelayAction::Unblock,
            RelayAction::Remove,
            RelayAction::Exit,
        ],
        _ => Seq::empty(),
    }
}

/// A relay removes its FIFO on every way out, once, and before it exits; where there is a
/// reader thread, it raises the stop flag and unblocks the thread before that, while the
/// FIFO is there. A FIFO that it did not make it never removes.
pub proof fn the_fifo_is_removed_on_every_way_out<T>(
    spread: Spread,
    outputs: usize,
    timeout: Option<u64>,
    max_time: Option<u64>,
    events: Seq<RelayEvent<Seq<u8>, T>>,
)
    ensures
        ({
            let start = crate::relay::new_relay::<T>(spread, outputs, timeout, max_time);
            let s = run(start, events);
            &&& ending(actions(start, events)) == ending_so_far(s.phase)
            &&& made(start, events) == match s.phase {
                RelayPhase::Creating
                | RelayPhase::Checking
                | RelayPhase::Ended(RelayEnd::Refused(_)) => 0nat,
                _ => 1nat,
            }
        }),
    decreases events.len(),
{
    let start = crate::relay::new_relay::<T>(spread, outputs, timeout, max_time);
    if events.len() > 0 {
        let earlier = events.drop_last();
        the_fifo_is_removed_on_every_way_out(spread, outputs, timeout, max_time, earlier);
        refused_only_when_over(spread, outputs, timeout, max_time, earlier);
        assert(actions(start, events).drop_last() =~= actions(start, earlier));
        assert(ending(actions(start, events)) =~= ending_so_far(run(start, events).phase));
    }
}

/// What the relay asked for last.
pub open spec fn asked<T>(
    start: RelayState<T>,
    events: Seq<RelayEvent<Seq<u8>, T>>,
) -> RelayAction<Seq<u8>>
    decreases events.len(),
{
    if events.len() == 0 {
        start.first_action()
    } else {
        let action = run(start, events.drop_last()).step(events.last()).1;
        if action is Nothing {
            asked(start, events.drop_last())
        } else {
            action
        }
    }
}

/// Whether an event is an answer to what was asked for.
pub open spec fn answers<T>(action: RelayAction<Seq<u8>>, event: RelayEvent<Seq<u8>, T>) -> bool {
    match action {
        RelayAction::Mkfifo => event is Mkfifo,
        RelayAction::Stat => event is Stat,
        RelayAction::StartReader => event is Started || event is SpawnFailed,
        RelayAction::ReadClock | RelayAction::Deliver { .. } => event is Clock,
        RelayAction::Receive => event is Message || event is Quiet || event is HangUp,
        RelayAction::RaiseStop | RelayAction::Unblock | RelayAction::Remove => event is Done,
        RelayAction::Exit | RelayAction::Nothing => false,
    }
}

/// A relay waits for what it asked for last, and for nothing else: it goes on exactly when it
/// is told of that, and otherwise stays as it is and asks for nothing. It asks for `mkfifo`
/// first, and between two messages looks at the clock and then waits for the next.
pub proof fn a_relay_waits_for_what_it_asked_for<T>(
    spread: Spread,
    outputs: usize,
    timeout: Option<u64>,
    max_time: Option<u64>,
    events: Seq<RelayEvent<Seq<u8>, T>>,
    event: RelayEvent<Seq<u8>, T>,
)
    ensures
        ({
            let start = crate::relay::new_relay::<T>(spread, outputs, timeout, max_time);
            let s = run(start, events);
            let last = asked(start, events);
            &&& start.first_action() is Mkfifo
            &&& match s.phase {
                RelayPhase::Creating => last is Mkfifo,
                RelayPhase::Checking => last is Stat,
                RelayPhase::Starting => last is StartReader,
                RelayPhase::Checkpoint => last is ReadClock || last is Deliver,
                RelayPhase::Receiving => last is Receive,
                RelayPhase::Stopping(_) => last is RaiseStop,
                RelayPhase::Unblocking(_) => last is Unblock,
                RelayPhase::Removing(_) => last is Remove,
                RelayPhase::Ended(_) => last is Exit,
            }
            &&& s.step(event).1 is Nothing <==> !answers(last, event)
            &&& s.step(event).1 is Nothing ==> s.step(event).0 == s
            &&& s.step(event).1 is ReadClock <==> (s.phase is Starting && event is Started)
                || (s.phase is Receiving && event is Quiet && s.step(event).0.phase is Checkpoint)
            &&& s.step(event).1 is Deliver <==> s.phase is Receiving && event is Message
            &&& s.step(event).1 is Receive ==> s.phase is Checkpoint
        }),
    decreases events.len(),
{
    if events.len() > 0 {
        a_relay_waits_for_what_it_asked_for(
            spread,
            outputs,
            timeout,
            max_time,
            events.drop_last(),
            event,
        );
        a_relay_waits_for_what_it_asked_for(
            spread,
            outputs,
            timeout,
            max_time,
            events.drop_last(),
            events.last(),
        );
    }
}

/// A relay that has begun to end ends as it began to, whatever it is told.
pub proof fn a_relay_ends_as_it_began_to<T>(s: RelayState<T>, event: RelayEvent<Seq<u8>, T>)
    ensures
        outcome(s.phase) is Some ==> outcome(s.step(event).0.phase) == outcome(s.phase),
        s.phase matches RelayPhase::Ended(_) ==> s.step(event).0 == s,
{
}

/// Why a relay ends: each failure with what the system said of it, a lost thread and a signal
/// cleanly; a message, and a quiet second without either, end nothing.
pub proof fn a_relay_ends_for_what_it_was_told<T>(
    s: RelayState<T>,
    reason: T,
    data: Seq<u8>,
    came: bool,
    now: u64,
)
    ensures
        s.phase is Creating ==> {
            &&& s.step(RelayEvent::Mkfifo(Mkfifo::Created)).0.phase is Starting
            &&& s.step(RelayEvent::Mkfifo(Mkfifo::AlreadyExists)).0.phase is Checking
            &&& s.step(RelayEvent::Mkfifo(Mkfifo::NulByte(reason))).0.phase == RelayPhase::Ended(
                RelayEnd::Refused(CreateError::NulByte(reason)),
            )
            &&& s.step(RelayEvent::Mkfifo(Mkfifo::Failed(reason))).0.phase == RelayPhase::Ended(
                RelayEnd::Refused(CreateError::Failed(reason)),
            )
        },
        s.phase is Checking ==> {
            &&& s.step(RelayEvent::Stat(Stat::Fifo)).0.phase == RelayPhase::<T>::Ended(
                RelayEnd::Refused(CreateError::ExistsAsFifo),
            )
            &&& s.step(RelayEvent::Stat(Stat::NotFifo)).0.phase == RelayPhase::<T>::Ended(
                RelayEnd::Refused(CreateError::ExistsNotFifo),
            )
            &&& s.step(RelayEvent::Stat(Stat::Failed(reason))).0.phase == RelayPhase::Ended(
                RelayEnd::Refused(CreateError::CannotStat(reason)),
            )
        },
        s.phase is Starting ==> s.step(RelayEvent::SpawnFailed(reason)).0.phase
            == RelayPhase::Removing(RelayEnd::SpawnFailed(reason)),
        s.phase is Starting ==> s.step(RelayEvent::Started(now)).0.phase is Checkpoint,
        s.phase is Receiving ==> {
            &&& s.step(RelayEvent::HangUp).0.phase == RelayPhase::<T>::Stopping(RelayEnd::Clean)
            &&& s.step(RelayEvent::Message(data)).0.phase is Checkpoint
            &&& came || !crate::deadline::reached(s.deadline, now as int) ==> s.step(
                RelayEvent::Quiet { quit: true, connected: came, now },
            ).0.phase == RelayPhase::<T>::Stopping(RelayEnd::Clean)
            &&& came || !crate::deadline::reached(s.deadline, now as int) ==> s.step(
                RelayEvent::Quiet { quit: false, connected: came, now },
            ).0.phase is Checkpoint
        },
{
}

/// A relay is to end where a signal asks for it; where none does, only where it was told to
/// stop and its thread is not busy.
pub proof fn a_stop_and_a_signal_end_a_relay(stop: bool, busy: bool)
    ensures
        crate::relay::must_end(stop, busy, true),
        crate::relay::must_end(true, false, false),
        !crate::relay::must_end(stop, true, false),
        !crate::relay::must_end(false, busy, false),
{
}

/// What a relay is told and what it asks for is taken as it stands: a message with all of its
/// bytes, an event with what the system said and with its time.
pub proof fn relay_events_are_taken_as_they_are<T>(
    data: Vec<u8>,
    outcome: Mkfifo<T>,
    found: Stat<T>,
    reason: T,
    now: u64,
    quit: bool,
    connected: bool,
    first: usize,
    end: usize,
)
    ensures
        RelayEvent::<Vec<u8>, T>::Message(data)@ == RelayEvent::<Seq<u8>, T>::Message(data@),
        RelayEvent::<Vec<u8>, T>::Mkfifo(outcome)@ == RelayEvent::<Seq<u8>, T>::Mkfifo(outcome),
        RelayEvent::<Vec<u8>, T>::Stat(found)@ == RelayEvent::<Seq<u8>, T>::Stat(found),
        RelayEvent::<Vec<u8>, T>::Started(now)@ == RelayEvent::<Seq<u8>, T>::Started(now),
        RelayEvent::<Vec<u8>, T>::SpawnFailed(reason)@ == RelayEvent::<Seq<u8>, T>::SpawnFailed(
            reason,
        ),
        RelayEvent::<Vec<u8>, T>::Clock(now)@ == RelayEvent::<Seq<u8>, T>::Clock(now),
        (RelayEvent::<Vec<u8>, T>::Quiet { quit, connected, now })@ == (RelayEvent::<
            Seq<u8>,
            T,
        >::Quiet { quit, connected, now }),
        RelayEvent::<Vec<u8>, T>::HangUp@ == RelayEvent::<Seq<u8>, T>::HangUp,
        RelayEvent::<Vec<u8>, T>::Done@ == RelayEvent::<Seq<u8>, T>::Done,
        (RelayAction::Deliver { data, first, end })@ == (RelayAction::Deliver {
            data: data@,
            first,
            end,
        }),
        RelayAction::<Vec<u8>>::Mkfifo@ is Mkfifo,
        RelayAction::<Vec<u8>>::Stat@ is Stat,
        RelayAction::<Vec<u8>>::StartReader@ is StartReader,
        RelayAction::<Vec<u8>>::ReadClock@ is ReadClock,
        RelayAction::<Vec<u8>>::Receive@ is Receive,
        RelayAction::<Vec<u8>>::RaiseStop@ is RaiseStop,
        RelayAction::<Vec<u8>>::Unblock@ is Unblock,
        RelayAction::<Vec<u8>>::Remove@ is Remove,
        RelayAction::<Vec<u8>>::Exit@ is Exit,
        RelayAction::<Vec<u8>>::Nothing@ is Nothing,
{
}

/// How a relay ended is taken as it stands.
pub proof fn relay_ends_are_taken_as_they_are(error: CreateError<String>, reason: String)
    ensures
        RelayEnd::<String>::Clean@ is Clean,
        RelayEnd::<String>::TimedOut@ is TimedOut,
        RelayEnd::Refused(error)@ == RelayEnd::Refused(error@),
        RelayEnd::SpawnFailed(reason)@ == RelayEnd::SpawnFailed(reason@),
{
}

} // verus!
