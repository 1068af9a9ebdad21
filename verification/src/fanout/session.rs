//! A relay together with its reader thread, and the channel between the two.
//!
//! The thread puts what it passes on into the channel, and the relay takes it out in that
//! order. The relay hears of a quiet moment only when the channel is empty, and that the
//! thread is gone only when it is and the channel is empty.
use crate::fanout::HandleState;
use crate::feed::{FeedAction, FeedEvent};
use crate::relay::{RelayEnd, RelayEvent, RelayPhase, RelayState, Spread};
use vstd::prelude::*;

verus! {

/// What happens: to the thread, or to the relay.
pub enum Step {
    /// The thread learns something.
    Thread(FeedEvent<Seq<u8>>),
    /// The relay is told something.
    Relay(RelayEvent<Seq<u8>, String>),
}

/// What the thread has learnt.
pub open spec fn learnt(steps: Seq<Step>) -> Seq<FeedEvent<Seq<u8>>>
    decreases steps.len(),
{
    if steps.len() == 0 {
        Seq::empty()
    } else {
        let before = learnt(steps.drop_last());
        match steps.last() {
            Step::Thread(event) => before.push(event),
            Step::Relay(_) => before,
        }
    }
}

/// What the relay was told.
pub open spec fn told(steps: Seq<Step>) -> Seq<RelayEvent<Seq<u8>, String>>
    decreases steps.len(),
{
    if steps.len() == 0 {
        Seq::empty()
    } else {
        let before = told(steps.drop_last());
        match steps.last() {
            Step::Thread(_) => before,
            Step::Relay(event) => before.push(event),
        }
    }
}

/// What is in the channel.
pub open spec fn channel(steps: Seq<Step>) -> Seq<Seq<u8>>
    decreases steps.len(),
{
    if steps.len() == 0 {
        Seq::empty()
    } else {
        let before = channel(steps.drop_last());
        match steps.last() {
            Step::Thread(event) => match crate::feed::feed_step(event) {
                FeedAction::Send(data) if !crate::feed::runs::over(learnt(steps.drop_last())) =>
                    before.push(data),
                _ => before,
            },
            Step::Relay(RelayEvent::Message(_)) => before.drop_first(),
            Step::Relay(_) => before,
        }
    }
}

/// The relay after what has happened.
pub open spec fn relay_after(start: RelayState<String>, steps: Seq<Step>) -> RelayState<String> {
    crate::relay::runs::run(start, told(steps))
}

/// Whether the relay is told what the channel gives: a message only while it waits for one,
/// and the oldest; of a quiet moment only when there is none; that the thread is gone only
/// when it is and there is none.
pub open spec fn can_happen(start: RelayState<String>, steps: Seq<Step>) -> bool
    decreases steps.len(),
{
    steps.len() == 0 || {
        let before = steps.drop_last();
        &&& can_happen(start, before)
        &&& match steps.last() {
            Step::Relay(RelayEvent::Message(data)) => relay_after(start, before).phase is Receiving
                && channel(before).len() > 0 && channel(before)[0] == data,
            Step::Relay(RelayEvent::Quiet { .. }) => channel(before).len() == 0,
            Step::Relay(RelayEvent::HangUp) => channel(before).len() == 0
                && crate::feed::runs::over(learnt(before)),
            _ => true,
        }
    }
}

/// Whether the relay has not begun to end.
pub open spec fn is_open(start: RelayState<String>, steps: Seq<Step>) -> bool {
    crate::relay::runs::outcome(relay_after(start, steps).phase) is None
}

/// Whether the relay has begun to end, or has ended, after it had listened.
pub open spec fn is_ending(start: RelayState<String>, steps: Seq<Step>) -> bool {
    match crate::relay::runs::outcome(relay_after(start, steps).phase) {
        Some(RelayEnd::Clean) | Some(RelayEnd::TimedOut) => true,
        _ => false,
    }
}

/// Whether the clock did not end the relay: it did not reach the maximum time before.
pub open spec fn in_time(start: RelayState<String>, steps: Seq<Step>) -> bool
    decreases steps.len(),
{
    steps.len() == 0 || {
        let before = steps.drop_last();
        &&& in_time(start, before)
        &&& steps.last() is Relay && steps.last()->Relay_0 is Clock && is_open(start, before)
            ==> is_open(start, steps)
    }
}

/// Whether all writers had gone before: nothing that happens is the read of a message.
pub open spec fn no_message_read(steps: Seq<Step>) -> bool {
    forall|i: int|
        0 <= i < steps.len() ==> match #[trigger] steps[i] {
            Step::Thread(FeedEvent::Read(data)) => data.len() == 0,
            _ => true,
        }
}

/// Nothing is lost between the thread and the relay: what the relay took, followed by what is
/// still in the channel, is what the thread read, whole and in order, empty messages left out.
pub proof fn nothing_is_lost_on_the_way(start: RelayState<String>, steps: Seq<Step>)
    requires
        can_happen(start, steps),
    ensures
        crate::relay::runs::taken(start, told(steps)) + channel(steps)
            == crate::feed::runs::not_empty(crate::feed::runs::read(learnt(steps))),
{
    passed_on_is_taken_or_waits(start, steps);
    crate::feed::runs::all_that_is_not_empty_is_passed_on(learnt(steps));
}

proof fn passed_on_is_taken_or_waits(start: RelayState<String>, steps: Seq<Step>)
    requires
        can_happen(start, steps),
    ensures
        crate::relay::runs::taken(start, told(steps)) + channel(steps) == crate::feed::runs::sent(
            learnt(steps),
        ),
    decreases steps.len(),
{
    if steps.len() == 0 {
        assert(crate::relay::runs::taken(start, told(steps)) + channel(steps) =~= Seq::empty());
    } else {
        let before = steps.drop_last();
        passed_on_is_taken_or_waits(start, before);
        match steps.last() {
            Step::Thread(event) => {
                assert(learnt(steps).drop_last() =~= learnt(before));
            },
            Step::Relay(event) => {
                assert(told(steps).drop_last() =~= told(before));
            },
        }
        assert(crate::relay::runs::taken(start, told(steps)) + channel(steps)
            =~= crate::feed::runs::sent(learnt(steps)));
    }
}

/// From the reading thread to the outputs: a broadcast hands to every output, framed and in
/// order, the messages that its thread read, empty ones left out, up to those that were still
/// in the channel when it ended; and what it gives when it is stopped is their number.
pub proof fn a_broadcast_hands_on_what_was_read(
    handle: HandleState,
    outputs: usize,
    timeout: u64,
    max_time: u64,
    steps: Seq<Step>,
    output: int,
)
    requires
        ({
            let start = crate::relay::new_relay::<String>(
                Spread::All,
                outputs,
                Some(timeout),
                Some(max_time),
            );
            can_happen(start, steps) && handle.relay == relay_after(start, steps)
        }),
        handle.relay.phase == RelayPhase::<String>::Ended(RelayEnd::Clean),
        crate::feed::runs::read(learnt(steps)).len() <= usize::MAX,
        0 <= output < outputs,
    ensures
        ({
            let start = crate::relay::new_relay::<String>(
                Spread::All,
                outputs,
                Some(timeout),
                Some(max_time),
            );
            let messages = crate::feed::runs::not_empty(crate::feed::runs::read(learnt(steps)));
            let n = messages.len() - channel(steps).len();
            let out = crate::relay::runs::sent_to(
                crate::relay::runs::actions(start, told(steps)),
                output,
            );
            &&& 0 <= n <= usize::MAX
            &&& handle.outcome() == Ok::<usize, Seq<char>>(n as usize)
            &&& out == messages.take(n).map_values(|data: Seq<u8>| crate::frame::framed(data))
        }),
{
    let start = crate::relay::new_relay::<String>(
        Spread::All,
        outputs,
        Some(timeout),
        Some(max_time),
    );
    let messages = crate::feed::runs::not_empty(crate::feed::runs::read(learnt(steps)));
    let taken = crate::relay::runs::taken(start, told(steps));
    nothing_is_lost_on_the_way(start, steps);
    crate::feed::runs::read(learnt(steps)).lemma_filter_len(|m: Seq<u8>| m.len() > 0);
    crate::relay::runs::terms_of_a_run(
        Spread::All,
        outputs,
        Some(timeout),
        Some(max_time),
        told(steps),
    );
    crate::fanout::stopping_gives_the_number_of_messages(
        handle,
        outputs,
        timeout,
        max_time,
        told(steps),
    );
    crate::relay::runs::every_output_gets_every_message(
        outputs,
        Some(timeout),
        Some(max_time),
        told(steps),
        output,
    );
    assert(taken =~= messages.take(taken.len() as int));
}

/// The same of a round-robin: the messages go to the outputs in turn, framed, each to one.
pub proof fn a_roundrobin_hands_on_what_was_read(
    handle: HandleState,
    outputs: usize,
    timeout: u64,
    max_time: u64,
    steps: Seq<Step>,
)
    requires
        ({
            let start = crate::relay::new_relay::<String>(
                Spread::Rotate,
                outputs,
                Some(timeout),
                Some(max_time),
            );
            can_happen(start, steps) && handle.relay == relay_after(start, steps)
        }),
        handle.relay.phase == RelayPhase::<String>::Ended(RelayEnd::Clean),
        crate::feed::runs::read(learnt(steps)).len() <= usize::MAX,
        0 < outputs,
    ensures
        ({
            let start = crate::relay::new_relay::<String>(
                Spread::Rotate,
                outputs,
                Some(timeout),
                Some(max_time),
            );
            let messages = crate::feed::runs::not_empty(crate::feed::runs::read(learnt(steps)));
            let n = messages.len() - channel(steps).len();
            let out = crate::relay::runs::parcels(
                crate::relay::runs::actions(start, told(steps)),
            );
            &&& 0 <= n <= usize::MAX
            &&& handle.outcome() == Ok::<usize, Seq<char>>(n as usize)
            &&& out.len() == n
            &&& forall|k: int| #![trigger out[k]]
                0 <= k < n ==> out[k].data == crate::frame::framed(messages[k]) && out[k].first
                    == k % (outputs as int) && out[k].end == out[k].first + 1
        }),
{
    let start = crate::relay::new_relay::<String>(
        Spread::Rotate,
        outputs,
        Some(timeout),
        Some(max_time),
    );
    let messages = crate::feed::runs::not_empty(crate::feed::runs::read(learnt(steps)));
    let taken = crate::relay::runs::taken(start, told(steps));
    nothing_is_lost_on_the_way(start, steps);
    crate::feed::runs::read(learnt(steps)).lemma_filter_len(|m: Seq<u8>| m.len() > 0);
    crate::relay::runs::terms_of_a_run(
        Spread::Rotate,
        outputs,
        Some(timeout),
        Some(max_time),
        told(steps),
    );
    crate::fanout::stopping_gives_the_number_of_messages(
        handle,
        outputs,
        timeout,
        max_time,
        told(steps),
    );
    crate::relay::runs::messages_go_round_the_outputs(
        outputs,
        Some(timeout),
        Some(max_time),
        told(steps),
    );
    assert(taken =~= messages.take(taken.len() as int));
}

proof fn nothing_more_comes(start: RelayState<String>, before: Seq<Step>, after: Seq<Step>)
    requires
        can_happen(start, before + after),
        in_time(start, before + after),
        is_open(start, before),
        no_message_read(after),
    ensures
        crate::feed::runs::sent(learnt(before + after)) == crate::feed::runs::sent(learnt(before)),
        is_ending(start, before + after) ==> channel(before + after).len() == 0,
    decreases after.len(),
{
    if after.len() == 0 {
        assert(before + after =~= before);
    } else {
        let all = before + after;
        let earlier = after.drop_last();
        assert(all.drop_last() =~= before + earlier);
        assert(all.last() == after.last());
        assert forall|i: int| 0 <= i < earlier.len() implies match #[trigger] earlier[i] {
            Step::Thread(FeedEvent::Read(data)) => data.len() == 0,
            _ => true,
        } by {
            assert(earlier[i] == after[i]);
        }
        nothing_more_comes(start, before, earlier);
        assert(after[after.len() - 1] == after.last());
        match after.last() {
            Step::Thread(event) => {
                assert(learnt(all).drop_last() =~= learnt(before + earlier));
                assert(told(all) == told(before + earlier));
            },
            Step::Relay(event) => {
                assert(told(all).drop_last() =~= told(before + earlier));
                assert(learnt(all) == learnt(before + earlier));
                outcome_stays(relay_after(start, before + earlier), event);
            },
        }
    }
}

/// A relay that has begun to end ends as it began to.
proof fn outcome_stays(relay: RelayState<String>, event: RelayEvent<Seq<u8>, String>)
    ensures
        crate::relay::runs::outcome(relay.phase) is Some ==> crate::relay::runs::outcome(
            relay.step(event).0.phase,
        ) == crate::relay::runs::outcome(relay.phase),
{
}

/// Stopping a relay gives the number of all messages that were read before the stop, empty
/// ones left out, whatever the outputs are and whichever of them exist. This is so where the
/// relay was still running, all writers had gone before, and the relay then ended cleanly and
/// not by its maximum time: by a quiet moment or by the end of its thread, at both of which it
/// has taken all that was passed on.
pub proof fn a_stop_counts_all_that_was_read(
    handle: HandleState,
    spread: Spread,
    outputs: usize,
    timeout: u64,
    max_time: u64,
    before: Seq<Step>,
    after: Seq<Step>,
)
    requires
        ({
            let start = crate::relay::new_relay::<String>(
                spread,
                outputs,
                Some(timeout),
                Some(max_time),
            );
            &&& can_happen(start, before + after)
            &&& in_time(start, before + after)
            &&& is_open(start, before)
            &&& no_message_read(after)
            &&& handle.relay == relay_after(start, before + after)
        }),
        handle.relay.phase == RelayPhase::<String>::Ended(RelayEnd::Clean),
        crate::feed::runs::read(learnt(before)).len() <= usize::MAX,
    ensures
        handle.outcome() == Ok::<usize, Seq<char>>(
            crate::feed::runs::not_empty(crate::feed::runs::read(learnt(before))).len() as usize,
        ),
        crate::feed::runs::not_empty(crate::feed::runs::read(learnt(before))).len() <= usize::MAX,
{
    let start = crate::relay::new_relay::<String>(
        spread,
        outputs,
        Some(timeout),
        Some(max_time),
    );
    let all = before + after;
    let messages = crate::feed::runs::not_empty(crate::feed::runs::read(learnt(before)));
    passed_on_is_taken_or_waits(start, all);
    nothing_more_comes(start, before, after);
    crate::feed::runs::all_that_is_not_empty_is_passed_on(learnt(before));
    crate::feed::runs::read(learnt(before)).lemma_filter_len(|m: Seq<u8>| m.len() > 0);
    assert(crate::relay::runs::taken(start, told(all)) =~= messages);
    crate::relay::runs::terms_of_a_run(
        spread,
        outputs,
        Some(timeout),
        Some(max_time),
        told(all),
    );
    crate::fanout::stopping_gives_the_number_of_messages(
        handle,
        outputs,
        timeout,
        max_time,
        told(all),
    );
}

/// Under the same conditions every output of a broadcast is handed all those messages, framed
/// and in order, and nothing else.
pub proof fn a_stop_leaves_nothing_undelivered(
    outputs: usize,
    timeout: Option<u64>,
    max_time: Option<u64>,
    before: Seq<Step>,
    after: Seq<Step>,
    output: int,
)
    requires
        ({
            let start = crate::relay::new_relay::<String>(
                Spread::All,
                outputs,
                timeout,
                max_time,
            );
            &&& can_happen(start, before + after)
            &&& in_time(start, before + after)
            &&& is_open(start, before)
            &&& no_message_read(after)
            &&& is_ending(start, before + after)
        }),
        0 <= output < outputs,
    ensures
        ({
            let start = crate::relay::new_relay::<String>(
                Spread::All,
                outputs,
                timeout,
                max_time,
            );
            crate::relay::runs::sent_to(
                crate::relay::runs::actions(start, told(before + after)),
                output,
            ) == crate::feed::runs::not_empty(
                crate::feed::runs::read(learnt(before)),
            ).map_values(|data: Seq<u8>| crate::frame::framed(data))
        }),
{
    let start = crate::relay::new_relay::<String>(Spread::All, outputs, timeout, max_time);
    let all = before + after;
    passed_on_is_taken_or_waits(start, all);
    nothing_more_comes(start, before, after);
    crate::feed::runs::all_that_is_not_empty_is_passed_on(learnt(before));
    assert(crate::relay::runs::taken(start, told(all)) =~= crate::feed::runs::not_empty(
        crate::feed::runs::read(learnt(before)),
    ));
    crate::relay::runs::every_output_gets_every_message(
        outputs,
        timeout,
        max_time,
        told(all),
        output,
    );
}

} // verus!
