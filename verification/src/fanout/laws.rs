//! What holds of the relays that the commands and the tools begin.
use crate::cli::Exit;
use crate::create::{CreateError, Mkfifo};
use crate::fanout::{BroadcastHandle, HandleState, Waiting};
use crate::relay::{Relay, RelayAction, RelayEnd, RelayEvent, RelayPhase, Spread};
use vstd::prelude::*;

verus! {

/// A command has a relay exactly where it has an output to write to, and the relay is on the
/// terms that it was given; otherwise it complains.
pub proof fn a_command_keeps_to_its_terms(
    begun: Result<Relay<String>, String>,
    spread: Spread,
    outputs: usize,
    timeout: Option<u64>,
    max_time: Option<u64>,
)
    requires
        crate::fanout::is_begun(begun, spread, outputs, timeout, max_time),
    ensures
        begun is Ok <==> outputs > 0,
        begun matches Ok(relay) ==> {
            &&& relay@.spread == spread && relay@.outputs == outputs
            &&& relay@.timeout == timeout && relay@.max_time == max_time
            &&& relay@.phase is Creating && relay@.count == 0 && relay@.turn == 0
        },
        begun matches Err(text) ==> text@ == match spread {
            Spread::All => "broadcast requires at least one output FIFO"@,
            Spread::Rotate => "roundrobin requires at least one output FIFO"@,
        },
{
}

/// Whatever its limits are, the relay that the broadcast command begins sends every message
/// that it takes, framed and in order, to every output, and nothing else.
pub proof fn the_broadcast_command_writes_to_every_output(
    begun: Result<Relay<String>, String>,
    outputs: usize,
    timeout: Option<u64>,
    max_time: Option<u64>,
    events: Seq<RelayEvent<Seq<u8>, String>>,
    output: int,
)
    requires
        crate::fanout::is_begun(begun, Spread::All, outputs, timeout, max_time),
        0 <= output < outputs,
    ensures
        begun is Ok,
        ({
            let start = begun->Ok_0@;
            crate::relay::runs::sent_to(crate::relay::runs::actions(start, events), output)
                == crate::relay::runs::taken(start, events).map_values(
                |data: Seq<u8>| crate::frame::framed(data),
            )
        }),
{
    crate::relay::runs::every_output_gets_every_message(
        outputs,
        timeout,
        max_time,
        events,
        output,
    );
}

/// Whatever its limits are, the relay that the round-robin command begins sends the messages
/// that it takes to the outputs in turn, framed, each to one.
pub proof fn the_roundrobin_command_goes_round_the_outputs(
    begun: Result<Relay<String>, String>,
    outputs: usize,
    timeout: Option<u64>,
    max_time: Option<u64>,
    events: Seq<RelayEvent<Seq<u8>, String>>,
)
    requires
        crate::fanout::is_begun(begun, Spread::Rotate, outputs, timeout, max_time),
        outputs > 0,
    ensures
        begun is Ok,
        ({
            let start = begun->Ok_0@;
            let sent = crate::relay::runs::parcels(crate::relay::runs::actions(start, events));
            let taken = crate::relay::runs::taken(start, events);
            &&& sent.len() == taken.len()
            &&& forall|k: int| #![trigger sent[k]]
                0 <= k < sent.len() ==> sent[k].data == crate::frame::framed(taken[k])
                    && sent[k].first == k % (outputs as int) && sent[k].end == sent[k].first + 1
        }),
{
    crate::relay::runs::messages_go_round_the_outputs(outputs, timeout, max_time, events);
}

/// The first message that comes to the relay of the broadcast command goes, framed, to all
/// outputs at once, whatever the limits, as long as the maximum time has not passed.
pub proof fn a_first_message_goes_to_all_outputs(
    begun: Result<Relay<String>, String>,
    outputs: usize,
    timeout: Option<u64>,
    max_time: Option<u64>,
    started: u64,
    now: u64,
    data: Seq<u8>,
)
    requires
        crate::fanout::is_begun(begun, Spread::All, outputs, timeout, max_time),
        outputs > 0,
        max_time is None || max_time == Some(0u64) || now - started < max_time.unwrap()
            * 1_000_000_000,
    ensures
        begun->Ok_0@.step(RelayEvent::Mkfifo(Mkfifo::Created)).0.step(
            RelayEvent::Started(started),
        ).0.step(RelayEvent::Clock(now)).0.step(RelayEvent::Message(data)).1 == (
        RelayAction::Deliver { data: crate::frame::framed(data), first: 0, end: outputs }),
{
}

/// A message is written to outputs that there are, and only to those.
pub proof fn a_message_goes_to_outputs_only<T>(
    spread: Spread,
    outputs: usize,
    timeout: Option<u64>,
    max_time: Option<u64>,
    events: Seq<RelayEvent<Seq<u8>, T>>,
    data: Seq<u8>,
)
    requires
        outputs > 0,
        crate::relay::runs::run(
            crate::relay::new_relay::<T>(spread, outputs, timeout, max_time),
            events,
        ).phase is Receiving,
    ensures
        ({
            let s = crate::relay::runs::run(
                crate::relay::new_relay::<T>(spread, outputs, timeout, max_time),
                events,
            );
            &&& s.step(RelayEvent::Message(data)).1 matches RelayAction::Deliver {
                data: written,
                first,
                end,
            }
            &&& written == crate::frame::framed(data)
            &&& first < end <= outputs
            &&& spread is All ==> first == 0 && end == outputs
            &&& spread is Rotate ==> end == first + 1
        }),
{
    crate::relay::runs::terms_of_a_run(spread, outputs, timeout, max_time, events);
    if spread is Rotate {
        crate::relay::runs::messages_go_round_the_outputs::<T>(outputs, timeout, max_time, events);
        let k = crate::relay::runs::taken(
            crate::relay::new_relay::<T>(spread, outputs, timeout, max_time),
            events,
        ).len() as int;
        assert(0 <= k % (outputs as int) < outputs) by (nonlinear_arith)
            requires
                outputs > 0,
        ;
    }
}

/// A tool has a relay exactly where it has an output to write to. The relay is the one that the
/// command would have on the same terms, and stands at the path.
pub proof fn a_handle_keeps_to_its_terms(
    started: Result<BroadcastHandle, String>,
    path: Seq<char>,
    spread: Spread,
    waiting: Waiting,
    outputs: usize,
    timeout: u64,
    max_time: u64,
    begun: Result<Relay<String>, String>,
)
    requires
        crate::fanout::is_started(started, path, spread, waiting, outputs, timeout, max_time),
        crate::fanout::is_begun(begun, spread, outputs, Some(timeout), Some(max_time)),
    ensures
        started is Ok <==> outputs > 0,
        started matches Ok(handle) ==> {
            &&& handle@.path == path
            &&& handle@.waiting == waiting
            &&& handle@.relay == begun->Ok_0@
            &&& handle@.relay.spread == spread && handle@.relay.outputs == outputs
            &&& handle@.relay.timeout == Some(timeout) && handle@.relay.max_time == Some(max_time)
        },
        started matches Err(text) ==> text@ == begun->Err_0@,
{
}

/// What stopping a relay says of each end: the count where it ended cleanly or has not ended,
/// otherwise why it came to nothing, with the path or what the system said.
pub proof fn stopping_says_how_it_ended(
    handle: HandleState,
    error: CreateError<String>,
    reason: String,
)
    ensures
        !(handle.relay.phase is Ended) ==> handle.outcome() == Ok::<usize, Seq<char>>(
            handle.relay.count,
        ),
        handle.relay.phase == RelayPhase::<String>::Ended(RelayEnd::Clean) ==> handle.outcome()
            == Ok::<usize, Seq<char>>(handle.relay.count),
        handle.relay.phase == RelayPhase::<String>::Ended(RelayEnd::TimedOut) ==> handle.outcome()
            == Err::<usize, Seq<char>>(
            "timed out waiting for writer on '"@ + handle.path + "'"@,
        ),
        handle.relay.phase == RelayPhase::Ended(RelayEnd::Refused(error)) ==> handle.outcome()
            == Err::<usize, Seq<char>>(crate::create::refusal_text(error@, handle.path)),
        handle.relay.phase == RelayPhase::Ended(RelayEnd::SpawnFailed(reason)) ==> handle.outcome()
            == Err::<usize, Seq<char>>(
            match (handle.relay.spread, handle.waiting) {
                (
                    Spread::All,
                    Waiting::Foreground,
                ) => "failed to spawn broadcast reader thread"@,
                (Spread::All, Waiting::Background) => "failed to spawn broadcast thread"@,
                (
                    Spread::Rotate,
                    Waiting::Foreground,
                ) => "failed to spawn round-robin reader thread"@,
                (Spread::Rotate, Waiting::Background) => "failed to spawn round-robin thread"@,
            } + ": "@ + reason@,
        ),
{
}

/// How a relay command leaves: with success exactly where it ended cleanly, with the code of a
/// timeout and a complaint that names the input exactly where no writer came, and otherwise
/// with an error that says what failed and why.
pub proof fn a_relay_command_leaves_by_its_end(
    spread: Spread,
    end: RelayEnd<Seq<char>>,
    path: Seq<char>,
)
    ensures
        ({
            let exit = crate::fanout::relay_exit(spread, end, path);
            &&& exit.code_of() == 0 <==> end is Clean
            &&& exit.code_of() == 124 <==> end is TimedOut
            &&& exit.code_of() == 1 <==> end is Refused || end is SpawnFailed
            &&& end is TimedOut ==> exit == (Exit::Complaint {
                code: 124,
                text: "error: "@ + ("timed out waiting for writer on '"@ + path + "'"@),
            })
            &&& end matches RelayEnd::Refused(error) ==> exit == (Exit::Error {
                headline: crate::create::refusal_headline(error, path),
                cause: error.reason(),
            })
            &&& end matches RelayEnd::SpawnFailed(reason) ==> exit == (Exit::Error {
                headline: match spread {
                    Spread::All => "failed to spawn broadcast reader thread"@,
                    Spread::Rotate => "failed to spawn round-robin reader thread"@,
                },
                cause: Some(reason),
            })
        }),
{
}

} // verus!
