//! What holds of what runs in the background, whatever is started and stopped.
use crate::paths::PathKeyView;
use crate::server::Kind;
use vstd::prelude::*;

verus! {

/// Where one runs, a second start is refused, however the path is spelt and whatever became
/// of it, and changes nothing.
pub proof fn a_second_start_is_refused<H>(
    running: Map<PathKeyView, H>,
    kind: Kind,
    path: Seq<char>,
    handle: H,
    again: Seq<char>,
    started: Result<H, Seq<char>>,
)
    requires
        crate::paths::key_of(again) == crate::paths::key_of(path),
    ensures
        ({
            let (once, _) = crate::server::after_start(running, kind, path, Ok(handle));
            let (twice, answer) = crate::server::after_start(once, kind, again, started);
            &&& answer == Err::<Seq<char>, Seq<char>>(crate::server::active_text(kind, again))
            &&& twice == once
        }),
{
}

/// A start that did not succeed changes nothing.
pub proof fn a_failed_start_changes_nothing<H>(
    running: Map<PathKeyView, H>,
    kind: Kind,
    path: Seq<char>,
    started: Result<H, Seq<char>>,
)
    ensures
        crate::server::after_start(running, kind, path, started).1 is Err
            ==> crate::server::after_start(running, kind, path, started).0 == running,
{
}

/// What was started is what is stopped, however the path is spelt, and then all is as it was
/// before the start.
pub proof fn what_was_started_can_be_stopped<H>(
    running: Map<PathKeyView, H>,
    kind: Kind,
    path: Seq<char>,
    handle: H,
    later: Seq<char>,
)
    requires
        !crate::server::runs_at(running, path),
        crate::paths::key_of(later) == crate::paths::key_of(path),
    ensures
        ({
            let (during, answer) = crate::server::after_start(running, kind, path, Ok(handle));
            let (after, taken) = crate::server::after_take(during, kind, later);
            &&& answer == Ok::<Seq<char>, Seq<char>>(crate::server::started_text(kind, path))
            &&& taken == Ok::<H, Seq<char>>(handle)
            &&& after == running
        }),
{
    let key = crate::paths::key_of(path);
    assert(running.insert(key, handle).remove(key) =~= running);
}

/// Once stopped, it cannot be stopped again, and the path is free for a new start.
pub proof fn what_was_stopped_is_gone<H>(
    running: Map<PathKeyView, H>,
    kind: Kind,
    path: Seq<char>,
    handle: H,
)
    ensures
        ({
            let (after, _) = crate::server::after_take(running, kind, path);
            &&& crate::server::after_take(after, kind, path) == (
                after,
                Err::<H, Seq<char>>(crate::server::missing_text(kind, path)),
            )
            &&& crate::server::after_start(after, kind, path, Ok(handle)).1 == Ok::<
                Seq<char>,
                Seq<char>,
            >(crate::server::started_text(kind, path))
        }),
{
}

/// Starting and stopping at one path leaves what runs at other paths alone.
pub proof fn other_paths_are_left_alone<H>(
    running: Map<PathKeyView, H>,
    kind: Kind,
    path: Seq<char>,
    started: Result<H, Seq<char>>,
    other: Seq<char>,
)
    requires
        crate::paths::key_of(other) != crate::paths::key_of(path),
    ensures
        ({
            let key = crate::paths::key_of(other);
            let (begun, _) = crate::server::after_start(running, kind, path, started);
            let (ended, _) = crate::server::after_take(running, kind, path);
            &&& crate::server::runs_at(begun, other) == crate::server::runs_at(running, other)
            &&& crate::server::runs_at(ended, other) == crate::server::runs_at(running, other)
            &&& crate::server::runs_at(running, other) ==> begun[key] == running[key]
                && ended[key] == running[key]
        }),
{
}

/// What is taken out is what runs at the path, whatever else runs; what is not there is answered
/// with the path.
pub proof fn what_runs_at_a_path_is_taken_out<H>(
    running: Map<PathKeyView, H>,
    kind: Kind,
    path: Seq<char>,
)
    ensures
        ({
            let key = crate::paths::key_of(path);
            let (after, taken) = crate::server::after_take(running, kind, path);
            &&& crate::server::runs_at(running, path) <==> running.dom().contains(key)
            &&& running.dom().contains(key) ==> taken == Ok::<H, Seq<char>>(running[key])
                && after == running.remove(key)
            &&& !running.dom().contains(key) ==> taken is Err && after == running
        }),
{
}

/// A start where nothing runs is answered by what became of it: with the text of its failure, or
/// with the path; and what was started runs at the path.
pub proof fn a_start_is_answered_by_what_became_of_it<H>(
    running: Map<PathKeyView, H>,
    kind: Kind,
    path: Seq<char>,
    handle: H,
    text: Seq<char>,
)
    requires
        !running.dom().contains(crate::paths::key_of(path)),
    ensures
        crate::server::after_start(running, kind, path, Err(text)) == (
            running,
            Err::<Seq<char>, Seq<char>>(text),
        ),
        crate::server::after_start(running, kind, path, Ok(handle)) == (
            running.insert(crate::paths::key_of(path), handle),
            Ok::<Seq<char>, Seq<char>>(crate::server::started_text(kind, path)),
        ),
{
}

/// Every answer names the kind of what it speaks of, and the path, whole and in quotes.
pub proof fn answers_name_the_path(path: Seq<char>)
    ensures
        crate::server::active_text(Kind::Linger, path) == "linger reader already active for '"@
            + path + "'"@,
        crate::server::active_text(Kind::Broadcast, path) == "broadcast already active for '"@
            + path + "'"@,
        crate::server::active_text(Kind::RoundRobin, path) == "round-robin already active for '"@
            + path + "'"@,
        crate::server::started_text(Kind::Linger, path) == "linger reader started at '"@ + path
            + "'"@,
        crate::server::started_text(Kind::Broadcast, path) == "broadcast started at '"@ + path
            + "'"@,
        crate::server::started_text(Kind::RoundRobin, path) == "round-robin started at '"@ + path
            + "'"@,
        crate::server::missing_text(Kind::Linger, path) == "no linger reader found for '"@ + path
            + "'"@,
        crate::server::missing_text(Kind::Broadcast, path) == "no broadcast found for '"@ + path
            + "'"@,
        crate::server::missing_text(Kind::RoundRobin, path) == "no round-robin found for '"@ + path
            + "'"@,
{
}

/// A count is answered with the number in decimal between its words.
pub proof fn counts_are_answered_in_full(before: Seq<char>, count: usize, after: Seq<char>)
    ensures
        ({
            let text = crate::server::counted(before, count, after);
            let n = text.len() - before.len() - after.len();
            &&& n > 0
            &&& text.take(before.len() as int) == before
            &&& text.skip(before.len() + n) == after
            &&& crate::text::value_of(text.subrange(before.len() as int, before.len() + n)) == count
        }),
{
    let digits = crate::text::decimal_digits(count as nat);
    let text = crate::server::counted(before, count, after);
    crate::text::decimal_digits_stand_for_the_number(count as nat);
    assert(text.take(before.len() as int) =~= before);
    assert(text.skip((before.len() + digits.len()) as int) =~= after);
    assert(text.subrange(before.len() as int, (before.len() + digits.len()) as int) =~= digits);
}

/// A server begins with nothing, and an error is taken with its very text.
pub proof fn a_server_begins_with_nothing<R, B, H>(result: Result<H, String>, path: Seq<char>)
    ensures
        !crate::server::runs_at(crate::server::idle::<R, B>().readers, path),
        !crate::server::runs_at(crate::server::idle::<R, B>().broadcasters, path),
        !crate::server::runs_at(crate::server::idle::<R, B>().roundrobins, path),
        result matches Ok(value) ==> crate::server::error_view(result) == Ok::<H, Seq<char>>(value),
        result matches Err(text) ==> crate::server::error_view(result) == Err::<H, Seq<char>>(
            text@,
        ),
{
}

} // verus!
