//! Deadlines on a clock that counts nanoseconds from an origin of the caller's choice.
use vstd::prelude::*;

verus! {

/// Nanoseconds in a second.
pub const NANOS_PER_SEC: u128 = 1_000_000_000;

/// A moment after which waiting is over, or none at all.
#[derive(Debug, Clone, Copy)]
pub struct Deadline {
    at: Option<u128>,
}

/// When a limit of `secs` seconds that starts at `now` is reached; no limit, and a limit
/// of zero seconds, are never reached.
pub open spec fn limit_from(now: int, secs: Option<u64>) -> Option<int> {
    match secs {
        Some(s) if s > 0 => Some(now + s * 1_000_000_000),
        _ => None,
    }
}

/// A moment at or after the limit.
pub open spec fn reached(limit: Option<int>, now: int) -> bool {
    match limit {
        Some(at) => now >= at,
        None => false,
    }
}

impl View for Deadline {
    type V = Option<int>;

    closed spec fn view(&self) -> Option<int> {
        match self.at {
            Some(at) => Some(at as int),
            None => None,
        }
    }
}

impl Deadline {
    /// No deadline.
    pub fn never() -> (deadline: Deadline)
        ensures
            deadline@ == None::<int>,
    {
        Deadline { at: None }
    }

    /// The deadline `secs` seconds after `now`. Zero seconds mean no deadline, as does
    /// leaving the limit out.
    pub fn after(now: u64, secs: Option<u64>) -> (deadline: Deadline)
        ensures
            deadline@ == limit_from(now as int, secs),
    {
        match secs {
            Some(s) => {
                if s > 0 {
                    Deadline { at: Some(now as u128 + s as u128 * NANOS_PER_SEC) }
                } else {
                    Deadline { at: None }
                }
            },
            None => Deadline { at: None },
        }
    }

    /// Whether the deadline has come.
    pub fn expired(&self, now: u64) -> (gone: bool)
        ensures
            gone == reached(self@, now as int),
    {
        match self.at {
            Some(at) => now as u128 >= at,
            None => false,
        }
    }
}

/// Waiting with a limit of zero seconds is waiting without a limit.
pub proof fn zero_seconds_is_no_limit(start: int, now: int)
    ensures
        limit_from(start, Some(0)) == limit_from(start, None),
        !reached(limit_from(start, Some(0)), now),
{
}

/// A limit is reached exactly when its seconds have passed, and stays reached.
pub proof fn limit_is_reached_after_its_seconds(start: int, secs: u64, now: int, later: int)
    requires
        secs > 0,
        now <= later,
    ensures
        reached(limit_from(start, Some(secs)), now) <==> now - start >= secs * 1_000_000_000,
        reached(limit_from(start, Some(secs)), now) ==> reached(
            limit_from(start, Some(secs)),
            later,
        ),
{
}

} // verus!
