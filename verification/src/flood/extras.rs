//! Plain values that travel with a widget tree: timeouts, their durations,
//! text input and the stacking of layers.
use vstd::prelude::*;

verus! {

/// A message to deliver once a duration has passed.
#[derive(Clone, Debug)]
pub struct Timeout<MsgT> {
    pub id: u64,
    pub msg: MsgT,
    pub duration: Duration,
}

#[derive(Copy, Clone, PartialEq, Eq, Debug, Structural)]
pub enum Duration {
    Seconds(u64),
    Milliseconds(u64),
}

/// The shortest wait, in milliseconds, that a timer is started with.
pub const MILLIS_LOWER_LIMIT: u64 = 300;

/// The wait that a timer for `duration` actually performs.
pub open spec fn spec_timer_delay(duration: Duration) -> Duration {
    match duration {
        Duration::Seconds(secs) => Duration::Seconds(secs),
        Duration::Milliseconds(millis) => Duration::Milliseconds(
            if millis < MILLIS_LOWER_LIMIT { MILLIS_LOWER_LIMIT } else { millis },
        ),
    }
}

/// The wait that a timer for `duration` performs: whole seconds as given,
/// milliseconds raised to at least `MILLIS_LOWER_LIMIT`.
pub fn timer_delay(duration: Duration) -> (d: Duration)
    ensures
        d == spec_timer_delay(duration),
        d matches Duration::Milliseconds(millis) ==> millis >= MILLIS_LOWER_LIMIT,
{
    match duration {
        Duration::Seconds(secs) => Duration::Seconds(secs),
        Duration::Milliseconds(millis) => Duration::Milliseconds(
            if millis < MILLIS_LOWER_LIMIT { MILLIS_LOWER_LIMIT } else { millis },
        ),
    }
}

/// A timer never waits less than it was asked to, nor less than
/// `MILLIS_LOWER_LIMIT` milliseconds; it waits longer only to reach that
/// limit, and waits whole seconds as asked.
pub proof fn lemma_timer_delay_bounds(duration: Duration)
    ensures
        duration matches Duration::Seconds(secs) ==> spec_timer_delay(duration)
            == Duration::Seconds(secs),
        duration matches Duration::Milliseconds(millis) ==> (spec_timer_delay(
            duration,
        ) matches Duration::Milliseconds(wait) && wait >= millis && wait >= 300 && (wait == millis
            || wait == 300)),
{
}

/// An edit that a keyboard makes to a text field.
#[derive(Clone, PartialEq, Eq, Debug)]
pub enum Input {
    Insert(String),
    DeleteBack,
}

/// How a near layer is stacked over a far one.
#[derive(Clone, PartialEq, Debug)]
pub enum Stratum {
    JustBelow,
}

} // verus!
