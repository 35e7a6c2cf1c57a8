use vstd::prelude::*;

verus! {

/// What one wait for terminal input gave.
#[derive(Debug, Clone, Copy, PartialEq, Eq, Structural)]
pub enum PollOutcome {
    /// A key was pressed.
    KeyPress,
    /// A key event other than a press (a release or a repeat).
    KeyOther,
    /// An event that is not a key (mouse, resize, focus, paste).
    OtherEvent,
    /// Nothing arrived before the timeout.
    NoEvent,
    /// Waiting for or reading the event failed.
    Failed,
}

/// What the input loop does after one wait: pass the key on, send a tick,
/// stop.
#[derive(Debug, Clone, Copy, PartialEq, Eq, Structural)]
pub struct InputStep {
    pub forward_key: bool,
    pub send_tick: bool,
    pub stop: bool,
}

/// How long to wait for input: what is left of the tick period, or nothing
/// once it has run out. Durations in nanoseconds.
pub fn poll_timeout(tick_rate_nanos: u128, since_tick_nanos: u128) -> (res: u128)
    ensures
        res == if since_tick_nanos < tick_rate_nanos {
            tick_rate_nanos - since_tick_nanos
        } else {
            0
        },
{
    if since_tick_nanos < tick_rate_nanos {
        tick_rate_nanos - since_tick_nanos
    } else {
        0
    }
}

/// What to do after a wait that gave `outcome`, `since_tick_nanos` after the
/// last tick: key presses (and no other key events) are passed on, a failure
/// stops the loop, and otherwise a tick is due once the tick period has passed.
pub fn input_step(outcome: PollOutcome, tick_rate_nanos: u128, since_tick_nanos: u128) -> (res: InputStep)
    ensures
        res.stop <==> outcome == PollOutcome::Failed,
        res.forward_key <==> outcome == PollOutcome::KeyPress,
        res.send_tick <==> (outcome != PollOutcome::Failed && since_tick_nanos >= tick_rate_nanos),
{
    match outcome {
        PollOutcome::Failed => InputStep { forward_key: false, send_tick: false, stop: true },
        _ => InputStep {
            forward_key: outcome == PollOutcome::KeyPress,
            send_tick: since_tick_nanos >= tick_rate_nanos,
            stop: false,
        },
    }
}

/// Whether the input loop must be restarted: its tick period is no longer the
/// configured refresh interval.
pub fn input_needs_restart(running_interval_ms: u64, configured_interval_ms: u64) -> (res: bool)
    ensures
        res == (running_interval_ms != configured_interval_ms),
{
    running_interval_ms != configured_interval_ms
}

} // verus!
