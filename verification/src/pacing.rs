//! Constant-frame-rate pacing of the frames written to the encoder: how many
//! frames a round of the encoding loop writes, and when the pacer gives up
//! on catching up. Times are in nanoseconds; the caller reads the clock.
use vstd::prelude::*;

verus! {

/// The most frames one round of the encoding loop writes to catch up.
pub const CATCH_UP_LIMIT: u32 = 5;

/// How far the pacer may fall behind (one second) before it starts over
/// from the current time instead of catching up.
pub const RESYNC_AFTER_NS: u64 = 1_000_000_000;

/// Whether another frame is due: a whole frame interval has passed since the
/// last frame time and the round still has room for a frame.
pub open spec fn frame_due(elapsed_ns: u64, interval_ns: u64, budget: u32) -> bool {
    elapsed_ns >= interval_ns && budget > 0
}

/// One step of a pacing round. `elapsed_ns` is the time since the last frame
/// time, read just now, and `budget` the frames the round may still write.
/// Returns whether to write a frame now and the budget left after it; the
/// caller then moves the last frame time forward by exactly one interval.
pub fn pacing_step(elapsed_ns: u64, interval_ns: u64, budget: u32) -> (r: (bool, u32))
    ensures
        r.0 == frame_due(elapsed_ns, interval_ns, budget),
        r.1 == (if r.0 { budget - 1 } else { budget as int }),
{
    if elapsed_ns >= interval_ns && budget > 0 {
        (true, budget - 1)
    } else {
        (false, budget)
    }
}

/// Whether the pacer has fallen more than a second behind and restarts from
/// the current time.
pub fn pacer_must_resync(elapsed_ns: u64) -> (r: bool)
    ensures
        r == (elapsed_ns > RESYNC_AFTER_NS),
{
    elapsed_ns > RESYNC_AFTER_NS
}

/// The number of frames a pacing round writes when the successive readings
/// of the time since the last frame time are `readings`: the round stops at
/// the first reading at which no frame is due.
pub open spec fn round_writes(readings: Seq<u64>, interval_ns: u64, budget: u32) -> nat
    decreases readings.len(),
{
    if readings.len() == 0 || !frame_due(readings[0], interval_ns, budget) {
        0
    } else {
        1 + round_writes(readings.drop_first(), interval_ns, (budget - 1) as u32)
    }
}

/// A pacing round never writes more frames than its budget, whatever the
/// clock reads: at most `CATCH_UP_LIMIT` frames per round.
pub proof fn law_round_within_budget(readings: Seq<u64>, interval_ns: u64, budget: u32)
    ensures
        round_writes(readings, interval_ns, budget) <= budget,
    decreases readings.len(),
{
    if readings.len() > 0 && frame_due(readings[0], interval_ns, budget) {
        law_round_within_budget(readings.drop_first(), interval_ns, (budget - 1) as u32);
    }
}

} // verus!
