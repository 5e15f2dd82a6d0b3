//! Progress shown on the overlay: a sweep that repeats, and the stages of a
//! transition in basis points.

use vstd::prelude::*;

verus! {

/// Interval between two ticks of the sweep.
pub const SWEEP_TICK_MS: u32 = 16;

/// Time in which the sweep crosses the bar once.
pub const PROGRESS_CYCLE_MS: i32 = 5000;

/// Interval between two redraws of the stage progress.
pub const STAGE_TICK_MS: u32 = 50;

/// A full bar, in basis points.
pub const FULL_BPS: i32 = 10000;

/// Progress at the start of the hold.
pub const HOLD_PROGRESS_START: i32 = 5000;

/// Progress at the end of the hold.
pub const HOLD_PROGRESS_END: i32 = 9500;

/// The sweep's position one tick after `ms`.
pub open spec fn next_sweep(ms: int) -> int {
    (ms + SWEEP_TICK_MS) % (PROGRESS_CYCLE_MS as int)
}

/// The sweep's position `n` ticks after `ms`.
pub open spec fn sweep_after(ms: int, n: nat) -> int
    decreases n,
{
    if n == 0 {
        ms
    } else {
        next_sweep(sweep_after(ms, (n - 1) as nat))
    }
}

/// The sweep's position one tick later.
pub fn advance_sweep(ms: i32) -> (res: i32)
    requires
        0 <= ms < PROGRESS_CYCLE_MS,
    ensures
        res == next_sweep(ms as int),
        0 <= res < PROGRESS_CYCLE_MS,
{
    (ms + SWEEP_TICK_MS as i32) % PROGRESS_CYCLE_MS
}

/// A number of basis points, brought into the range of a bar.
pub open spec fn clamped_bps(bps: i32) -> i32 {
    if bps < 0 {
        0
    } else if bps > FULL_BPS {
        FULL_BPS
    } else {
        bps
    }
}

/// A number of basis points, brought into the range of a bar.
pub fn clamp_bps(bps: i32) -> (res: i32)
    ensures
        res == clamped_bps(bps),
        0 <= res <= FULL_BPS,
{
    if bps < 0 {
        0
    } else if bps > FULL_BPS {
        FULL_BPS
    } else {
        bps
    }
}

/// The basis points over which progress climbs during the hold.
pub fn hold_span() -> (res: i32)
    ensures
        res == HOLD_PROGRESS_END - HOLD_PROGRESS_START,
{
    HOLD_PROGRESS_END - HOLD_PROGRESS_START
}

/// Progress during the hold, `gained` basis points after its start.
pub fn hold_progress(gained: i32) -> (res: i32)
    requires
        HOLD_PROGRESS_START + gained <= i32::MAX,
    ensures
        res == HOLD_PROGRESS_START + gained,
{
    HOLD_PROGRESS_START + gained
}

/// From wherever it stands, the sweep moves by one interval per tick and starts
/// over at the end of the bar.
pub proof fn sweep_follows_ticks(ms: int, n: nat)
    requires
        0 <= ms < PROGRESS_CYCLE_MS,
    ensures
        sweep_after(ms, n) == (ms + n * SWEEP_TICK_MS) % (PROGRESS_CYCLE_MS as int),
        0 <= sweep_after(ms, n) < PROGRESS_CYCLE_MS,
    decreases n,
{
    if n > 0 {
        sweep_follows_ticks(ms, (n - 1) as nat);
        let x = ms + (n - 1) * SWEEP_TICK_MS;
        assert(x + SWEEP_TICK_MS == ms + n * SWEEP_TICK_MS);
        vstd::arithmetic::div_mod::lemma_add_mod_noop(
            x,
            SWEEP_TICK_MS as int,
            PROGRESS_CYCLE_MS as int,
        );
    }
}

/// From wherever it stands, the sweep repeats: 625 ticks, which are two whole
/// crossings, bring it back to where it was.
pub proof fn sweep_repeats(ms: int, n: nat)
    requires
        0 <= ms < PROGRESS_CYCLE_MS,
    ensures
        sweep_after(ms, 625) == ms,
        sweep_after(ms, n + 625) == sweep_after(ms, n),
        625 * SWEEP_TICK_MS == 2 * PROGRESS_CYCLE_MS,
{
    sweep_follows_ticks(ms, n);
    sweep_follows_ticks(ms, n + 625);
    sweep_follows_ticks(ms, 625);
    assert((ms + n * 16 + 10000) % 5000 == (ms + n * 16) % 5000);
}

/// A tick moves the sweep by sixteen milliseconds and takes the whole bar off once
/// it has been crossed.
pub proof fn a_tick_moves_the_sweep(ms: i32, res: i32)
    requires
        call_ensures(advance_sweep, (ms,), res),
        0 <= ms < 5000,
    ensures
        0 <= res < 5000,
        res == ms + 16 || res == ms + 16 - 5000,
{
}

/// Basis points within a bar stay as they are, and others go to the nearer end.
pub proof fn clamping_keeps_what_fits(bps: i32, res: i32)
    requires
        call_ensures(clamp_bps, (bps,), res),
    ensures
        0 <= res <= 10000,
        0 <= bps <= 10000 ==> res == bps,
        bps <= 0 ==> res == 0,
        bps >= 10000 ==> res == 10000,
{
}

/// Progress in the hold is half a bar and what was gained since.
pub proof fn the_hold_adds_to_half_a_bar(gained: i32, res: i32)
    requires
        call_ensures(hold_progress, (gained,), res),
        5000 + gained <= i32::MAX,
    ensures
        res - gained == 5000,
{
}

/// The sweep can be moved on from anywhere on the bar, and anything that the hold
/// gains can be shown.
pub proof fn any_progress_can_be_moved_on(ms: i32, gained: i32, span: i32)
    requires
        0 <= ms < 5000,
        0 <= gained <= 4500,
        call_ensures(hold_span, (), span),
    ensures
        call_requires(advance_sweep, (ms,)),
        call_requires(hold_progress, (gained,)),
        span == 4500,
{
}

} // verus!
