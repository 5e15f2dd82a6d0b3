//! The overlay's opacity and its linear fade.

use vstd::prelude::*;

verus! {

/// Nominal duration of a fade. The step that it gives per tick is rounded down to
/// whole alpha units, so that a fade from end to end takes a little longer.
pub const FADE_DURATION_MS: i32 = 300;

/// Interval between two ticks of a fade.
pub const FADE_TICK_MS: u32 = 10;

/// Opacity of a fully shown overlay.
pub const OPAQUE: i32 = 255;

/// Extra time that a fade is given before the launcher goes on.
pub const FADE_MARGIN_MS: u64 = 50;

/// Alpha units per tick: the whole range over the nominal duration, rounded down,
/// and at least one, so that every fade moves.
pub open spec fn fade_step() -> int {
    let step = OPAQUE * FADE_TICK_MS / (FADE_DURATION_MS as int);
    if step < 1 {
        1
    } else {
        step
    }
}

/// The alpha one tick after `current`, moving towards `target` without passing it.
pub open spec fn next_alpha(current: int, target: int) -> int {
    if current < target {
        if current + fade_step() < target {
            current + fade_step()
        } else {
            target
        }
    } else {
        if current - fade_step() > target {
            current - fade_step()
        } else {
            target
        }
    }
}

/// Opacity shown now and opacity aimed at.
#[derive(Debug, Clone, Copy, PartialEq, Eq, Structural)]
pub struct Fade {
    pub current: i32,
    pub target: i32,
}

/// What a fade tick asks of the window.
#[derive(Debug, Clone, Copy, PartialEq, Eq, Structural)]
pub enum FadeTick {
    /// The target has been reached: stop the fade timer.
    StopTimer,
    /// Show the window with this opacity.
    ShowAlpha(u8),
}

impl Fade {
    /// Both opacities are alpha values, and the target is one of the two ends.
    pub open spec fn well_formed(self) -> bool {
        &&& 0 <= self.current <= OPAQUE
        &&& self.target == 0 || self.target == OPAQUE
    }

    /// The fade one tick later.
    pub open spec fn spec_tick(self) -> Fade {
        Fade { current: next_alpha(self.current as int, self.target as int) as i32, ..self }
    }

    /// The fade after `n` ticks.
    pub open spec fn after(self, n: nat) -> Fade
        decreases n,
    {
        if n == 0 {
            self
        } else {
            self.after((n - 1) as nat).spec_tick()
        }
    }

    /// A fully transparent overlay at rest.
    pub fn new() -> (res: Fade)
        ensures
            res == (Fade { current: 0, target: 0 }),
            res.well_formed(),
    {
        Fade { current: 0, target: 0 }
    }

    /// Aims at full opacity.
    pub fn fade_in(&mut self)
        requires
            old(self).well_formed(),
        ensures
            *final(self) == (Fade { target: OPAQUE, ..*old(self) }),
            final(self).well_formed(),
    {
        self.target = OPAQUE;
    }

    /// Aims at full transparency.
    pub fn fade_out(&mut self)
        requires
            old(self).well_formed(),
        ensures
            *final(self) == (Fade { target: 0, ..*old(self) }),
            final(self).well_formed(),
    {
        self.target = 0;
    }

    /// One tick of the fade timer: moves one step towards the target, or asks to
    /// stop the timer where the target is reached already.
    pub fn tick(&mut self) -> (res: FadeTick)
        requires
            old(self).well_formed(),
        ensures
            *final(self) == old(self).spec_tick(),
            final(self).well_formed(),
            old(self).current == old(self).target ==> res == FadeTick::StopTimer,
            old(self).current != old(self).target ==> res == FadeTick::ShowAlpha(
                final(self).current as u8,
            ),
    {
        let current: i32 = self.current;
        let target: i32 = self.target;
        if current == target {
            return FadeTick::StopTimer;
        }
        let raw_step: i32 = OPAQUE * FADE_TICK_MS as i32 / FADE_DURATION_MS;
        let step: i32 = if raw_step < 1 {
            1
        } else {
            raw_step
        };
        let next: i32 = if current < target {
            if current + step < target {
                current + step
            } else {
                target
            }
        } else {
            if current - step > target {
                current - step
            } else {
                target
            }
        };
        self.current = next;
        FadeTick::ShowAlpha(next as u8)
    }
}

/// How long the launcher waits for a fade before it goes on.
pub fn fade_wait_ms() -> (res: u64)
    ensures
        res == FADE_DURATION_MS + FADE_MARGIN_MS,
{
    FADE_DURATION_MS as u64 + FADE_MARGIN_MS
}

/// What `n` ticks do to a fade, in closed form.
pub proof fn fade_after_ticks(f: Fade, n: nat)
    requires
        f.well_formed(),
    ensures
        f.after(n).well_formed(),
        f.after(n).target == f.target,
        f.current <= f.target ==> f.after(n).current == if f.current + n * fade_step() < f.target {
            f.current + n * fade_step()
        } else {
            f.target as int
        },
        f.current >= f.target ==> f.after(n).current == if f.current - n * fade_step() > f.target {
            f.current - n * fade_step()
        } else {
            f.target as int
        },
    decreases n,
{
    if n > 0 {
        fade_after_ticks(f, (n - 1) as nat);
        assert(fade_step() == 8);
    }
}

/// A fade never leaves the span between where it started and its target, and
/// each tick brings it no further from the target.
pub proof fn fade_never_overshoots(f: Fade, m: nat, n: nat)
    requires
        f.well_formed(),
        m <= n,
    ensures
        f.current <= f.target ==> f.current <= f.after(m).current <= f.after(n).current
            <= f.target,
        f.current >= f.target ==> f.current >= f.after(m).current >= f.after(n).current
            >= f.target,
{
    fade_after_ticks(f, m);
    fade_after_ticks(f, n);
    assert(fade_step() == 8);
}

/// A tick that does not find the target reached brings the fade closer to it.
pub proof fn fade_makes_progress(f: Fade)
    requires
        f.well_formed(),
        f.current != f.target,
    ensures
        f.current < f.target ==> f.current < f.spec_tick().current <= f.target,
        f.current > f.target ==> f.current > f.spec_tick().current >= f.target,
{
}

/// Every fade has reached its target by the time for which the launcher waits.
pub proof fn fade_done_when_launcher_goes_on(f: Fade, n: nat)
    requires
        f.well_formed(),
        n * FADE_TICK_MS >= FADE_DURATION_MS + FADE_MARGIN_MS,
    ensures
        f.after(n).current == f.target,
{
    fade_after_ticks(f, n);
    assert(fade_step() == 8);
}

/// A fade between the two ends takes thirty-two ticks and no fewer.
pub proof fn full_fade_length(f: Fade, n: nat)
    requires
        f.well_formed(),
        f.current == OPAQUE - f.target,
    ensures
        f.after(n).current == f.target <==> n >= 32,
{
    fade_after_ticks(f, n);
    assert(fade_step() == 8);
}

/// A fade that has reached its target stays there.
pub proof fn fade_rests_at_target(f: Fade, n: nat)
    requires
        f.well_formed(),
        f.current == f.target,
    ensures
        f.after(n) == f,
{
    fade_after_ticks(f, n);
    assert(fade_step() == 8);
}

/// A tick of the fade timer closes the gap to the target by eight alpha units, or
/// wholly where it is no wider, in either direction; it shows the opacity reached,
/// and stops the timer exactly where there was no gap.
pub proof fn a_tick_closes_the_gap(f: &mut Fade, res: FadeTick)
    requires
        call_ensures(Fade::tick, (f,), res),
        0 <= f.current <= 255,
        f.target == 0 || f.target == 255,
    ensures
        final(f).target == old(f).target,
        old(f).current <= old(f).target ==> final(f).current == if old(f).target - old(f).current
            <= 8 {
            old(f).target as int
        } else {
            old(f).current + 8
        },
        old(f).current >= old(f).target ==> final(f).current == if old(f).current - old(f).target
            <= 8 {
            old(f).target as int
        } else {
            old(f).current - 8
        },
        res == FadeTick::StopTimer <==> old(f).current == old(f).target,
        res matches FadeTick::ShowAlpha(alpha) ==> alpha == final(f).current,
{
    assert(fade_step() == 8);
}

/// A fade is aimed at one of the two ends without a jump of what is shown.
pub proof fn aiming_does_not_jump(f: &mut Fade, g: &mut Fade)
    requires
        call_ensures(Fade::fade_in, (f,), ()),
        call_ensures(Fade::fade_out, (g,), ()),
    ensures
        final(f).target == 255,
        final(f).current == old(f).current,
        final(g).target == 0,
        final(g).current == old(g).current,
{
}

/// A fade at any opacity, towards either end, can be ticked and aimed anew.
pub proof fn any_fade_can_be_driven(f: &mut Fade)
    requires
        0 <= f.current <= 255,
        f.target == 0 || f.target == 255,
    ensures
        call_requires(Fade::tick, (f,)),
        call_requires(Fade::fade_in, (f,)),
        call_requires(Fade::fade_out, (f,)),
{
}

/// A fade starts transparent and at rest, and the launcher waits for one longer
/// than its nominal duration, by fifty milliseconds.
pub proof fn fades_start_at_rest(f: Fade, wait: u64)
    requires
        call_ensures(Fade::new, (), f),
        call_ensures(fade_wait_ms, (), wait),
    ensures
        f.current == 0,
        f.target == 0,
        wait == 350,
{
}

} // verus!
