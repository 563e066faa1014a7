use vstd::prelude::*;

verus! {

/// Progress is held in thousandths: this is a fully entered animation.
pub const PROGRESS_ONE: u32 = 1000;

/// Milliseconds that a full enter or leave takes.
pub const ANIM_DURATION_MS: u32 = 200;

/// Which way a hover animation is heading.
#[derive(Clone, Copy, Debug, PartialEq, Eq, Structural)]
pub enum Direction {
    Entering,
    Leaving,
}

/// The hover animation of one widget: a direction and a progress from 0
/// (at rest) to `PROGRESS_ONE` (fully hovered).
#[derive(Clone, Copy, Debug, PartialEq, Eq, Structural)]
pub struct HoverAnim {
    pub direction: Direction,
    pub progress: u32,
}

/// How far progress moves in `dt_ms` milliseconds.
pub open spec fn advance(dt_ms: u32) -> int {
    if dt_ms >= ANIM_DURATION_MS {
        PROGRESS_ONE as int
    } else {
        (dt_ms as int) * (PROGRESS_ONE as int) / (ANIM_DURATION_MS as int)
    }
}

/// The state after `dt_ms` milliseconds with the pointer over the widget
/// (`hovered`) or away from it.
pub open spec fn step_spec(a: HoverAnim, hovered: bool, dt_ms: u32) -> HoverAnim {
    if hovered {
        if a.direction == Direction::Leaving || a.progress < PROGRESS_ONE {
            HoverAnim {
                direction: Direction::Entering,
                progress: if a.progress + advance(dt_ms) >= PROGRESS_ONE {
                    PROGRESS_ONE
                } else {
                    (a.progress + advance(dt_ms)) as u32
                },
            }
        } else {
            a
        }
    } else {
        if a.direction == Direction::Entering || a.progress > 0 {
            HoverAnim {
                direction: Direction::Leaving,
                progress: if a.progress <= advance(dt_ms) {
                    0
                } else {
                    (a.progress - advance(dt_ms)) as u32
                },
            }
        } else {
            a
        }
    }
}

/// The state after a sequence of frames, each with its hover flag and its
/// duration in milliseconds.
pub open spec fn run(a: HoverAnim, frames: Seq<(bool, u32)>) -> HoverAnim
    decreases frames.len(),
{
    if frames.len() == 0 {
        a
    } else {
        run(step_spec(a, frames[0].0, frames[0].1), frames.drop_first())
    }
}

/// A displayed value between `from` (at rest) and `to` (fully hovered).
pub open spec fn lerp(from: u32, to: u32, progress: u32) -> int {
    ((from as int) * (PROGRESS_ONE - progress) + (to as int) * (progress as int)) / (PROGRESS_ONE as int)
}

impl HoverAnim {
    /// Progress never leaves `[0, PROGRESS_ONE]`.
    pub open spec fn wf(self) -> bool {
        self.progress <= PROGRESS_ONE
    }

    /// A widget that has not been hovered yet.
    pub fn new() -> (r: HoverAnim)
        ensures
            r == (HoverAnim { direction: Direction::Leaving, progress: 0 }),
            r.wf(),
    {
        HoverAnim { direction: Direction::Leaving, progress: 0 }
    }

    /// Advances the animation by one frame of `dt_ms` milliseconds: towards
    /// fully hovered while `hovered`, towards rest otherwise.
    pub fn step(&mut self, hovered: bool, dt_ms: u32)
        requires
            old(self).wf(),
        ensures
            *final(self) == step_spec(*old(self), hovered, dt_ms),
            final(self).wf(),
            -advance(dt_ms) <= final(self).progress - old(self).progress <= advance(dt_ms),
    {
        let delta: u32 = if dt_ms >= ANIM_DURATION_MS {
            PROGRESS_ONE
        } else {
            dt_ms * PROGRESS_ONE / ANIM_DURATION_MS
        };
        if hovered {
            if self.direction == Direction::Leaving || self.progress < PROGRESS_ONE {
                self.direction = Direction::Entering;
                self.progress = if self.progress + delta >= PROGRESS_ONE {
                    PROGRESS_ONE
                } else {
                    self.progress + delta
                };
            }
        } else {
            if self.direction == Direction::Entering || self.progress > 0 {
                self.direction = Direction::Leaving;
                self.progress = if self.progress <= delta {
                    0
                } else {
                    self.progress - delta
                };
            }
        }
    }

    /// The displayed value at the current progress, between `from` at rest
    /// and `to` when fully hovered.
    pub fn interpolate(&self, from: u32, to: u32) -> (r: u32)
        requires
            self.wf(),
        ensures
            r == lerp(from, to, self.progress),
            self.progress == 0 ==> r == from,
            self.progress == PROGRESS_ONE ==> r == to,
    {
        let p: u64 = self.progress as u64;
        let rest: u64 = (PROGRESS_ONE as u64) - p;
        proof {
            assert((from as int) * (rest as int) + (to as int) * (p as int) <= (u32::MAX as int) * (PROGRESS_ONE as int)) by (nonlinear_arith)
                requires
                    rest + p == PROGRESS_ONE,
                    from <= u32::MAX,
                    to <= u32::MAX,
            ;
        }
        let total: u64 = (from as u64) * rest + (to as u64) * p;
        proof {
            lerp_in_range(from, to, self.progress);
        }
        (total / (PROGRESS_ONE as u64)) as u32
    }
}

proof fn lerp_in_range(from: u32, to: u32, progress: u32)
    requires
        progress <= PROGRESS_ONE,
    ensures
        0 <= lerp(from, to, progress) <= u32::MAX,
        progress == 0 ==> lerp(from, to, progress) == from,
        progress == PROGRESS_ONE ==> lerp(from, to, progress) == to,
{
    let n = (from as int) * (PROGRESS_ONE - progress) + (to as int) * (progress as int);
    assert(0 <= n <= (u32::MAX as int) * (PROGRESS_ONE as int)) by (nonlinear_arith)
        requires
            n == (from as int) * (PROGRESS_ONE - progress) + (to as int) * (progress as int),
            progress <= PROGRESS_ONE,
            from <= u32::MAX,
            to <= u32::MAX,
    ;
    vstd::arithmetic::div_mod::lemma_div_is_ordered(0, n, PROGRESS_ONE as int);
    vstd::arithmetic::div_mod::lemma_div_is_ordered(n, (u32::MAX as int) * (PROGRESS_ONE as int), PROGRESS_ONE as int);
    vstd::arithmetic::div_mod::lemma_div_multiples_vanish(u32::MAX as int, PROGRESS_ONE as int);
    vstd::arithmetic::div_mod::lemma_div_multiples_vanish(from as int, PROGRESS_ONE as int);
    vstd::arithmetic::div_mod::lemma_div_multiples_vanish(to as int, PROGRESS_ONE as int);
    assert((u32::MAX as int) * (PROGRESS_ONE as int) == (PROGRESS_ONE as int) * (u32::MAX as int)) by (nonlinear_arith);
    assert((from as int) * (PROGRESS_ONE as int) == (PROGRESS_ONE as int) * (from as int)) by (nonlinear_arith);
    assert((to as int) * (PROGRESS_ONE as int) == (PROGRESS_ONE as int) * (to as int)) by (nonlinear_arith);
    if progress == PROGRESS_ONE {
        assert(n == (to as int) * (PROGRESS_ONE as int)) by (nonlinear_arith)
            requires
                n == (from as int) * (PROGRESS_ONE - progress) + (to as int) * (progress as int),
                progress == PROGRESS_ONE,
        ;
    }
    if progress == 0 {
        assert(n == (from as int) * (PROGRESS_ONE as int)) by (nonlinear_arith)
            requires
                n == (from as int) * (PROGRESS_ONE - progress) + (to as int) * (progress as int),
                progress == 0,
        ;
    }
}

/// From any valid state, one frame of `dt_ms` milliseconds moves the
/// progress by at most that frame's share of a full animation, whether or
/// not the hover flag flips, and the progress stays within `[0, PROGRESS_ONE]`.
pub proof fn hover_step_is_continuous(a: HoverAnim, hovered: bool, dt_ms: u32)
    requires
        a.wf(),
    ensures
        step_spec(a, hovered, dt_ms).wf(),
        -advance(dt_ms) <= step_spec(a, hovered, dt_ms).progress - a.progress <= advance(dt_ms),
{
    if dt_ms < ANIM_DURATION_MS {
        vstd::arithmetic::div_mod::lemma_div_is_ordered(0, (dt_ms as int) * (PROGRESS_ONE as int), ANIM_DURATION_MS as int);
    }
}

/// Over any sequence of frames the progress stays within `[0, PROGRESS_ONE]`.
pub proof fn hover_progress_stays_in_range(a: HoverAnim, frames: Seq<(bool, u32)>)
    requires
        a.wf(),
    ensures
        run(a, frames).wf(),
    decreases frames.len(),
{
    if frames.len() > 0 {
        hover_step_is_continuous(a, frames[0].0, frames[0].1);
        hover_progress_stays_in_range(step_spec(a, frames[0].0, frames[0].1), frames.drop_first());
    }
}

} // verus!
