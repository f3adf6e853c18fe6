use vstd::prelude::*;

use crate::exorcism::ExorcismState;

verus! {

/// Progress of a finished puzzle, in millionths.
pub const PROGRESS_ONE: u32 = 1_000_000;

pub open spec fn clamp_unit(p: int) -> int {
    if p < 0 {
        0
    } else if p > PROGRESS_ONE {
        PROGRESS_ONE as int
    } else {
        p
    }
}

/// One step of the spirit vigil integrator: up at `rate_up` while every anchor
/// is watched, down at `rate_down` otherwise, clamped to `[0, PROGRESS_ONE]`.
pub open spec fn spirit_progress_of(progress: int, all_watched: bool, dt: int, rate_up: int, rate_down: int) -> int {
    if all_watched {
        clamp_unit(progress + rate_up * dt)
    } else {
        clamp_unit(progress - rate_down * dt)
    }
}

pub open spec fn banshee_advance_of(stage: int, sequence_len: int, timing_ok: bool, order_ok: bool) -> ExorcismState {
    if !order_ok || !timing_ok {
        ExorcismState::Failed
    } else if stage + 1 >= sequence_len {
        ExorcismState::Complete
    } else {
        ExorcismState::Stage((stage + 1) as u8)
    }
}

/// Stacks after carrying a cursed object for `dt` ms at `rate` millionths per
/// ms; the count saturates at `u64::MAX`.
pub open spec fn carried_stacks(stacks: int, dt: int, rate: int) -> int {
    if stacks + dt * rate > u64::MAX {
        u64::MAX as int
    } else {
        stacks + dt * rate
    }
}

/// Product of two `u32`s, which always fits a `u64`.
pub(crate) fn product(a: u32, b: u32) -> (r: u64)
    ensures
        r == a * b,
{
    proof {
        assert(0 <= a * b <= 0xffff_ffff * 0xffff_ffff) by (nonlinear_arith)
            requires
                0 <= a <= 0xffff_ffff,
                0 <= b <= 0xffff_ffff,
        ;
    }
    a as u64 * b as u64
}

/// Spirit progress after `dt` ms. Progress and the result are in millionths,
/// the rates in millionths per ms.
pub fn spirit_progress(progress: u32, all_watched: bool, dt: u32, rate_up: u32, rate_down: u32) -> (r: u32)
    ensures
        r == spirit_progress_of(progress as int, all_watched, dt as int, rate_up as int, rate_down as int),
        r <= PROGRESS_ONE,
{
    if all_watched {
        let step = product(rate_up, dt) as u128;
        let next = progress as u128 + step;
        if next > PROGRESS_ONE as u128 {
            PROGRESS_ONE
        } else {
            next as u32
        }
    } else {
        let step = product(rate_down, dt) as u128;
        if step >= progress as u128 {
            0
        } else {
            let next = progress as u128 - step;
            if next > PROGRESS_ONE as u128 {
                PROGRESS_ONE
            } else {
                next as u32
            }
        }
    }
}

/// The banshee sequence after a touch: any wrong anchor or missed timing
/// window fails at once; otherwise the sequence moves one stage on, and
/// completes on reaching `sequence_len`.
pub fn banshee_advance(stage: u8, sequence_len: u8, timing_ok: bool, order_ok: bool) -> (r: ExorcismState)
    ensures
        r == banshee_advance_of(stage as int, sequence_len as int, timing_ok, order_ok),
{
    if !order_ok || !timing_ok {
        return ExorcismState::Failed;
    }
    let next = stage as u16 + 1;
    if next >= sequence_len as u16 {
        ExorcismState::Complete
    } else {
        ExorcismState::Stage(next as u8)
    }
}

/// Onryo stacks after `dt` ms, and whether they reached `max_stacks`. Stacks
/// only grow while an object is carried; otherwise they hold still.
pub fn onryo_stack_tick(stacks: u64, dt: u32, carrying: bool, max_stacks: u64, stack_rate: u32) -> (r: (u64, bool))
    ensures
        !carrying ==> r == (stacks, false),
        carrying ==> r.0 == carried_stacks(stacks as int, dt as int, stack_rate as int),
        carrying ==> r.1 == (r.0 >= max_stacks),
        carrying && stacks + dt * stack_rate <= u64::MAX ==> r.0 == stacks + dt * stack_rate,
        carrying ==> r.1 == (stacks + dt * stack_rate >= max_stacks),
{
    proof {
        lemma_onryo_stack_tick(stacks, dt, max_stacks, stack_rate);
    }
    if !carrying {
        return (stacks, false);
    }
    let step = product(dt, stack_rate) as u128;
    let total = stacks as u128 + step;
    let new_stacks = if total > u64::MAX as u128 {
        u64::MAX
    } else {
        total as u64
    };
    (new_stacks, new_stacks >= max_stacks)
}

/// From a starting point strictly inside `(0, 1)`: while watched, progress
/// never falls and grows with `rate_up * dt`, rising strictly for a positive
/// step; while unwatched it never rises, falls as `rate_down * dt` grows, and
/// falls strictly for a positive step.
pub proof fn lemma_spirit_progress_monotone(
    progress: int,
    dt1: int,
    up1: int,
    down1: int,
    dt2: int,
    up2: int,
    down2: int,
)
    requires
        0 < progress < PROGRESS_ONE,
        dt1 >= 0,
        up1 >= 0,
        down1 >= 0,
        dt2 >= 0,
        up2 >= 0,
        down2 >= 0,
    ensures
        up1 * dt1 <= up2 * dt2 ==> spirit_progress_of(progress, true, dt1, up1, down1)
            <= spirit_progress_of(progress, true, dt2, up2, down2),
        spirit_progress_of(progress, true, dt1, up1, down1) >= progress,
        up1 * dt1 > 0 ==> spirit_progress_of(progress, true, dt1, up1, down1) > progress,
        down1 * dt1 <= down2 * dt2 ==> spirit_progress_of(progress, false, dt1, up1, down1)
            >= spirit_progress_of(progress, false, dt2, up2, down2),
        spirit_progress_of(progress, false, dt1, up1, down1) <= progress,
        down1 * dt1 > 0 ==> spirit_progress_of(progress, false, dt1, up1, down1) < progress,
{
    assert(up1 * dt1 >= 0 && down1 * dt1 >= 0 && up2 * dt2 >= 0 && down2 * dt2 >= 0) by (nonlinear_arith)
        requires
            dt1 >= 0,
            up1 >= 0,
            down1 >= 0,
            dt2 >= 0,
            up2 >= 0,
            down2 >= 0,
    ;
}

/// A missed timing window or a wrong anchor fails the sequence; the last
/// stage done right completes it; any earlier stage done right advances by one.
pub proof fn lemma_banshee_advance(stage: u8, sequence_len: u8)
    ensures
        banshee_advance_of(stage as int, sequence_len as int, false, true) == ExorcismState::Failed,
        banshee_advance_of(stage as int, sequence_len as int, true, false) == ExorcismState::Failed,
        sequence_len >= 1 ==> banshee_advance_of(sequence_len - 1, sequence_len as int, true, true)
            == ExorcismState::Complete,
        stage + 1 < sequence_len ==> banshee_advance_of(stage as int, sequence_len as int, true, true)
            == ExorcismState::Stage((stage + 1) as u8),
{
}

/// While carrying, the stacks grow by exactly `dt * stack_rate` whenever the
/// total fits a `u64` (they saturate beyond), and failure comes exactly when
/// `stacks + dt * stack_rate` reaches `max_stacks`.
pub proof fn lemma_onryo_stack_tick(stacks: u64, dt: u32, max_stacks: u64, stack_rate: u32)
    ensures
        stacks + dt * stack_rate <= u64::MAX ==> carried_stacks(stacks as int, dt as int, stack_rate as int)
            == stacks + dt * stack_rate,
        ({
            let new_stacks = carried_stacks(stacks as int, dt as int, stack_rate as int);
            (new_stacks >= max_stacks) == (stacks + dt * stack_rate >= max_stacks)
        }),
{
    assert(dt * stack_rate >= 0) by (nonlinear_arith)
        requires
            dt >= 0,
            stack_rate >= 0,
    ;
}

} // verus!
