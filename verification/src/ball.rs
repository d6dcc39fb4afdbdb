//! Basketball lifecycle: spawning the live ball, launching it with a
//! velocity derived from the charge strength, culling stale thrown balls,
//! and the timed respawn that puts a fresh ball in play after a throw.

use vstd::prelude::*;

use crate::charge::PERMILLE;

verus! {

/// Horizontal start position of a fresh ball, in thousandths of a pixel.
pub const BALL_START_X_MILLI: i64 = 300_000;

/// Vertical start position of a fresh ball, in thousandths of a pixel: the
/// ball rests on the ground, raised by half its own size.
pub const BALL_START_Y_MILLI: i64 = -365_000;

/// Horizontal launch speed of every throw, in thousandths of a pixel per
/// second. Negative: the ball always flies toward the hoop on the left.
pub const BASKETBALL_SPEED_X_MILLI: i64 = -800_000;

/// Vertical launch speed of a throw with no charge, in thousandths of a
/// pixel per second.
pub const BASKETBALL_MIN_SPEED_Y_MILLI: i64 = 100_000;

/// Vertical launch speed of a fully charged throw, in thousandths of a
/// pixel per second.
pub const BASKETBALL_MAX_SPEED_Y_MILLI: i64 = 4_000_000;

/// Backspin put on every thrown ball, in thousandths of a radian per
/// second: three times the average spin of a jump shot (6.76 rad/s).
pub const BACKSPIN_ANGULAR_SPEED_MILLI: i64 = -20_280;

/// How long after a throw a fresh ball is put in play, in milliseconds.
pub const RESPAWN_DELAY_MS: u32 = 3300;

/// One basketball entity. Positions are in thousandths of a pixel, linear
/// speeds in thousandths of a pixel per second, and the angular speed in
/// thousandths of a radian per second.
#[derive(Clone, Copy)]
pub struct Basketball {
    /// Stable identifier of the ball in the arena.
    pub id: u64,
    pub pos_x_milli: i64,
    pub pos_y_milli: i64,
    pub vel_x_milli: i64,
    pub vel_y_milli: i64,
    pub ang_vel_milli: i64,
    /// Whether the ball has been thrown. Once set it never reverts.
    pub thrown: bool,
}

/// Arena of basketball entities, indexed by stable identifier.
pub struct BallWorld {
    pub balls: Vec<Basketball>,
    /// Identifier the next spawned ball receives.
    pub next_id: u64,
}

/// Timer that schedules the respawn of a fresh ball after a throw. It
/// starts paused, begins running the instant a ball is thrown, and is reset
/// and paused again when the respawn fires.
pub struct RespawnBasketballTimer {
    pub running: bool,
    /// Time accumulated while running, in milliseconds.
    pub elapsed_ms: u32,
}

/// A ball as it is spawned: at the start position, motionless, not thrown.
pub open spec fn fresh_ball(id: u64) -> Basketball {
    Basketball {
        id,
        pos_x_milli: BALL_START_X_MILLI,
        pos_y_milli: BALL_START_Y_MILLI,
        vel_x_milli: 0,
        vel_y_milli: 0,
        ang_vel_milli: 0,
        thrown: false,
    }
}

/// A strength out of range is clamped into `0 ..= PERMILLE` rather than
/// rejected: a corrupted input source must not crash the simulation.
pub open spec fn clamp_permille(permille: int) -> int {
    if permille > PERMILLE { PERMILLE as int } else { permille }
}

/// Vertical launch speed for a throw of the given normalized strength, in
/// thousandths of a pixel per second: the linear interpolation between the
/// minimum and maximum vertical speeds.
pub open spec fn vertical_speed_milli(permille: int) -> int {
    BASKETBALL_MIN_SPEED_Y_MILLI + (BASKETBALL_MAX_SPEED_Y_MILLI - BASKETBALL_MIN_SPEED_Y_MILLI)
        * clamp_permille(permille) / (PERMILLE as int)
}

/// A ball as `on_throw_basketball` leaves it: launched with the fixed
/// horizontal speed, the interpolated vertical speed, and the fixed
/// backspin, and marked thrown.
pub open spec fn launched_ball(b: Basketball, permille: int) -> Basketball {
    Basketball {
        vel_x_milli: BASKETBALL_SPEED_X_MILLI,
        vel_y_milli: vertical_speed_milli(permille) as i64,
        ang_vel_milli: BACKSPIN_ANGULAR_SPEED_MILLI,
        thrown: true,
        ..b
    }
}

/// Whether some ball in the arena is live: not yet thrown, awaiting launch.
pub open spec fn has_live(balls: Seq<Basketball>) -> bool {
    exists|i: int| 0 <= i < balls.len() && !(#[trigger] balls[i]).thrown
}

/// The live (unthrown) balls of the arena, in order.
pub open spec fn live_balls(balls: Seq<Basketball>) -> Seq<Basketball> {
    balls.filter(|b: Basketball| !b.thrown)
}

/// The thrown balls of the arena, in order.
pub open spec fn thrown_balls(balls: Seq<Basketball>) -> Seq<Basketball> {
    balls.filter(|b: Basketball| b.thrown)
}

/// Whether the respawn is due: the timer is running and has outlived the
/// configured delay.
pub open spec fn respawn_due(t: RespawnBasketballTimer) -> bool {
    t.running && t.elapsed_ms > RESPAWN_DELAY_MS
}

/// Timer state after one simulation step of `delta_ms` milliseconds: a
/// running timer accumulates the step, a paused one is unchanged.
pub open spec fn timer_ticked(t: RespawnBasketballTimer, delta_ms: u32) -> RespawnBasketballTimer {
    if t.running {
        RespawnBasketballTimer { running: true, elapsed_ms: (t.elapsed_ms + delta_ms) as u32 }
    } else {
        t
    }
}

/// Timer state after a whole run of simulation steps, applied in order.
pub open spec fn timer_ticked_many(t: RespawnBasketballTimer, deltas: Seq<u32>)
    -> RespawnBasketballTimer
    decreases deltas.len(),
{
    if deltas.len() == 0 {
        t
    } else {
        timer_ticked_many(timer_ticked(t, deltas[0]), deltas.drop_first())
    }
}

/// Total simulated time of a run of steps, in milliseconds.
pub open spec fn sum_ms(deltas: Seq<u32>) -> int
    decreases deltas.len(),
{
    if deltas.len() == 0 {
        0
    } else {
        deltas[0] + sum_ms(deltas.drop_first())
    }
}

pub proof fn lemma_sum_ms_nonneg(deltas: Seq<u32>)
    ensures
        sum_ms(deltas) >= 0,
    decreases deltas.len(),
{
    if deltas.len() > 0 {
        lemma_sum_ms_nonneg(deltas.drop_first());
    }
}

/// A launch puts the fixed speed on the horizontal axis, and on the
/// vertical axis the linear interpolation between the minimum and maximum
/// speeds by the normalized strength: never below the minimum, never above
/// the maximum, and exactly the endpoints for an empty and a full charge.
pub proof fn lemma_launch_velocity(b: Basketball, permille: int)
    requires
        0 <= permille <= PERMILLE,
    ensures
        launched_ball(b, permille).vel_x_milli == BASKETBALL_SPEED_X_MILLI,
        launched_ball(b, permille).ang_vel_milli == BACKSPIN_ANGULAR_SPEED_MILLI,
        BASKETBALL_MIN_SPEED_Y_MILLI <= launched_ball(b, permille).vel_y_milli
            <= BASKETBALL_MAX_SPEED_Y_MILLI,
        launched_ball(b, permille).vel_y_milli == BASKETBALL_MIN_SPEED_Y_MILLI + (
        BASKETBALL_MAX_SPEED_Y_MILLI - BASKETBALL_MIN_SPEED_Y_MILLI) * permille / (
        PERMILLE as int),
        launched_ball(b, 0).vel_y_milli == BASKETBALL_MIN_SPEED_Y_MILLI,
        launched_ball(b, PERMILLE as int).vel_y_milli == BASKETBALL_MAX_SPEED_Y_MILLI,
{
}

/// Culling is exact: the live balls are all kept and the thrown balls are
/// all removed, so a pass over one live ball and `n` thrown balls removes
/// exactly the `n` thrown ones.
pub proof fn lemma_cull_removes_exactly_thrown(balls: Seq<Basketball>)
    ensures
        live_balls(balls).len() + thrown_balls(balls).len() == balls.len(),
    decreases balls.len(),
{
    reveal(Seq::filter);
    if balls.len() > 0 {
        lemma_cull_removes_exactly_thrown(balls.drop_last());
    }
}

/// At most one respawn fires per throw: firing pauses the timer, and a
/// paused timer never becomes due again, however many simulation steps
/// pass, until the next throw restarts it.
pub proof fn lemma_respawn_at_most_once_per_throw(t: RespawnBasketballTimer, deltas: Seq<u32>)
    requires
        !t.running,
    ensures
        timer_ticked_many(t, deltas) == t,
        !respawn_due(timer_ticked_many(t, deltas)),
    decreases deltas.len(),
{
    if deltas.len() > 0 {
        lemma_respawn_at_most_once_per_throw(timer_ticked(t, deltas[0]), deltas.drop_first());
    }
}

/// No respawn fires sooner than the configured delay: a running timer's
/// accumulated time is exactly the simulated time of the steps it saw, so
/// the respawn can only become due once more than `RESPAWN_DELAY_MS` of
/// simulated time has passed since the throw started the timer.
pub proof fn lemma_respawn_no_sooner_than_delay(t: RespawnBasketballTimer, deltas: Seq<u32>)
    requires
        t.running,
        t.elapsed_ms + sum_ms(deltas) <= u32::MAX,
    ensures
        timer_ticked_many(t, deltas).running,
        timer_ticked_many(t, deltas).elapsed_ms == t.elapsed_ms + sum_ms(deltas),
        respawn_due(timer_ticked_many(t, deltas)) ==> t.elapsed_ms + sum_ms(deltas)
            > RESPAWN_DELAY_MS,
    decreases deltas.len(),
{
    if deltas.len() > 0 {
        lemma_sum_ms_nonneg(deltas.drop_first());
        lemma_respawn_no_sooner_than_delay(timer_ticked(t, deltas[0]), deltas.drop_first());
    }
}

/// Puts a fresh live ball into the arena at the fixed start position with
/// zero velocity. The caller (the respawn machinery, or session start)
/// ensures no live ball already exists.
pub fn spawn_basketball(w: &mut BallWorld)
    requires
        old(w).next_id < u64::MAX,
    ensures
        final(w).balls@ == old(w).balls@.push(fresh_ball(old(w).next_id)),
        final(w).next_id == old(w).next_id + 1,
{
    let ball = Basketball {
        id: w.next_id,
        pos_x_milli: BALL_START_X_MILLI,
        pos_y_milli: BALL_START_Y_MILLI,
        vel_x_milli: 0,
        vel_y_milli: 0,
        ang_vel_milli: 0,
        thrown: false,
    };
    w.next_id = w.next_id + 1;
    w.balls.push(ball);
}

/// Request to launch the live ball with a throw of the given normalized
/// strength, in thousandths.
pub struct ThrowBasketball {
    pub percentage_charged: u32,
}

/// Notification that a launch took place this step.
pub struct BasketballThrown;

/// Whether any ball of the vector is live (not yet thrown).
fn any_live(balls: &Vec<Basketball>) -> (r: bool)
    ensures
        r == has_live(balls@),
{
    let n = balls.len();
    let mut i: usize = 0;
    while i < n
        invariant
            n == balls@.len(),
            0 <= i <= n,
            forall|j: int| 0 <= j < i ==> (#[trigger] balls@[j]).thrown,
        decreases n - i,
    {
        if !balls[i].thrown {
            return true;
        }
        i = i + 1;
    }
    false
}

/// Launches every live ball of the arena: each gets the fixed horizontal
/// speed, the vertical speed interpolated from the first throw request's
/// strength, the fixed backspin, and is marked thrown. Thrown balls are
/// untouched. Returns the "ball thrown" notification, emitted exactly once
/// per launch, and only if a live ball existed; with no throw request, or
/// no live ball, nothing changes and no notification is emitted.
pub fn on_throw_basketball(w: &mut BallWorld, throws: &Vec<ThrowBasketball>) -> (thrown: Option<
    BasketballThrown,
>)
    ensures
        final(w).next_id == old(w).next_id,
        throws@.len() == 0 ==> final(w).balls@ == old(w).balls@ && thrown is None,
        throws@.len() > 0 ==> {
            let p = throws@[0].percentage_charged as int;
            &&& final(w).balls@.len() == old(w).balls@.len()
            &&& forall|i: int|
                0 <= i < old(w).balls@.len() ==> #[trigger] final(w).balls@[i] == (
                if old(w).balls@[i].thrown {
                    old(w).balls@[i]
                } else {
                    launched_ball(old(w).balls@[i], p)
                })
        },
        (thrown is Some) == (throws@.len() > 0 && has_live(old(w).balls@)),
{
    if throws.len() == 0 {
        return None;
    }
    let permille = throws[0].percentage_charged;
    let clamped: i64 = if permille > PERMILLE { PERMILLE as i64 } else { permille as i64 };
    let vel_y: i64 = BASKETBALL_MIN_SPEED_Y_MILLI + (BASKETBALL_MAX_SPEED_Y_MILLI
        - BASKETBALL_MIN_SPEED_Y_MILLI) * clamped / (PERMILLE as i64);
    let ghost p = permille as int;

    let n = w.balls.len();
    let mut i: usize = 0;
    let mut found_live = false;
    while i < n
        invariant
            n == w.balls@.len(),
            n == old(w).balls@.len(),
            0 <= i <= n,
            w.next_id == old(w).next_id,
            vel_y == vertical_speed_milli(p),
            p == throws@[0].percentage_charged as int,
            throws@.len() > 0,
            forall|j: int|
                i <= j < n ==> #[trigger] w.balls@[j] == old(w).balls@[j],
            forall|j: int|
                0 <= j < i ==> #[trigger] w.balls@[j] == (if old(w).balls@[j].thrown {
                    old(w).balls@[j]
                } else {
                    launched_ball(old(w).balls@[j], p)
                }),
            found_live == has_live(old(w).balls@.subrange(0, i as int)),
        decreases n - i,
    {
        let b = w.balls[i];
        if !b.thrown {
            let launched = Basketball {
                vel_x_milli: BASKETBALL_SPEED_X_MILLI,
                vel_y_milli: vel_y,
                ang_vel_milli: BACKSPIN_ANGULAR_SPEED_MILLI,
                thrown: true,
                ..b
            };
            w.balls.set(i, launched);
            found_live = true;
        }
        proof {
            assert(old(w).balls@.subrange(0, i + 1).drop_last() == old(w).balls@.subrange(
                0,
                i as int,
            ));
            assert(has_live(old(w).balls@.subrange(0, i + 1)) == (found_live)) by {
                let sub = old(w).balls@.subrange(0, i + 1);
                if found_live {
                    if !old(w).balls@[i as int].thrown {
                        assert(!sub[i as int].thrown);
                    } else {
                        let prev = old(w).balls@.subrange(0, i as int);
                        let k = choose|k: int| 0 <= k < prev.len() && !(#[trigger] prev[k]).thrown;
                        assert(!sub[k].thrown);
                    }
                } else {
                    assert(forall|k: int|
                        0 <= k < sub.len() ==> (#[trigger] sub[k]).thrown) by {
                        assert(forall|k: int|
                            0 <= k < i ==> sub[k] == old(w).balls@.subrange(0, i as int)[k]);
                    }
                }
            }
        }
        i = i + 1;
    }
    proof {
        assert(old(w).balls@.subrange(0, n as int) == old(w).balls@);
    }
    if found_live {
        Some(BasketballThrown)
    } else {
        None
    }
}

/// Garbage-collects stale balls: once at least one live ball exists, every
/// thrown ball is removed from the arena, in one pass. With no live ball,
/// nothing is removed.
pub fn despawn_basketballs(w: &mut BallWorld)
    ensures
        final(w).next_id == old(w).next_id,
        has_live(old(w).balls@) ==> final(w).balls@ == live_balls(old(w).balls@),
        !has_live(old(w).balls@) ==> final(w).balls@ == old(w).balls@,
{
    let has_unthrown = any_live(&w.balls);
    if !has_unthrown {
        return;
    }
    let n = w.balls.len();
    let mut kept: Vec<Basketball> = Vec::new();
    let mut i: usize = 0;
    while i < n
        invariant
            n == w.balls@.len(),
            0 <= i <= n,
            kept@ == live_balls(w.balls@.subrange(0, i as int)),
        decreases n - i,
    {
        let b = w.balls[i];
        if !b.thrown {
            kept.push(b);
        }
        proof {
            reveal(Seq::filter);
            let sub1 = w.balls@.subrange(0, i + 1);
            assert(sub1.drop_last() =~= w.balls@.subrange(0, i as int));
            assert(sub1.last() == w.balls@[i as int]);
            assert(kept@ =~= live_balls(sub1));
        }
        i = i + 1;
    }
    proof {
        assert(w.balls@.subrange(0, n as int) == w.balls@);
    }
    w.balls = kept;
}

/// Starts the respawn timer when a "ball thrown" notification arrived this
/// step; the accumulated time is untouched. Without one, nothing changes.
pub fn on_basketball_thrown(timer: &mut RespawnBasketballTimer, thrown: &Option<BasketballThrown>)
    ensures
        final(timer).running == (old(timer).running || thrown is Some),
        final(timer).elapsed_ms == old(timer).elapsed_ms,
{
    if thrown.is_some() {
        timer.running = true;
    }
}

/// Advances the respawn timer by one simulation step of `delta_ms`
/// milliseconds. Only a running timer accumulates time.
pub fn update_timers(timer: &mut RespawnBasketballTimer, delta_ms: u32)
    requires
        old(timer).running ==> old(timer).elapsed_ms + delta_ms <= u32::MAX,
    ensures
        *final(timer) == timer_ticked(*old(timer), delta_ms),
{
    if timer.running {
        timer.elapsed_ms = timer.elapsed_ms + delta_ms;
    }
}

/// Fires the scheduled respawn once the timer has outlived the configured
/// delay: the timer is reset and paused, and a fresh live ball is spawned.
/// Until then, nothing changes. Because firing pauses the timer, at most
/// one respawn fires per throw.
pub fn respawn_basketball(w: &mut BallWorld, timer: &mut RespawnBasketballTimer)
    requires
        old(w).next_id < u64::MAX,
    ensures
        respawn_due(*old(timer)) ==> {
            &&& *final(timer) == (RespawnBasketballTimer { running: false, elapsed_ms: 0u32 })
            &&& final(w).balls@ == old(w).balls@.push(fresh_ball(old(w).next_id))
            &&& final(w).next_id == old(w).next_id + 1
        },
        !respawn_due(*old(timer)) ==> {
            &&& *final(timer) == *old(timer)
            &&& final(w).balls@ == old(w).balls@
            &&& final(w).next_id == old(w).next_id
        },
{
    if timer.running && timer.elapsed_ms > RESPAWN_DELAY_MS {
        timer.elapsed_ms = 0;
        timer.running = false;
        spawn_basketball(w);
    }
}

} // verus!
