use vstd::prelude::*;
use crate::ball::{Ball, BallStatus, MAX_DT};
use crate::geometry::{v3, Vec3};

verus! {

/// Radius of a thrown ball, in micro-units.
pub const BALL_RADIUS: i64 = 50_000;

/// Interval between two throws, in microseconds.
pub const THROW_INTERVAL: i64 = 1_000_000;

/// Interval between two swing samples (a sixtieth of a second), in microseconds.
pub const SWING_INTERVAL: i64 = 16_667;

/// A clock that turns variable frame times into a whole number of fixed-length ticks.
#[derive(Clone, Copy, Debug)]
pub struct FixedStep {
    pub period: i64,
    pub accumulated: i64,
}

impl FixedStep {
    pub open spec fn wf(&self) -> bool {
        0 < self.period <= MAX_DT && 0 <= self.accumulated < self.period
    }

    pub fn new(period: i64) -> (r: FixedStep)
        requires
            0 < period <= MAX_DT,
        ensures
            r.period == period,
            r.accumulated == 0,
            r.wf(),
    {
        FixedStep { period, accumulated: 0 }
    }

    /// Adds `dt` microseconds and returns how many whole periods have elapsed; the
    /// remainder is kept for the next call.
    pub fn advance(&mut self, dt: i64) -> (ticks: i64)
        requires
            old(self).wf(),
            0 <= dt <= MAX_DT,
        ensures
            final(self).period == old(self).period,
            ticks == (old(self).accumulated + dt) / old(self).period as int,
            final(self).accumulated == (old(self).accumulated + dt) % old(self).period as int,
            final(self).wf(),
    {
        let total = self.accumulated + dt;
        self.accumulated = total % self.period;
        total / self.period
    }
}

/// A new ball at the throwing spot, moving toward the player.
pub fn throw_ball() -> (b: Ball)
    ensures
        b@.position == v3(-2_500_000, 500_000, -2_500_000),
        b@.velocity == v3(5_030_000, 1_820_000, 5_000_000),
        b@.radius == BALL_RADIUS,
        b@.status == BallStatus::Thrown,
        b.steppable(),
        b == throw_ball_value(),
{
    Ball {
        position: Vec3::new(-2_500_000, 500_000, -2_500_000),
        velocity: Vec3::new(5_030_000, 1_820_000, 5_000_000),
        radius: BALL_RADIUS,
        status: BallStatus::Thrown,
    }
}

/// Advances the throwing clock by `dt` and throws one ball for each whole interval
/// that has elapsed.
pub fn spawn_balls(balls: &mut Vec<Ball>, clock: &mut FixedStep, dt: i64)
    requires
        old(clock).wf(),
        0 <= dt <= MAX_DT,
    ensures
        final(clock).period == old(clock).period,
        final(clock).accumulated == (old(clock).accumulated + dt) % old(clock).period as int,
        final(clock).wf(),
        final(balls)@.len() == old(balls)@.len() + (old(clock).accumulated + dt)
            / old(clock).period as int,
        forall|i: int| 0 <= i < old(balls)@.len() ==> #[trigger] final(balls)@[i] == old(balls)@[i],
        forall|i: int|
            old(balls)@.len() <= i < final(balls)@.len() ==> #[trigger] final(balls)@[i]
                == throw_ball_value(),
{
    let ticks = clock.advance(dt);
    let mut k: i64 = 0;
    while k < ticks
        invariant
            0 <= k <= ticks,
            balls@.len() == old(balls)@.len() + k,
            forall|i: int| 0 <= i < old(balls)@.len() ==> #[trigger] balls@[i] == old(balls)@[i],
            forall|i: int|
                old(balls)@.len() <= i < balls@.len() ==> #[trigger] balls@[i] == throw_ball_value(),
        decreases ticks - k,
    {
        balls.push(throw_ball());
        k = k + 1;
    }
}

/// The ball that `throw_ball` returns.
pub open spec fn throw_ball_value() -> Ball {
    Ball {
        position: Vec3 { x: -2_500_000i64, y: 500_000, z: -2_500_000i64 },
        velocity: Vec3 { x: 5_030_000, y: 1_820_000, z: 5_000_000 },
        radius: BALL_RADIUS,
        status: BallStatus::Thrown,
    }
}

} // verus!
