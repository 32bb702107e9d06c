use vstd::prelude::*;
use crate::geometry::{
    ratio, add3, div_trunc, floor_sqrt, in_limit, in_limit3, isqrt, norm2, ratio3, sub3, tdiv, v3,
    V3, Vec3, LIMIT, SCALE,
};
use crate::swing::BatCollider;

verus! {

/// Downward acceleration, in micro-units per second squared.
pub const GRAVITY: i64 = 2_000_000;

/// Radius of a bat collision point, in micro-units.
pub const POINT_RADIUS: i64 = 150_000;

/// Hit power above which a strike starts the impact pause, in micro-units.
pub const IMPACT_POWER: i64 = 300_000;

/// A ground bounce scales the velocity by `RESTITUTION_NUM / RESTITUTION_DEN`.
pub const RESTITUTION_NUM: i64 = 7;
pub const RESTITUTION_DEN: i64 = 10;

/// A strike reverses the ball's velocity, scaled by `RECOIL` times the hit power...
pub const RECOIL: i64 = 4;

/// ...and adds `FOLLOW` times the striking point's decaying velocity.
pub const FOLLOW: i64 = 15;

/// A strike above the impact threshold scales the response by `BOOST_NUM / BOOST_DEN`.
pub const BOOST_NUM: i64 = 12;
pub const BOOST_DEN: i64 = 10;

/// Longest frame that one step takes, in microseconds.
pub const MAX_DT: i64 = 10_000_000;

#[derive(Clone, Copy, Debug, PartialEq, Eq, Structural)]
pub enum BallStatus {
    Thrown,
    Hit,
}

/// Abstract state of a ball.
pub struct BallModel {
    pub position: V3,
    pub velocity: V3,
    pub radius: int,
    pub status: BallStatus,
}

#[derive(Clone, Copy, Debug)]
pub struct Ball {
    pub position: Vec3,
    pub velocity: Vec3,
    pub radius: i64,
    pub status: BallStatus,
}

impl View for Ball {
    type V = BallModel;

    open spec fn view(&self) -> BallModel {
        BallModel {
            position: self.position@,
            velocity: self.velocity@,
            radius: self.radius as int,
            status: self.status,
        }
    }
}

/// Velocity after gravity has acted for `dt` microseconds.
pub open spec fn fall(v: V3, dt: int) -> V3 {
    v3(v.x, v.y - tdiv(GRAVITY * dt, SCALE as int), v.z)
}

/// Position after moving at `v` for `dt` microseconds.
pub open spec fn moved(p: V3, v: V3, dt: int) -> V3 {
    add3(p, ratio3(v, dt, SCALE as int))
}

/// Velocity after a ground bounce: vertical reversed, all of it scaled by 0.7.
pub open spec fn bounce(v: V3) -> V3 {
    ratio3(v3(v.x, -v.y, v.z), RESTITUTION_NUM as int, RESTITUTION_DEN as int)
}

/// Distance at which a ball of radius `radius` meets a collision point.
pub open spec fn reach(radius: int) -> int {
    radius + POINT_RADIUS
}

/// The ball at `pos` is strictly within reach of collision point `c`.
pub open spec fn touches(pos: V3, radius: int, c: BatCollider) -> bool {
    norm2(sub3(pos, c.position@)) < reach(radius) * reach(radius)
}

/// Collision point `i` is in reach and no point before it is.
pub open spec fn is_first_touch(pos: V3, radius: int, cs: Seq<BatCollider>, i: int) -> bool {
    &&& 0 <= i < cs.len()
    &&& touches(pos, radius, cs[i])
    &&& forall|j: int| 0 <= j < i ==> !touches(pos, radius, #[trigger] cs[j])
}

pub open spec fn any_touch(pos: V3, radius: int, cs: Seq<BatCollider>) -> bool {
    exists|i: int| is_first_touch(pos, radius, cs, i)
}

pub open spec fn first_touch(pos: V3, radius: int, cs: Seq<BatCollider>) -> int {
    choose|i: int| is_first_touch(pos, radius, cs, i)
}

/// Length of a decaying velocity, rounded down.
pub open spec fn hit_power(dv: V3) -> int {
    floor_sqrt(norm2(dv))
}

/// The strike is hard enough to start the impact pause: hit power above the threshold.
pub open spec fn is_impact(dv: V3) -> bool {
    norm2(dv) > IMPACT_POWER * IMPACT_POWER
}

/// Velocity given to a ball moving at `v` when struck by a point with decaying velocity `dv`.
pub open spec fn hit_response(v: V3, dv: V3) -> V3 {
    let hp = hit_power(dv);
    let base = add3(
        ratio3(v3(-v.x, -v.y, -v.z), RECOIL * hp, SCALE as int),
        v3(FOLLOW * dv.x, FOLLOW * dv.y, FOLLOW * dv.z),
    );
    let halved = v3(base.x, tdiv(base.y, 2), base.z);
    if is_impact(dv) {
        ratio3(halved, BOOST_NUM as int, BOOST_DEN as int)
    } else {
        halved
    }
}

/// Position after gravity, motion and the ground: the tentative position, raised to
/// the radius where it would sink below it.
pub open spec fn landed_position(b: BallModel, dt: int) -> V3 {
    let p1 = moved(b.position, fall(b.velocity, dt), dt);
    if p1.y < b.radius {
        v3(p1.x, b.radius, p1.z)
    } else {
        p1
    }
}

/// The tentative position sinks below the radius, so the ball bounces.
pub open spec fn grounded(b: BallModel, dt: int) -> bool {
    moved(b.position, fall(b.velocity, dt), dt).y < b.radius
}

/// Velocity after gravity and the ground, before any strike.
pub open spec fn landed_velocity(b: BallModel, dt: int) -> V3 {
    if grounded(b, dt) {
        bounce(fall(b.velocity, dt))
    } else {
        fall(b.velocity, dt)
    }
}

/// The ball is still thrown and some collision point is in reach: it is struck.
pub open spec fn struck(b: BallModel, cs: Seq<BatCollider>) -> bool {
    b.status == BallStatus::Thrown && any_touch(b.position, b.radius, cs)
}

/// Decaying velocity of the collision point that strikes the ball.
pub open spec fn striking_velocity(b: BallModel, cs: Seq<BatCollider>) -> V3 {
    cs[first_touch(b.position, b.radius, cs)].swing.decaying_velocity@
}

/// One frame of a ball: the new ball, and whether the impact pause is asked for.
pub open spec fn step_model(b: BallModel, dt: int, cs: Seq<BatCollider>) -> (BallModel, bool) {
    let hit = struck(b, cs);
    let dv = striking_velocity(b, cs);
    (
        BallModel {
            position: landed_position(b, dt),
            velocity: if hit {
                hit_response(landed_velocity(b, dt), dv)
            } else {
                landed_velocity(b, dt)
            },
            radius: b.radius,
            status: if hit { BallStatus::Hit } else { b.status },
        },
        hit && is_impact(dv),
    )
}

impl Ball {
    /// The ball may take a step: radius and components within bounds.
    pub open spec fn steppable(&self) -> bool {
        &&& 0 <= self.radius <= LIMIT
        &&& in_limit3(self.position@)
        &&& in_limit3(self.velocity@)
    }
}

/// The collision points are within bounds.
pub open spec fn colliders_in_limit(cs: Seq<BatCollider>) -> bool {
    forall|i: int|
        0 <= i < cs.len() ==> in_limit3((#[trigger] cs[i]).position@) && in_limit3(
            cs[i].swing.decaying_velocity@,
        )
}

/// `a * num / den` rounded toward zero, as an `i64`, where the result is known to fit.
fn mul_div(a: i128, num: i128, den: i128) -> (r: i128)
    requires
        den > 0,
        -0x1000000000000000000000000 <= a <= 0x1000000000000000000000000,
        -0x1000000 <= num <= 0x1000000,
    ensures
        r == tdiv(a * num, den as int),
{
    assert(-0x1000000000000000000000000000000 <= a * num <= 0x1000000000000000000000000000000)
        by (nonlinear_arith)
        requires
            -0x1000000000000000000000000 <= a <= 0x1000000000000000000000000,
            -0x1000000 <= num <= 0x1000000,
    ;
    div_trunc(a * num, den)
}

/// A quotient rounded toward zero is no larger than the bound that the dividend has
/// over the divisor.
pub proof fn lemma_tdiv_le(a: int, d: int, m: int)
    requires
        d > 0,
        m >= 0,
        -(m * d) <= a <= m * d,
    ensures
        -m <= tdiv(a, d) <= m,
{
    if a >= 0 {
        assert(a / d <= m) by (nonlinear_arith)
            requires
                0 <= a <= m * d,
                d > 0,
        ;
        assert(a / d >= 0) by (nonlinear_arith)
            requires
                a >= 0,
                d > 0,
        ;
    } else {
        assert((-a) / d <= m) by (nonlinear_arith)
            requires
                0 <= -a <= m * d,
                d > 0,
        ;
        assert((-a) / d >= 0) by (nonlinear_arith)
            requires
                -a >= 0,
                d > 0,
        ;
    }
}

proof fn lemma_norm2_bound(a: V3)
    requires
        in_limit3(a),
    ensures
        0 <= norm2(a) <= 3 * LIMIT * LIMIT,
{
    assert(0 <= norm2(a) <= 3 * LIMIT * LIMIT) by (nonlinear_arith)
        requires
            in_limit3(a),
    ;
}

proof fn lemma_first_touch_unique(pos: V3, radius: int, cs: Seq<BatCollider>, i: int, k: int)
    requires
        is_first_touch(pos, radius, cs, i),
        is_first_touch(pos, radius, cs, k),
    ensures
        i == k,
{
    if i < k {
        assert(!touches(pos, radius, cs[i]));
    } else if k < i {
        assert(!touches(pos, radius, cs[k]));
    }
}

proof fn lemma_move_bound(v: int, dt: int)
    requires
        -0x400000000 <= v <= 0x400000000,
        0 <= dt <= MAX_DT,
    ensures
        -0x8000000000 <= tdiv(v * dt, SCALE as int) <= 0x8000000000,
{
    assert(-(0x8000000000 * 1000000) <= v * dt <= 0x8000000000 * 1000000) by (nonlinear_arith)
        requires
            -0x400000000 <= v <= 0x400000000,
            0 <= dt <= 10_000_000,
    ;
    lemma_tdiv_le(v * dt, SCALE as int, 0x8000000000);
}

/// Squared distance between the ball at `p` and a collision point at `q`.
fn dist2(p: Vec3, q: Vec3) -> (r: i128)
    requires
        in_limit3(p@),
        in_limit3(q@),
    ensures
        r == norm2(sub3(p@, q@)),
{
    let dx = p.x as i128 - q.x as i128;
    let dy = p.y as i128 - q.y as i128;
    let dz = p.z as i128 - q.z as i128;
    assert(dx * dx <= 0x100000000000000000000 && dy * dy <= 0x100000000000000000000 && dz * dz
        <= 0x100000000000000000000) by (nonlinear_arith)
        requires
            -0x800000000 <= dx <= 0x800000000,
            -0x800000000 <= dy <= 0x800000000,
            -0x800000000 <= dz <= 0x800000000,
    ;
    assert(dx * dx >= 0 && dy * dy >= 0 && dz * dz >= 0) by (nonlinear_arith);
    dx * dx + dy * dy + dz * dz
}

/// Index of the first collision point in reach of the ball, if any.
fn find_first_touch(pos: Vec3, radius: i64, cs: &Vec<BatCollider>) -> (r: Option<usize>)
    requires
        in_limit3(pos@),
        0 <= radius <= LIMIT,
        colliders_in_limit(cs@),
    ensures
        r matches Some(i) ==> is_first_touch(pos@, radius as int, cs@, i as int),
        r is None ==> !any_touch(pos@, radius as int, cs@),
{
    let dist: i128 = radius as i128 + POINT_RADIUS as i128;
    assert(dist * dist <= 0x100000000000000000000) by (nonlinear_arith)
        requires
            0 <= dist <= 0x800000000,
    ;
    let limit2: i128 = dist * dist;
    let mut i: usize = 0;
    while i < cs.len()
        invariant
            0 <= i <= cs@.len(),
            limit2 == reach(radius as int) * reach(radius as int),
            in_limit3(pos@),
            colliders_in_limit(cs@),
            forall|j: int| 0 <= j < i ==> !touches(pos@, radius as int, #[trigger] cs@[j]),
        decreases cs@.len() - i,
    {
        let c = cs[i];
        assert(in_limit3(cs@[i as int].position@));
        if dist2(pos, c.position) < limit2 {
            return Some(i);
        }
        i = i + 1;
    }
    proof {
        if any_touch(pos@, radius as int, cs@) {
            let k = choose|k: int| is_first_touch(pos@, radius as int, cs@, k);
            assert(!touches(pos@, radius as int, cs@[k]));
        }
    }
    None
}

/// `v * 4 * hp / SCALE` negated and `15 * dv` added, for one component.
fn response_component(v: i64, hp: u64, dv: i64) -> (r: i128)
    requires
        -0x400000000 <= v <= 0x400000000,
        hp <= 0x800000000,
        in_limit(dv as int),
    ensures
        r == tdiv(-v * (RECOIL * hp), SCALE as int) + FOLLOW * dv,
        -0x20000000000000 <= r <= 0x20000000000000,
{
    let k: i128 = RECOIL as i128 * hp as i128;
    assert(k == 4 * hp);
    assert(-0x800000000000000000 <= -(v as i128) * k <= 0x800000000000000000) by (nonlinear_arith)
        requires
            -0x400000000 <= v <= 0x400000000,
            0 <= k <= 0x2000000000,
    ;
    let a: i128 = -(v as i128) * k;
    let q = div_trunc(a, SCALE as i128);
    proof {
        lemma_tdiv_le(a as int, 1000000, 0x10000000000000);
    }
    let f: i128 = FOLLOW as i128 * dv as i128;
    assert(f == 15 * dv);
    q + f
}

impl Ball {
    /// Advances the ball by `dt` microseconds: gravity, motion, ground bounce, and the
    /// first bat collision point in reach while the ball is still thrown. Returns
    /// whether the strike was hard enough to start the impact pause.
    pub fn step(&mut self, dt: i64, colliders: &Vec<BatCollider>) -> (impact: bool)
        requires
            old(self).steppable(),
            0 <= dt <= MAX_DT,
            colliders_in_limit(colliders@),
        ensures
            (final(self)@, impact) == step_model(old(self)@, dt as int, colliders@),
    {
        let ghost b0 = self@;
        // gravity
        let g: i64 = mul_div(GRAVITY as i128, dt as i128, SCALE as i128) as i64;
        assert(g == 2 * dt);
        let vy: i64 = self.velocity.y - g;
        let v1 = Vec3 { x: self.velocity.x, y: vy, z: self.velocity.z };
        assert(v1@ == fall(b0.velocity, dt as int));

        // tentative position
        let mx = mul_div(v1.x as i128, dt as i128, SCALE as i128);
        let my = mul_div(v1.y as i128, dt as i128, SCALE as i128);
        let mz = mul_div(v1.z as i128, dt as i128, SCALE as i128);
        proof {
            lemma_move_bound(v1.x as int, dt as int);
            lemma_move_bound(v1.y as int, dt as int);
            lemma_move_bound(v1.z as int, dt as int);
        }
        let mut p1 = Vec3 {
            x: self.position.x + mx as i64,
            y: self.position.y + my as i64,
            z: self.position.z + mz as i64,
        };
        assert(p1@ == moved(b0.position, v1@, dt as int));

        // ground
        let mut v2 = v1;
        if p1.y < self.radius {
            p1.y = self.radius;
            v2 = Vec3 {
                x: mul_div(v1.x as i128, RESTITUTION_NUM as i128, RESTITUTION_DEN as i128) as i64,
                y: mul_div(-(v1.y as i128), RESTITUTION_NUM as i128, RESTITUTION_DEN as i128)
                    as i64,
                z: mul_div(v1.z as i128, RESTITUTION_NUM as i128, RESTITUTION_DEN as i128) as i64,
            };
            proof {
                lemma_tdiv_le(v1.x * 7, 10, 0x400000000);
                lemma_tdiv_le(-v1.y * 7, 10, 0x400000000);
                lemma_tdiv_le(v1.z * 7, 10, 0x400000000);
            }
            assert(v2@ == bounce(v1@));
        }

        // bat
        let mut impact = false;
        if self.status == BallStatus::Thrown {
            match find_first_touch(self.position, self.radius, colliders) {
                Some(i) => {
                    let dv = colliders[i].swing.decaying_velocity;
                    assert(in_limit3(colliders@[i as int].swing.decaying_velocity@));
                    let n2 = dist2(dv, Vec3::zero());
                    assert(sub3(dv@, v3(0, 0, 0)) == dv@);
                    proof {
                        lemma_norm2_bound(dv@);
                    }
                    let hp = isqrt(n2 as u128);
                    assert(hp <= 0x800000000) by (nonlinear_arith)
                        requires
                            hp * hp <= n2,
                            n2 <= 3 * 10_000_000_000 * 10_000_000_000,
                    ;
                    self.status = BallStatus::Hit;
                    let rx = response_component(v2.x, hp, dv.x);
                    let ry = response_component(v2.y, hp, dv.y);
                    let rz = response_component(v2.z, hp, dv.z);
                    let hy = div_trunc(ry, 2);
                    proof {
                        lemma_tdiv_le(ry as int, 2, 0x20000000000000);
                    }
                    if n2 > IMPACT_POWER as i128 * IMPACT_POWER as i128 {
                        let ax = mul_div(rx, BOOST_NUM as i128, BOOST_DEN as i128);
                        let ay = mul_div(hy, BOOST_NUM as i128, BOOST_DEN as i128);
                        let az = mul_div(rz, BOOST_NUM as i128, BOOST_DEN as i128);
                        proof {
                            lemma_tdiv_le(rx * 12, 10, 0x30000000000000);
                            lemma_tdiv_le(hy * 12, 10, 0x30000000000000);
                            lemma_tdiv_le(rz * 12, 10, 0x30000000000000);
                        }
                        self.velocity = Vec3 { x: ax as i64, y: ay as i64, z: az as i64 };
                        impact = true;
                    } else {
                        self.velocity = Vec3 { x: rx as i64, y: hy as i64, z: rz as i64 };
                    }
                    proof {
                        let k = first_touch(b0.position, b0.radius, colliders@);
                        assert(is_first_touch(b0.position, b0.radius, colliders@, k));
                        lemma_first_touch_unique(b0.position, b0.radius, colliders@, i as int, k);
                    }
                },
                None => {
                    self.velocity = v2;
                },
            }
        } else {
            self.velocity = v2;
        }
        self.position = p1;
        impact
    }
}


/// Without velocity, above the ground and unstruck, a step that does not reach the
/// ground takes exactly gravity times `dt` off the vertical velocity and leaves the
/// horizontal components at zero.
pub proof fn lemma_free_fall(b: BallModel, dt: int, cs: Seq<BatCollider>)
    requires
        b.velocity == v3(0, 0, 0),
        b.position.y > b.radius,
        0 <= dt,
        !grounded(b, dt),
        !struck(b, cs),
    ensures
        step_model(b, dt, cs).0.velocity == v3(0, -(GRAVITY * dt) / SCALE as int, 0),
        step_model(b, dt, cs).0.velocity.y == b.velocity.y - 2 * dt,
        !step_model(b, dt, cs).1,
{
    assert((GRAVITY * dt) / SCALE as int == 2 * dt) by (nonlinear_arith)
        requires
            dt >= 0,
    ;
}

/// A ball resting on the ground at its radius and moving down at the moment of
/// contact bounces: it stays at its radius, its vertical velocity is reversed, and
/// each component is scaled by 0.7.
pub proof fn lemma_ground_bounce(b: BallModel, dt: int, cs: Seq<BatCollider>)
    requires
        b.position.y == b.radius,
        tdiv(fall(b.velocity, dt).y * dt, SCALE as int) < 0,
        !struck(b, cs),
    ensures
        step_model(b, dt, cs).0.position.y == b.radius,
        ({
            let v = fall(b.velocity, dt);
            let w = step_model(b, dt, cs).0.velocity;
            &&& w.x == ratio(v.x, 7, 10)
            &&& w.y == ratio(-v.y, 7, 10)
            &&& w.z == ratio(v.z, 7, 10)
        }),
{
}

/// A struck ball asks for the impact pause exactly when the striking point's decaying
/// velocity is longer than the threshold; a length equal to it asks for nothing.
pub proof fn lemma_impact_threshold(b: BallModel, dt: int, cs: Seq<BatCollider>)
    ensures
        step_model(b, dt, cs).1 <==> struck(b, cs) && norm2(striking_velocity(b, cs))
            > IMPACT_POWER * IMPACT_POWER,
        struck(b, cs) && norm2(striking_velocity(b, cs)) == IMPACT_POWER * IMPACT_POWER
            ==> !step_model(b, dt, cs).1,
{
}

/// A thrown ball is struck by the lowest-index collision point in reach, whatever
/// points after it are in reach too.
pub proof fn lemma_lowest_index_strikes(b: BallModel, dt: int, cs: Seq<BatCollider>, i: int)
    requires
        b.status == BallStatus::Thrown,
        0 <= i < cs.len(),
        touches(b.position, b.radius, cs[i]),
        forall|j: int| 0 <= j < i ==> !touches(b.position, b.radius, #[trigger] cs[j]),
    ensures
        step_model(b, dt, cs).0.status == BallStatus::Hit,
        step_model(b, dt, cs).0.velocity == hit_response(
            landed_velocity(b, dt),
            cs[i].swing.decaying_velocity@,
        ),
        step_model(b, dt, cs).1 == is_impact(cs[i].swing.decaying_velocity@),
{
    assert(is_first_touch(b.position, b.radius, cs, i));
    let k = first_touch(b.position, b.radius, cs);
    lemma_first_touch_unique(b.position, b.radius, cs, i, k);
}

/// A ball already hit is never struck again: it keeps its status, its velocity is
/// that of gravity and the ground alone, and it asks for no pause.
pub proof fn lemma_hit_ball_not_struck(b: BallModel, dt: int, cs: Seq<BatCollider>)
    requires
        b.status == BallStatus::Hit,
    ensures
        step_model(b, dt, cs).0.status == BallStatus::Hit,
        step_model(b, dt, cs).0.velocity == landed_velocity(b, dt),
        step_model(b, dt, cs).0.position == landed_position(b, dt),
        !step_model(b, dt, cs).1,
{
}

} // verus!
