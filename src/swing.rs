use vstd::prelude::*;
use crate::geometry::{div_trunc, in_limit3, ratio3, sub3, add3, V3, Vec3};

verus! {

/// Numerator and denominator of the factor by which the decaying velocity shrinks each tick.
pub const DECAY_NUM: i64 = 7;
pub const DECAY_DEN: i64 = 10;

/// Largest coordinate magnitude a sampled position may have (two thousand units).
pub const SAMPLE_LIMIT: i64 = 2_000_000_000;

/// Abstract state of a swing tracker.
pub struct SwingModel {
    pub previous_position: V3,
    pub decaying_velocity: V3,
}

/// The tracker after one fixed-interval sample at `new_position`.
pub open spec fn sample_model(s: SwingModel, new_position: V3) -> SwingModel {
    SwingModel {
        previous_position: new_position,
        decaying_velocity: ratio3(
            add3(s.decaying_velocity, sub3(new_position, s.previous_position)),
            DECAY_NUM as int,
            DECAY_DEN as int,
        ),
    }
}

pub open spec fn sample_bounded(c: int) -> bool {
    -SAMPLE_LIMIT <= c <= SAMPLE_LIMIT
}

pub open spec fn sample_bounded3(a: V3) -> bool {
    sample_bounded(a.x) && sample_bounded(a.y) && sample_bounded(a.z)
}

/// The decaying velocity stays within five times the position bound: a sustained
/// displacement of twice that bound per tick settles below it.
pub open spec fn velocity_bounded(c: int) -> bool {
    -5 * SAMPLE_LIMIT <= c <= 5 * SAMPLE_LIMIT
}

pub open spec fn velocity_bounded3(a: V3) -> bool {
    velocity_bounded(a.x) && velocity_bounded(a.y) && velocity_bounded(a.z)
}

/// Per collision point: turns position samples into an exponentially decaying velocity.
#[derive(Clone, Copy, Debug)]
pub struct SwingTracker {
    pub previous_position: Vec3,
    pub decaying_velocity: Vec3,
}

impl View for SwingTracker {
    type V = SwingModel;

    open spec fn view(&self) -> SwingModel {
        SwingModel {
            previous_position: self.previous_position@,
            decaying_velocity: self.decaying_velocity@,
        }
    }
}

/// `(v + p - q) * 7 / 10`, rounded toward zero, for one component.
fn decay_component(v: i64, p: i64, q: i64) -> (r: i64)
    requires
        velocity_bounded(v as int),
        sample_bounded(p as int),
        sample_bounded(q as int),
    ensures
        r as int == crate::geometry::ratio(v + p - q, DECAY_NUM as int, DECAY_DEN as int),
        velocity_bounded(r as int),
{
    let s: i128 = v as i128 + p as i128 - q as i128;
    assert(s * DECAY_NUM == s * 7);
    let r = div_trunc(s * DECAY_NUM as i128, DECAY_DEN as i128);
    assert(velocity_bounded(r as int)) by (nonlinear_arith)
        requires
            r as int == crate::geometry::tdiv(s * 7, 10),
            -7 * SAMPLE_LIMIT <= s <= 7 * SAMPLE_LIMIT,
    ;
    r as i64
}

impl SwingTracker {
    /// A tracker at rest at the origin.
    pub fn new() -> (r: SwingTracker)
        ensures
            r@.previous_position == crate::geometry::v3(0, 0, 0),
            r@.decaying_velocity == crate::geometry::v3(0, 0, 0),
    {
        SwingTracker { previous_position: Vec3::zero(), decaying_velocity: Vec3::zero() }
    }

    /// The tracker's state is small enough to be sampled.
    pub open spec fn bounded(&self) -> bool {
        sample_bounded3(self.previous_position@) && velocity_bounded3(self.decaying_velocity@)
    }

    /// Takes one fixed-interval sample: adds the displacement since the previous sample
    /// to the decaying velocity, scales it by 0.7 and remembers the new position.
    pub fn sample(&mut self, new_position: Vec3)
        requires
            old(self).bounded(),
            sample_bounded3(new_position@),
        ensures
            final(self)@ == sample_model(old(self)@, new_position@),
            final(self).bounded(),
    {
        let v = self.decaying_velocity;
        let q = self.previous_position;
        let x = decay_component(v.x, new_position.x, q.x);
        let y = decay_component(v.y, new_position.y, q.y);
        let z = decay_component(v.z, new_position.z, q.z);
        self.decaying_velocity = Vec3 { x, y, z };
        self.previous_position = new_position;
    }
}

/// One collision point of the bat: its current world position and its swing tracker.
/// A bat holds these in a fixed order; the order decides which one a ball meets first.
#[derive(Clone, Copy, Debug)]
pub struct BatCollider {
    pub position: Vec3,
    pub swing: SwingTracker,
}

impl BatCollider {
    pub open spec fn bounded(&self) -> bool {
        sample_bounded3(self.position@) && self.swing.bounded()
    }
}

/// Samples every collision point's tracker at its current position: one fixed tick.
pub fn update_collider_historic_velocity(colliders: &mut Vec<BatCollider>)
    requires
        forall|i: int| 0 <= i < old(colliders)@.len() ==> (#[trigger] old(colliders)@[i]).bounded(),
    ensures
        final(colliders)@.len() == old(colliders)@.len(),
        forall|i: int|
            0 <= i < final(colliders)@.len() ==> {
                &&& (#[trigger] final(colliders)@[i]).position == old(colliders)@[i].position
                &&& final(colliders)@[i].swing@ == sample_model(
                    old(colliders)@[i].swing@,
                    old(colliders)@[i].position@,
                )
                &&& final(colliders)@[i].bounded()
            },
{
    let n = colliders.len();
    let mut i: usize = 0;
    while i < n
        invariant
            n == colliders@.len(),
            n == old(colliders)@.len(),
            0 <= i <= n,
            forall|j: int| 0 <= j < n ==> (#[trigger] old(colliders)@[j]).bounded(),
            forall|j: int|
                0 <= j < i ==> {
                    &&& (#[trigger] colliders@[j]).position == old(colliders)@[j].position
                    &&& colliders@[j].swing@ == sample_model(
                        old(colliders)@[j].swing@,
                        old(colliders)@[j].position@,
                    )
                    &&& colliders@[j].bounded()
                },
            forall|j: int| i <= j < n ==> #[trigger] colliders@[j] == old(colliders)@[j],
        decreases n - i,
    {
        let mut c = colliders[i];
        assert(colliders@[i as int] == old(colliders)@[i as int]);
        assert(old(colliders)@[i as int].bounded());
        let p = c.position;
        c.swing.sample(p);
        colliders.set(i, c);
        i = i + 1;
    }
}

/// From rest at the origin, a jump to `d` and then a tick without motion leave the
/// decaying velocity at `d * 0.7` and then at `d * 0.7 * 0.7`.
pub proof fn lemma_decay_two_ticks(d: V3)
    ensures
        ({
            let s0 = SwingModel {
                previous_position: crate::geometry::v3(0, 0, 0),
                decaying_velocity: crate::geometry::v3(0, 0, 0),
            };
            let s1 = sample_model(s0, d);
            let s2 = sample_model(s1, d);
            &&& s1.decaying_velocity == ratio3(d, 7, 10)
            &&& s2.decaying_velocity == ratio3(ratio3(d, 7, 10), 7, 10)
        }),
{
    let s0 = SwingModel {
        previous_position: crate::geometry::v3(0, 0, 0),
        decaying_velocity: crate::geometry::v3(0, 0, 0),
    };
    let s1 = sample_model(s0, d);
    assert(add3(s0.decaying_velocity, sub3(d, s0.previous_position)) == d);
    assert(add3(s1.decaying_velocity, sub3(d, s1.previous_position)) == s1.decaying_velocity);
}

} // verus!
