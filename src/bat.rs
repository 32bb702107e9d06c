use vstd::prelude::*;
use crate::ball::{lemma_tdiv_le, MAX_DT};
use crate::geometry::{div_trunc, tdiv, SCALE};

verus! {

/// Rate of the bat's smoothing filter, per second.
pub const SMOOTHING_RATE: i64 = 40;

/// Downward offset of the bat's target height from the pointer's vertical aim, in micro-units.
pub const HEIGHT_BIAS: i64 = 200_000;

/// The swing angle turns by `SWING_GAIN_NUM / SWING_GAIN_DEN` radians per unit of
/// horizontal aim, from `SWING_OFFSET` micro-radians at the centre.
pub const SWING_GAIN_NUM: i64 = 22;
pub const SWING_GAIN_DEN: i64 = 10;
pub const SWING_OFFSET: i64 = 500_000;

/// Largest window extent, in pixels.
pub const MAX_EXTENT: i64 = 1_000_000;

/// Largest magnitude of a smoothed value, in micro-units.
pub const POSE_LIMIT: i64 = 1_000_000_000_000;

/// Pointer position in window pixels.
#[derive(Clone, Copy, Debug, PartialEq, Eq, Structural)]
pub struct Cursor {
    pub x: i64,
    pub y: i64,
}

/// A rotation held as four quaternion components in micro-units.
#[derive(Clone, Copy, Debug, PartialEq, Eq, Structural)]
pub struct Rotation {
    pub x: i64,
    pub y: i64,
    pub z: i64,
    pub w: i64,
}

/// The bat's local pose: its height and its rotation.
#[derive(Clone, Copy, Debug, PartialEq, Eq, Structural)]
pub struct BatPose {
    pub height: i64,
    pub rotation: Rotation,
}

/// The pointer's offset from the window centre along an axis, in micro-units of the
/// window's extent: `cursor / extent - 0.5`.
pub open spec fn aim_of(cursor: int, extent: int) -> int {
    tdiv(cursor * SCALE, extent) - SCALE / 2
}

/// The smoothing weight `min(dt * rate, 1)`, in micro-units.
pub open spec fn weight_of(dt: int) -> int {
    if dt * SMOOTHING_RATE < SCALE {
        dt * SMOOTHING_RATE
    } else {
        SCALE as int
    }
}

/// `old * (1 - n) + target * n`, rounded toward zero, for a weight `n` in micro-units.
pub open spec fn blend_of(old: int, target: int, n: int) -> int {
    tdiv(old * (SCALE - n) + target * n, SCALE as int)
}

/// The rotation about the bat's forward axis for horizontal aim `aim_x`, in
/// micro-radians: `-aim_x * 2.2 + 0.5`.
pub open spec fn swing_angle_of(aim_x: int) -> int {
    -tdiv(aim_x * SWING_GAIN_NUM, SWING_GAIN_DEN as int) + SWING_OFFSET
}

pub open spec fn pose_bounded(v: int) -> bool {
    -POSE_LIMIT <= v <= POSE_LIMIT
}

pub open spec fn rotation_bounded(r: Rotation) -> bool {
    pose_bounded(r.x as int) && pose_bounded(r.y as int) && pose_bounded(r.z as int)
        && pose_bounded(r.w as int)
}

pub open spec fn cursor_in_window(c: Cursor, width: int, height: int) -> bool {
    0 <= c.x <= width && 0 <= c.y <= height
}

/// Holds the last pointer position seen, for frames on which there is none.
#[derive(Clone, Copy, Debug)]
pub struct LastMousePosition {
    pub position: Cursor,
}

impl LastMousePosition {
    pub fn new() -> (r: LastMousePosition)
        ensures
            r.position == (Cursor { x: 0, y: 0 }),
    {
        LastMousePosition { position: Cursor { x: 0, y: 0 } }
    }

    /// The pointer position to use this frame: the current one, which is remembered,
    /// or the last one remembered when there is none.
    pub fn resolve(&mut self, current: Option<Cursor>) -> (r: Cursor)
        ensures
            current matches Some(c) ==> r == c && final(self).position == c,
            current is None ==> r == old(self).position && *final(self) == *old(self),
    {
        match current {
            Some(c) => {
                self.position = c;
                c
            },
            None => self.position,
        }
    }
}

/// `cursor / extent - 0.5` in micro-units.
pub fn aim(cursor: i64, extent: i64) -> (r: i64)
    requires
        0 < extent <= MAX_EXTENT,
        0 <= cursor <= extent,
    ensures
        r == aim_of(cursor as int, extent as int),
        -SCALE / 2 <= r <= SCALE / 2,
{
    assert(0 <= cursor * 1000000 <= extent * 1000000) by (nonlinear_arith)
        requires
            0 <= cursor <= extent,
    ;
    let q = div_trunc(cursor as i128 * SCALE as i128, extent as i128);
    proof {
        lemma_tdiv_le(cursor * SCALE, extent as int, SCALE as int);
        assert(q >= 0) by (nonlinear_arith)
            requires
                q == (cursor * 1000000) / (extent as int),
                cursor >= 0,
                extent > 0,
        ;
    }
    (q - SCALE as i128 / 2) as i64
}

/// The smoothing weight `min(dt * 40, 1)`, in micro-units.
pub fn smoothing_weight(dt: i64) -> (n: i64)
    requires
        0 <= dt <= MAX_DT,
    ensures
        n == weight_of(dt as int),
        0 <= n <= SCALE,
{
    let w = dt * SMOOTHING_RATE;
    if w < SCALE {
        w
    } else {
        SCALE
    }
}

/// `old * (1 - n) + target * n`: one step of the low-pass filter.
pub fn blend(old: i64, target: i64, n: i64) -> (r: i64)
    requires
        pose_bounded(old as int),
        pose_bounded(target as int),
        0 <= n <= SCALE,
    ensures
        r == blend_of(old as int, target as int, n as int),
        pose_bounded(r as int),
{
    let m: i128 = SCALE as i128 - n as i128;
    assert(-POSE_LIMIT * m <= old * m <= POSE_LIMIT * m) by (nonlinear_arith)
        requires
            pose_bounded(old as int),
            0 <= m,
    ;
    assert(-POSE_LIMIT * n <= target * n <= POSE_LIMIT * n) by (nonlinear_arith)
        requires
            pose_bounded(target as int),
            0 <= n,
    ;
    assert(POSE_LIMIT * m + POSE_LIMIT * n == POSE_LIMIT * SCALE) by (nonlinear_arith)
        requires
            m == SCALE - n,
    ;
    let s: i128 = old as i128 * m + target as i128 * n as i128;
    let r = div_trunc(s, SCALE as i128);
    proof {
        lemma_tdiv_le(s as int, SCALE as int, POSE_LIMIT as int);
    }
    r as i64
}

/// The rotation about the bat's forward axis that the horizontal aim asks for, in
/// micro-radians.
pub fn swing_angle(aim_x: i64) -> (r: i64)
    requires
        -SCALE <= aim_x <= SCALE,
    ensures
        r == swing_angle_of(aim_x as int),
{
    assert(aim_x * SWING_GAIN_NUM == aim_x * 22);
    proof {
        lemma_tdiv_le(aim_x * 22, 10, 3 * SCALE);
    }
    -(div_trunc(aim_x as i128 * SWING_GAIN_NUM as i128, SWING_GAIN_DEN as i128) as i64)
        + SWING_OFFSET
}

/// Where the pointer aims, horizontally and vertically, in micro-units: the current
/// position when there is one, else the last one seen.
pub fn pointer_aim(
    last: &mut LastMousePosition,
    current: Option<Cursor>,
    width: i64,
    height: i64,
) -> (r: (i64, i64))
    requires
        0 < width <= MAX_EXTENT,
        0 < height <= MAX_EXTENT,
        cursor_in_window(old(last).position, width as int, height as int),
        current matches Some(c) ==> cursor_in_window(c, width as int, height as int),
    ensures
        ({
            let c = match current {
                Some(c) => c,
                None => old(last).position,
            };
            &&& final(last).position == c
            &&& r.0 == aim_of(c.x as int, width as int)
            &&& r.1 == aim_of(c.y as int, height as int)
        }),
{
    let c = last.resolve(current);
    (aim(c.x, width), aim(c.y, height))
}

impl BatPose {
    pub open spec fn bounded(&self) -> bool {
        pose_bounded(self.height as int) && rotation_bounded(self.rotation)
    }

    /// Moves the pose toward the target that the pointer's vertical aim `aim_y` and the
    /// rotation `target` give, by the weight `min(dt * 40, 1)`. The rotation is blended
    /// component by component.
    pub fn update_bat_transform(&mut self, aim_y: i64, target: Rotation, dt: i64)
        requires
            old(self).bounded(),
            -SCALE <= aim_y <= SCALE,
            rotation_bounded(target),
            0 <= dt <= MAX_DT,
        ensures
            ({
                let n = weight_of(dt as int);
                let o = old(self).rotation;
                let f = final(self).rotation;
                &&& final(self).height == blend_of(old(self).height as int, aim_y - HEIGHT_BIAS, n)
                &&& f.x == blend_of(o.x as int, target.x as int, n)
                &&& f.y == blend_of(o.y as int, target.y as int, n)
                &&& f.z == blend_of(o.z as int, target.z as int, n)
                &&& f.w == blend_of(o.w as int, target.w as int, n)
            }),
            final(self).bounded(),
    {
        let n = smoothing_weight(dt);
        let o = self.rotation;
        self.height = blend(self.height, aim_y - HEIGHT_BIAS, n);
        self.rotation = Rotation {
            x: blend(o.x, target.x, n),
            y: blend(o.y, target.y, n),
            z: blend(o.z, target.z, n),
            w: blend(o.w, target.w, n),
        };
    }
}

} // verus!
