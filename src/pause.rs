use vstd::prelude::*;
use crate::ball::MAX_DT;
use crate::geometry::{div_trunc, tdiv, SCALE};

verus! {

/// Length of the impact pause, in microseconds.
pub const PAUSE_TIME: i64 = 700_000;

#[derive(Clone, Copy, Debug, PartialEq, Eq, Structural)]
pub enum AppState {
    InGame,
    HitPause,
}

/// The game's two-state controller and the countdown of the impact pause.
#[derive(Clone, Copy, Debug)]
pub struct PauseTimer {
    pub state: AppState,
    pub timer: i64,
}

/// Camera shake amplitude, in micro-units, for a pause timer at `timer`:
/// `max(1 - (PAUSE_TIME - timer) / PAUSE_TIME, 0) * 0.5`.
pub open spec fn shake_amplitude_of(timer: int) -> int {
    let progress = SCALE - tdiv((PAUSE_TIME - timer) * SCALE, PAUSE_TIME as int);
    if progress > 0 {
        tdiv(progress, 2)
    } else {
        0
    }
}

/// The uniform draw `r / 2^32` in micro-units, in `[0, SCALE)`.
pub open spec fn unit_of(r: int) -> int {
    (r * SCALE) / 0x100000000
}

/// Camera offset `(u - 0.5) * amplitude` for the draw `r`.
pub open spec fn shake_offset_of(amplitude: int, r: int) -> int {
    tdiv((unit_of(r) - SCALE / 2) * amplitude, SCALE as int)
}

impl PauseTimer {
    pub open spec fn wf(&self) -> bool {
        &&& -MAX_DT <= self.timer <= PAUSE_TIME
        &&& self.state == AppState::HitPause ==> 0 <= self.timer
    }

    /// In game, with the timer at rest.
    pub fn new() -> (r: PauseTimer)
        ensures
            r.state == AppState::InGame,
            r.timer == 0,
            r.wf(),
    {
        PauseTimer { state: AppState::InGame, timer: 0 }
    }

    /// Enters the impact pause if the game is running; a pause already under way is
    /// left as it is. Returns whether the pause was entered.
    pub fn start_pause_timer(&mut self) -> (entered: bool)
        requires
            old(self).wf(),
        ensures
            entered == (old(self).state == AppState::InGame),
            entered ==> final(self).state == AppState::HitPause && final(self).timer == PAUSE_TIME,
            !entered ==> *final(self) == *old(self),
            final(self).wf(),
    {
        if self.state == AppState::InGame {
            self.state = AppState::HitPause;
            self.timer = PAUSE_TIME;
            true
        } else {
            false
        }
    }

    /// Counts the pause down by `dt` microseconds and returns to the game once the
    /// timer has fallen below zero. Does nothing in game.
    pub fn update_pause_timer(&mut self, dt: i64)
        requires
            old(self).wf(),
            0 <= dt <= MAX_DT,
        ensures
            old(self).state == AppState::InGame ==> *final(self) == *old(self),
            old(self).state == AppState::HitPause ==> {
                &&& final(self).timer == old(self).timer - dt
                &&& final(self).state == (if old(self).timer - dt < 0 {
                    AppState::InGame
                } else {
                    AppState::HitPause
                })
            },
            final(self).wf(),
    {
        if self.state == AppState::HitPause {
            self.timer = self.timer - dt;
            if self.timer < 0 {
                self.state = AppState::InGame;
            }
        }
    }

    /// Camera shake amplitude for the current timer, in micro-units.
    pub fn shake_amplitude(&self) -> (r: i64)
        requires
            self.wf(),
        ensures
            r == shake_amplitude_of(self.timer as int),
            0 <= r <= SCALE,
    {
        let span: i128 = PAUSE_TIME as i128 - self.timer as i128;
        assert(0 <= span * 1000000 <= 20000000 * 1000000) by (nonlinear_arith)
            requires
                0 <= span <= 20000000,
        ;
        let d: i128 = span * SCALE as i128;
        let q = div_trunc(d, PAUSE_TIME as i128);
        assert(0 <= q) by (nonlinear_arith)
            requires
                d >= 0,
                q == d / 700000,
        ;
        let progress: i128 = SCALE as i128 - q;
        if progress > 0 {
            let a = div_trunc(progress, 2);
            proof {
                crate::ball::lemma_tdiv_le(progress as int, 2, SCALE as int);
            }
            a as i64
        } else {
            0
        }
    }

    /// The camera's horizontal offset for this frame. Two draws are made and both are
    /// given to the same axis in turn, so the second one stands.
    pub fn camera_shake(&self) -> (r: i64)
        requires
            self.wf(),
        ensures
            exists|d: u32| r == shake_offset_of(shake_amplitude_of(self.timer as int), d as int),
    {
        let amplitude = self.shake_amplitude();
        // the axis is shaken twice in turn: the first offset is drawn, then replaced
        let _replaced = shake_offset(amplitude, random_u32());
        shake_offset(amplitude, random_u32())
    }
}

/// The camera offset `(u - 0.5) * amplitude` for a uniform draw `u = r / 2^32`.
pub fn shake_offset(amplitude: i64, r: u32) -> (o: i64)
    requires
        0 <= amplitude <= SCALE,
    ensures
        o == shake_offset_of(amplitude as int, r as int),
        -SCALE / 2 <= o <= SCALE / 2,
{
    let u: i128 = (r as i128 * SCALE as i128) / 0x100000000;
    assert(0 <= u < SCALE) by (nonlinear_arith)
        requires
            u == (r * SCALE) / 0x100000000,
            0 <= r < 0x100000000,
    ;
    let c: i128 = u - SCALE as i128 / 2;
    assert(-(SCALE / 2) * SCALE <= c * amplitude <= (SCALE / 2) * SCALE) by (nonlinear_arith)
        requires
            -(SCALE / 2) <= c <= SCALE / 2,
            0 <= amplitude <= SCALE,
    ;
    let o = div_trunc(c * amplitude as i128, SCALE as i128);
    proof {
        crate::ball::lemma_tdiv_le(c * amplitude, SCALE as int, SCALE / 2);
    }
    o as i64
}

/// Relies on rand::random: a uniformly drawn `u32` from the thread-local generator.
#[verifier::external_body]
fn random_u32() -> (r: u32) {
    rand::random::<u32>()
}

} // verus!
