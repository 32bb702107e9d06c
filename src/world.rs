use vstd::prelude::*;
use crate::ball::{colliders_in_limit, step_model, Ball, MAX_DT};
use crate::pause::{AppState, PauseTimer, PAUSE_TIME};
use crate::swing::BatCollider;

verus! {

/// Some ball of `balls` asks for the impact pause in a step of `dt`.
pub open spec fn any_impact(balls: Seq<Ball>, dt: int, cs: Seq<BatCollider>) -> bool {
    exists|i: int| 0 <= i < balls.len() && (#[trigger] step_model(balls[i]@, dt, cs)).1
}

/// Steps every ball by `dt` microseconds against the bat's collision points, and
/// enters the impact pause when a strike asks for it while the game is running.
/// Returns whether the pause was entered, which is when the hit sound plays.
pub fn physics(
    balls: &mut Vec<Ball>,
    dt: i64,
    colliders: &Vec<BatCollider>,
    pause: &mut PauseTimer,
) -> (entered: bool)
    requires
        forall|i: int| 0 <= i < old(balls)@.len() ==> (#[trigger] old(balls)@[i]).steppable(),
        0 <= dt <= MAX_DT,
        colliders_in_limit(colliders@),
        old(pause).wf(),
    ensures
        final(balls)@.len() == old(balls)@.len(),
        forall|i: int|
            0 <= i < final(balls)@.len() ==> (#[trigger] final(balls)@[i])@ == step_model(
                old(balls)@[i]@,
                dt as int,
                colliders@,
            ).0,
        entered == (any_impact(old(balls)@, dt as int, colliders@) && old(pause).state
            == AppState::InGame),
        entered ==> final(pause).state == AppState::HitPause && final(pause).timer == PAUSE_TIME,
        !entered ==> *final(pause) == *old(pause),
        final(pause).wf(),
{
    let n = balls.len();
    let mut asked = false;
    let mut i: usize = 0;
    while i < n
        invariant
            n == balls@.len(),
            n == old(balls)@.len(),
            0 <= i <= n,
            0 <= dt <= MAX_DT,
            colliders_in_limit(colliders@),
            forall|j: int| 0 <= j < n ==> (#[trigger] old(balls)@[j]).steppable(),
            forall|j: int|
                0 <= j < i ==> (#[trigger] balls@[j])@ == step_model(
                    old(balls)@[j]@,
                    dt as int,
                    colliders@,
                ).0,
            forall|j: int| i <= j < n ==> #[trigger] balls@[j] == old(balls)@[j],
            asked == exists|j: int|
                0 <= j < i && (#[trigger] step_model(old(balls)@[j]@, dt as int, colliders@)).1,
        decreases n - i,
    {
        let mut b = balls[i];
        assert(balls@[i as int] == old(balls)@[i as int]);
        assert(old(balls)@[i as int].steppable());
        let impact = b.step(dt, colliders);
        balls.set(i, b);
        proof {
            if impact {
                assert(step_model(old(balls)@[i as int]@, dt as int, colliders@).1);
            }
        }
        asked = asked || impact;
        i = i + 1;
    }
    if asked {
        pause.start_pause_timer()
    } else {
        false
    }
}

} // verus!
