use bat_ball::ball::{Ball, BallStatus};
use bat_ball::bat::{
    aim, blend, pointer_aim, smoothing_weight, swing_angle, BatPose, Cursor, LastMousePosition,
    Rotation,
};
use bat_ball::geometry::{isqrt, Vec3};
use bat_ball::pause::{shake_offset, AppState, PauseTimer};
use bat_ball::spawner::{spawn_balls, throw_ball, FixedStep};
use bat_ball::swing::{update_collider_historic_velocity, BatCollider, SwingTracker};
use bat_ball::world::physics;

fn ball(position: Vec3, velocity: Vec3) -> Ball {
    Ball { position, velocity, radius: 50_000, status: BallStatus::Thrown }
}

fn collider(position: Vec3, dv: Vec3) -> BatCollider {
    BatCollider {
        position,
        swing: SwingTracker { previous_position: position, decaying_velocity: dv },
    }
}

#[test]
fn free_fall_one_second_from_five_units() {
    let mut b = ball(Vec3::new(0, 5_000_000, 0), Vec3::zero());
    let impact = b.step(1_000_000, &Vec::new());
    assert!(!impact);
    assert_eq!(b.velocity, Vec3::new(0, -2_000_000, 0));
    assert_eq!(b.position, Vec3::new(0, 3_000_000, 0));
    assert_eq!(b.status, BallStatus::Thrown);
}

#[test]
fn free_fall_takes_gravity_times_dt() {
    let mut b = ball(Vec3::new(0, 10_000_000, 0), Vec3::zero());
    b.step(100_000, &Vec::new());
    assert_eq!(b.velocity.y, -200_000);
    assert_eq!(b.position.y, 9_980_000);
}

#[test]
fn ground_bounce_keeps_radius_and_scales_velocity() {
    let mut b = ball(Vec3::new(0, 50_000, 0), Vec3::new(1_000_000, -1_000_000, 2_000_000));
    b.step(10_000, &Vec::new());
    assert_eq!(b.position, Vec3::new(10_000, 50_000, 20_000));
    assert_eq!(b.velocity, Vec3::new(700_000, 714_000, 1_400_000));
}

#[test]
fn swing_tracker_decays_over_two_ticks() {
    let mut t = SwingTracker::new();
    let d = Vec3::new(1_000_000, -2_000_000, 300_000);
    t.sample(d);
    assert_eq!(t.decaying_velocity, Vec3::new(700_000, -1_400_000, 210_000));
    assert_eq!(t.previous_position, d);
    t.sample(d);
    assert_eq!(t.decaying_velocity, Vec3::new(490_000, -980_000, 147_000));
}

#[test]
fn collider_update_samples_each_point() {
    let mut cs = vec![
        BatCollider { position: Vec3::new(100, 0, 0), swing: SwingTracker::new() },
        BatCollider { position: Vec3::new(0, 0, -1_000), swing: SwingTracker::new() },
    ];
    update_collider_historic_velocity(&mut cs);
    assert_eq!(cs[0].swing.decaying_velocity, Vec3::new(70, 0, 0));
    assert_eq!(cs[1].swing.decaying_velocity, Vec3::new(0, 0, -700));
    assert_eq!(cs[1].swing.previous_position, Vec3::new(0, 0, -1_000));
}

#[test]
fn strike_at_threshold_power_keeps_game_running() {
    let p = Vec3::new(0, 1_000_000, 0);
    let mut balls = vec![ball(p, Vec3::zero())];
    let cs = vec![collider(p, Vec3::new(300_000, 0, 0))];
    let mut pause = PauseTimer::new();
    let entered = physics(&mut balls, 0, &cs, &mut pause);
    assert!(!entered);
    assert_eq!(pause.state, AppState::InGame);
    assert_eq!(balls[0].status, BallStatus::Hit);
    assert_eq!(balls[0].velocity, Vec3::new(4_500_000, 0, 0));
}

#[test]
fn strike_above_threshold_enters_pause() {
    let p = Vec3::new(0, 1_000_000, 0);
    let mut balls = vec![ball(p, Vec3::zero())];
    let cs = vec![collider(p, Vec3::new(300_001, 0, 0))];
    let mut pause = PauseTimer::new();
    let entered = physics(&mut balls, 0, &cs, &mut pause);
    assert!(entered);
    assert_eq!(pause.state, AppState::HitPause);
    assert_eq!(pause.timer, 700_000);
    assert_eq!(balls[0].velocity, Vec3::new(5_400_018, 0, 0));
}

#[test]
fn strike_response_reverses_ball_and_adds_bat_motion() {
    let p = Vec3::new(0, 1_000_000, 0);
    let mut b = ball(p, Vec3::new(1_000_000, 400_000, 0));
    let cs = vec![collider(p, Vec3::new(100_000, 20_000, 0))];
    let impact = b.step(0, &cs);
    assert!(!impact);
    // power = floor(sqrt(100000^2 + 20000^2)) = 101980
    // x: -1000000 * 4 * 101980 / 1e6 + 1500000 = 1092080
    // y: (-400000 * 4 * 101980 / 1e6 + 300000) / 2 = 68416
    assert_eq!(b.velocity, Vec3::new(1_092_080, 68_416, 0));
}

#[test]
fn lowest_index_point_in_reach_strikes() {
    let p = Vec3::new(0, 1_000_000, 0);
    let mut b = ball(p, Vec3::zero());
    let cs = vec![
        collider(Vec3::new(0, 1_000_000, 1_000_000), Vec3::new(0, 0, 900_000)),
        collider(Vec3::new(100_000, 1_000_000, 0), Vec3::new(10_000, 0, 0)),
        collider(p, Vec3::new(0, 0, 50_000)),
    ];
    let impact = b.step(0, &cs);
    assert!(!impact);
    assert_eq!(b.velocity, Vec3::new(150_000, 0, 0));
}

#[test]
fn point_at_exact_reach_does_not_strike() {
    let p = Vec3::new(0, 1_000_000, 0);
    let mut b = ball(p, Vec3::zero());
    let cs = vec![collider(Vec3::new(200_000, 1_000_000, 0), Vec3::new(10_000, 0, 0))];
    b.step(0, &cs);
    assert_eq!(b.status, BallStatus::Thrown);
    assert_eq!(b.velocity, Vec3::zero());
}

#[test]
fn hit_ball_is_not_struck_again() {
    let p = Vec3::new(0, 1_000_000, 0);
    let mut b = Ball {
        position: p,
        velocity: Vec3::new(1_000, 0, 0),
        radius: 50_000,
        status: BallStatus::Hit,
    };
    let cs = vec![collider(p, Vec3::new(900_000, 0, 0))];
    let impact = b.step(0, &cs);
    assert!(!impact);
    assert_eq!(b.status, BallStatus::Hit);
    assert_eq!(b.velocity, Vec3::new(1_000, 0, 0));
}

#[test]
fn pause_timer_runs_out_into_game() {
    let mut pause = PauseTimer::new();
    assert!(pause.start_pause_timer());
    assert_eq!(pause.timer, 700_000);
    pause.update_pause_timer(800_000);
    assert_eq!(pause.timer, -100_000);
    assert_eq!(pause.state, AppState::InGame);
}

#[test]
fn pause_timer_keeps_pause_until_below_zero() {
    let mut pause = PauseTimer::new();
    pause.start_pause_timer();
    pause.update_pause_timer(700_000);
    assert_eq!(pause.timer, 0);
    assert_eq!(pause.state, AppState::HitPause);
    assert!(!pause.start_pause_timer());
    assert_eq!(pause.timer, 0);
}

#[test]
fn pause_timer_idle_in_game() {
    let mut pause = PauseTimer::new();
    pause.update_pause_timer(500_000);
    assert_eq!(pause.timer, 0);
    assert_eq!(pause.state, AppState::InGame);
}

#[test]
fn shake_amplitude_follows_timer() {
    let mut pause = PauseTimer::new();
    pause.start_pause_timer();
    assert_eq!(pause.shake_amplitude(), 500_000);
    pause.update_pause_timer(350_000);
    assert_eq!(pause.shake_amplitude(), 250_000);
    pause.update_pause_timer(450_000);
    assert_eq!(pause.shake_amplitude(), 0);
}

#[test]
fn shake_offset_spans_half_amplitude() {
    assert_eq!(shake_offset(500_000, 0), -250_000);
    assert_eq!(shake_offset(500_000, 0x8000_0000), 0);
    assert_eq!(shake_offset(0, 12345), 0);
}

#[test]
fn camera_shake_stays_within_amplitude() {
    let mut pause = PauseTimer::new();
    pause.start_pause_timer();
    for _ in 0..50 {
        let o = pause.camera_shake();
        assert!(-250_000 <= o && o <= 250_000);
    }
}

#[test]
fn integer_square_root() {
    assert_eq!(isqrt(0), 0);
    assert_eq!(isqrt(10), 3);
    assert_eq!(isqrt(1_000_000), 1_000);
    assert_eq!(isqrt(90_000_000_000), 300_000);
    assert_eq!(isqrt(90_000_000_001), 300_000);
}

#[test]
fn pointer_aim_maps_to_centre_offset() {
    assert_eq!(aim(960, 1920), 0);
    assert_eq!(aim(0, 1920), -500_000);
    assert_eq!(aim(1920, 1920), 500_000);
    assert_eq!(aim(270, 1080), -250_000);
}

#[test]
fn pointer_aim_holds_last_position() {
    let mut last = LastMousePosition::new();
    let a = pointer_aim(&mut last, Some(Cursor { x: 480, y: 810 }), 1920, 1080);
    assert_eq!(a, (-250_000, 250_000));
    let b = pointer_aim(&mut last, None, 1920, 1080);
    assert_eq!(b, a);
    assert_eq!(last.position, Cursor { x: 480, y: 810 });
}

#[test]
fn smoothing_weight_is_capped() {
    assert_eq!(smoothing_weight(10_000), 400_000);
    assert_eq!(smoothing_weight(25_000), 1_000_000);
    assert_eq!(smoothing_weight(50_000), 1_000_000);
    assert_eq!(blend(0, 1_000_000, 500_000), 500_000);
    assert_eq!(blend(-1_000, 1_000, 1_000_000), 1_000);
}

#[test]
fn swing_angle_from_horizontal_aim() {
    assert_eq!(swing_angle(0), 500_000);
    assert_eq!(swing_angle(500_000), -600_000);
    assert_eq!(swing_angle(-500_000), 1_600_000);
}

#[test]
fn bat_pose_moves_toward_target() {
    let mut pose = BatPose { height: 0, rotation: Rotation { x: 0, y: 0, z: 0, w: 0 } };
    let target = Rotation { x: 0, y: 0, z: 0, w: 1_000_000 };
    pose.update_bat_transform(0, target, 10_000);
    assert_eq!(pose.height, -80_000);
    assert_eq!(pose.rotation, Rotation { x: 0, y: 0, z: 0, w: 400_000 });
}

#[test]
fn fixed_step_counts_whole_periods() {
    let mut clock = FixedStep::new(1_000_000);
    assert_eq!(clock.advance(600_000), 0);
    assert_eq!(clock.accumulated, 600_000);
    assert_eq!(clock.advance(600_000), 1);
    assert_eq!(clock.accumulated, 200_000);
}

#[test]
fn spawner_throws_one_ball_per_interval() {
    let mut balls = Vec::new();
    let mut clock = FixedStep::new(1_000_000);
    spawn_balls(&mut balls, &mut clock, 2_500_000);
    assert_eq!(balls.len(), 2);
    assert_eq!(clock.accumulated, 500_000);
    let b = throw_ball();
    assert_eq!(b.position, Vec3::new(-2_500_000, 500_000, -2_500_000));
    assert_eq!(b.velocity, Vec3::new(5_030_000, 1_820_000, 5_000_000));
    assert_eq!(b.radius, 50_000);
    assert_eq!(b.status, BallStatus::Thrown);
    assert_eq!(balls[1].position, b.position);
}
