use priest_game::movement::{
    cannot_move_change, knockback_velocity, movement_state_update, next_movement_state,
    on_ground_change, CoyoteTimer, Direction2, FacingDirection, HorizontalSide, Knockback,
    KnockbackPush, KnockbackStep, MarkerChange, MovementState,
};

const MS: u64 = 1_000_000;

#[test]
fn movement_state_follows_ground_and_speed() {
    assert_eq!(next_movement_state(false, true), MovementState::Jumping);
    assert_eq!(next_movement_state(false, false), MovementState::Jumping);
    assert_eq!(next_movement_state(true, true), MovementState::Walking);
    assert_eq!(next_movement_state(true, false), MovementState::Idle);
    assert_eq!(MovementState::default(), MovementState::Idle);
    assert_eq!(FacingDirection::default(), FacingDirection::Right);
}

#[test]
fn movement_state_written_only_on_change() {
    assert_eq!(movement_state_update(MovementState::Idle, true, false), None);
    assert_eq!(movement_state_update(MovementState::Idle, false, false), Some(MovementState::Jumping));
    assert_eq!(movement_state_update(MovementState::Jumping, true, true), Some(MovementState::Walking));
    let next = movement_state_update(MovementState::Idle, true, true).unwrap();
    assert_eq!(movement_state_update(next, true, true), None);
}

#[test]
fn markers_follow_conditions() {
    assert_eq!(cannot_move_change(true, false), MarkerChange::Insert);
    assert_eq!(cannot_move_change(false, true), MarkerChange::Remove);
    assert_eq!(cannot_move_change(true, true), MarkerChange::Keep);
    assert_eq!(cannot_move_change(false, false), MarkerChange::Keep);
    assert_eq!(on_ground_change(true, false), MarkerChange::Insert);
    assert_eq!(on_ground_change(false, true), MarkerChange::Remove);
    assert_eq!(on_ground_change(true, true), MarkerChange::Keep);
    assert_eq!(on_ground_change(false, false), MarkerChange::Keep);
}

#[test]
fn coyote_timer_starts_run_out() {
    let c = CoyoteTimer::default();
    assert!(!c.can_jump());
}

#[test]
fn coyote_time_after_leaving_ground() {
    let mut c = CoyoteTimer::default();
    c.update(true, true, 16 * MS);
    assert!(c.can_jump());
    // Rising off the ground does not restart the coyote time.
    c.update(true, false, 100 * MS);
    assert!(c.can_jump());
    c.update(false, true, 49 * MS);
    assert!(c.can_jump());
    c.update(false, true, MS);
    // The coyote time is bevy's 0.15 s: 150_000_006 ns.
    assert!(c.can_jump());
    c.update(false, true, 6);
    assert!(!c.can_jump());
    c.update(false, true, 500 * MS);
    assert!(!c.can_jump());
}

#[test]
fn coyote_end_stops_jumping() {
    let mut c = CoyoteTimer::default();
    c.update(true, true, 0);
    assert!(c.can_jump());
    c.end();
    assert!(!c.can_jump());
    c.end();
    assert!(!c.can_jump());
}

#[test]
fn knockback_velocities() {
    assert_eq!(knockback_velocity(KnockbackPush::Away(HorizontalSide::Left)), (-290, 110));
    assert_eq!(knockback_velocity(KnockbackPush::Away(HorizontalSide::Right)), (290, 110));
    assert_eq!(knockback_velocity(KnockbackPush::Recoil(Direction2::Down)), (0, 300));
    assert_eq!(knockback_velocity(KnockbackPush::Recoil(Direction2::Up)), (0, -300));
    assert_eq!(knockback_velocity(KnockbackPush::Recoil(Direction2::Left)), (300, 0));
    assert_eq!(knockback_velocity(KnockbackPush::Recoil(Direction2::Right)), (-300, 0));
}

#[test]
fn knockback_ends_the_frame_after_its_timer() {
    let mut k = Knockback::new(KnockbackPush::Away(HorizontalSide::Right));
    assert_eq!(k.advance(60 * MS), KnockbackStep::Push(290, 110));
    assert_eq!(k.advance(60 * MS), KnockbackStep::Push(290, 110));
    assert!(k.timer.is_finished());
    assert_eq!(k.advance(60 * MS), KnockbackStep::End);
    assert_eq!(k.advance(60 * MS), KnockbackStep::End);
}
