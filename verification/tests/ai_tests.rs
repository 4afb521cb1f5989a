use priest_game::ai::{
    chase_step, chase_velocity_sign, face_target, hitbox_offset_x, is_facing_target, Attacking,
    ChaseStep,
};
use priest_game::movement::FacingDirection;
use priest_game::physics::Axis;

const MS: u64 = 1_000_000;

#[test]
fn attack_hitbox_in_front() {
    assert_eq!(hitbox_offset_x(FacingDirection::Left), -12);
    assert_eq!(hitbox_offset_x(FacingDirection::Right), 12);
}

#[test]
fn attack_lasts_its_duration() {
    let hitbox = bevy::ecs::entity::Entity::PLACEHOLDER;
    let mut a = Attacking::new(300 * MS, hitbox);
    assert!(!a.advance(200 * MS));
    assert!(a.advance(100 * MS));
    assert_eq!(a.hitbox, hitbox);
}

#[test]
fn facing_the_target() {
    assert_eq!(face_target(FacingDirection::Right, true), Some(FacingDirection::Left));
    assert_eq!(face_target(FacingDirection::Left, false), Some(FacingDirection::Right));
    assert_eq!(face_target(FacingDirection::Left, true), None);
    assert!(is_facing_target(true, FacingDirection::Left));
    assert!(!is_facing_target(false, FacingDirection::Left));
    assert!(is_facing_target(false, FacingDirection::Right));
}

#[test]
fn chasing_the_target() {
    assert_eq!(chase_step(true, false, true), ChaseStep::Stop);
    assert_eq!(chase_step(false, true, false), ChaseStep::Stop);
    assert_eq!(chase_step(false, false, true), ChaseStep::Move(FacingDirection::Right));
    assert_eq!(chase_step(false, false, false), ChaseStep::Move(FacingDirection::Left));
    assert_eq!(chase_velocity_sign(ChaseStep::Stop), 0);
    assert_eq!(chase_velocity_sign(ChaseStep::Move(FacingDirection::Left)), -1);
    assert_eq!(chase_velocity_sign(ChaseStep::Move(FacingDirection::Right)), 1);
}

#[test]
fn axis_indices() {
    assert_eq!(Axis::X.index(), 0);
    assert_eq!(Axis::Y.index(), 1);
}
