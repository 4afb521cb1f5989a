use priest_game::animation::{
    animation_key_update, facing_update, flip_x, AnimationKey, AnimationSet, SpriteAnimation,
    FRAME_TIME_NS,
};
use priest_game::movement::{FacingDirection, MovementState};

#[test]
fn animation_key_follows_state() {
    assert_eq!(animation_key_update(AnimationKey::Idle, MovementState::Walking, true), Some(AnimationKey::Attacking));
    assert_eq!(animation_key_update(AnimationKey::Idle, MovementState::Jumping, false), Some(AnimationKey::Jumping));
    assert_eq!(animation_key_update(AnimationKey::Idle, MovementState::Walking, false), Some(AnimationKey::Walking));
    assert_eq!(animation_key_update(AnimationKey::Walking, MovementState::Idle, false), Some(AnimationKey::Idle));
    assert_eq!(animation_key_update(AnimationKey::Idle, MovementState::Idle, false), None);
    assert_eq!(animation_key_update(AnimationKey::Attacking, MovementState::Idle, true), None);
    assert_eq!(AnimationKey::default(), AnimationKey::Idle);
}

#[test]
fn facing_follows_walking() {
    assert_eq!(facing_update(FacingDirection::Right, false, true, false), Some(FacingDirection::Left));
    assert_eq!(facing_update(FacingDirection::Left, false, true, true), Some(FacingDirection::Right));
    assert_eq!(facing_update(FacingDirection::Left, false, true, false), None);
    assert_eq!(facing_update(FacingDirection::Right, true, true, false), None);
    assert_eq!(facing_update(FacingDirection::Right, false, false, false), None);
    assert!(flip_x(FacingDirection::Left));
    assert!(!flip_x(FacingDirection::Right));
}

#[test]
fn animation_set_lookup() {
    let mut set: AnimationSet<&str> = AnimationSet::new();
    assert!(set.clip_for_key(&AnimationKey::Idle).is_none());
    set.insert(AnimationKey::Idle, "idle");
    set.insert(AnimationKey::Walking, "walk");
    set.insert(AnimationKey::Jumping, "jump");
    set.insert(AnimationKey::Walking, "walk2");
    assert_eq!(set.clip_for_key(&AnimationKey::Idle), Some(&"idle"));
    assert_eq!(set.clip_for_key(&AnimationKey::Walking), Some(&"walk2"));
    assert_eq!(set.clip_for_key(&AnimationKey::Jumping), Some(&"jump"));
    assert_eq!(set.clip_for_key(&AnimationKey::Attacking), None);
    let copy = set.clone();
    assert_eq!(copy.clip_for_key(&AnimationKey::Walking), Some(&"walk2"));
    assert_eq!(copy.clip_for_key(&AnimationKey::Repulsion), None);
}

#[test]
fn sprite_frames_cycle() {
    let mut a = SpriteAnimation::new(3, FRAME_TIME_NS);
    assert_eq!(a.advance(FRAME_TIME_NS / 2, Some(0), None), None);
    assert_eq!(a.advance(FRAME_TIME_NS - FRAME_TIME_NS / 2, Some(0), None), Some(1));
    assert_eq!(a.advance(FRAME_TIME_NS, Some(1), None), Some(2));
    assert_eq!(a.advance(FRAME_TIME_NS, Some(2), None), Some(0));
    assert_eq!(a.advance(FRAME_TIME_NS, None, None), None);
}

#[test]
fn sprite_frames_follow_progress() {
    let mut a = SpriteAnimation::new(4, FRAME_TIME_NS);
    assert_eq!(a.advance(FRAME_TIME_NS, Some(0), Some(2)), Some(2));
    assert_eq!(a.advance(FRAME_TIME_NS, Some(2), Some(9)), Some(3));
    assert_eq!(a.advance(FRAME_TIME_NS, Some(usize::MAX), Some(1)), Some(1));
    let mut empty = SpriteAnimation::new(0, FRAME_TIME_NS);
    assert_eq!(empty.advance(FRAME_TIME_NS, Some(5), None), Some(0));
    assert_eq!(empty.advance(FRAME_TIME_NS, Some(5), Some(5)), Some(0));
}

#[test]
fn switching_clip_restarts_timer() {
    let mut a = SpriteAnimation::new(6, FRAME_TIME_NS);
    a.advance(FRAME_TIME_NS / 2, Some(0), None);
    a.switch_clip(8);
    assert_eq!(a.frames, 8);
    assert_eq!(a.timer.elapsed_ns(), 0);
    assert!(!a.timer.is_finished());
}
