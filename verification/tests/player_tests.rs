use priest_game::movement::{CoyoteTimer, Direction2, HorizontalSide, KnockbackPush};
use priest_game::player::{
    flicker_dimmed, get_change_for_input, get_input_direction, hit_reaction, move_player, HurtState,
    Invincible, PlayerInput, StatusStep,
};
use priest_game::powers::ActivateBell;

const MS: u64 = 1_000_000;

fn no_keys() -> PlayerInput {
    PlayerInput {
        bell_just_pressed: false,
        down_pressed: false,
        right_pressed: false,
        left_pressed: false,
        jump_just_pressed: false,
        jump_just_released: false,
    }
}

#[test]
fn arrow_keys_steer() {
    assert_eq!(get_change_for_input(true, false), 1);
    assert_eq!(get_change_for_input(false, true), -1);
    assert_eq!(get_change_for_input(true, true), 1);
    assert_eq!(get_change_for_input(false, false), 0);
    assert_eq!(get_input_direction(true, true), Some(Direction2::Down));
    assert_eq!(get_input_direction(true, false), None);
    assert_eq!(get_input_direction(false, true), None);
}

#[test]
fn jump_uses_coyote_time() {
    let mut coyote = CoyoteTimer::default();
    let mut input = no_keys();
    input.jump_just_pressed = true;
    let c = move_player(input, true, false, &mut coyote);
    assert!(!c.jump);
    coyote.update(true, true, 16 * MS);
    let c = move_player(input, true, false, &mut coyote);
    assert!(c.jump);
    assert!(!coyote.can_jump());
    let c = move_player(input, false, true, &mut coyote);
    assert!(!c.jump);
}

#[test]
fn releasing_jump_cuts_rise() {
    let mut coyote = CoyoteTimer::default();
    let mut input = no_keys();
    input.jump_just_released = true;
    input.left_pressed = true;
    let c = move_player(input, false, true, &mut coyote);
    assert!(c.cut_jump);
    assert_eq!(c.direction_x, -1);
    let c = move_player(input, false, false, &mut coyote);
    assert!(!c.cut_jump);
}

#[test]
fn bell_key_rings_bell() {
    let mut coyote = CoyoteTimer::default();
    let mut input = no_keys();
    assert_eq!(move_player(input, true, false, &mut coyote).bell, None);
    input.bell_just_pressed = true;
    assert_eq!(move_player(input, true, false, &mut coyote).bell, Some(ActivateBell::default()));
    input.down_pressed = true;
    assert_eq!(
        move_player(input, true, false, &mut coyote).bell,
        Some(ActivateBell::direction(Direction2::Down))
    );
    assert_eq!(move_player(input, false, false, &mut coyote).bell, Some(ActivateBell::default()));
}

#[test]
fn invincible_player_ignores_hits() {
    let r = hit_reaction(true, Some(HorizontalSide::Left));
    assert!(r.hurt.is_none() && r.knockback.is_none() && r.invincible.is_none());
}

#[test]
fn hit_hurts_knocks_back_and_protects() {
    let r = hit_reaction(false, Some(HorizontalSide::Left));
    assert!(r.hurt.is_some());
    assert_eq!(r.knockback.as_ref().unwrap().push, KnockbackPush::Away(HorizontalSide::Left));
    assert_eq!(r.invincible.as_ref().unwrap().timer.duration_ns(), 800_000_012);
    let r = hit_reaction(false, None);
    assert!(r.hurt.is_some() && r.knockback.is_none() && r.invincible.is_none());
}

#[test]
fn hurt_state_expires_after_its_time() {
    let mut h = HurtState::new();
    assert_eq!(h.advance(50 * MS), StatusStep::Running);
    // 100 ms is just short of bevy's 0.1 s (100_000_001 ns).
    assert_eq!(h.advance(50 * MS), StatusStep::Running);
    assert!(!h.timer.is_finished());
    assert_eq!(h.advance(50 * MS), StatusStep::Running);
    assert!(h.timer.is_finished());
    assert_eq!(h.advance(50 * MS), StatusStep::Expired);
}

#[test]
fn invincibility_expires_the_frame_after_its_time() {
    let mut i = Invincible::new();
    // Frames of 16 ms: 50 frames make 800 ms, just short of bevy's 0.8 s.
    for _ in 0..50 {
        assert_eq!(i.advance(16 * MS), StatusStep::Running);
    }
    assert_eq!(i.timer.elapsed_ns(), 800 * MS);
    assert!(!i.timer.is_finished());
    assert_eq!(i.advance(16 * MS), StatusStep::Running);
    assert!(i.timer.is_finished());
    assert_eq!(i.advance(16 * MS), StatusStep::Expired);
}

#[test]
fn invincibility_expires_and_flickers() {
    let mut i = Invincible::new();
    assert_eq!(i.advance(700 * MS), StatusStep::Running);
    assert_eq!(i.advance(200 * MS), StatusStep::Running);
    assert_eq!(i.advance(1), StatusStep::Expired);
    assert!(flicker_dimmed(0));
    assert!(!flicker_dimmed(1));
    assert!(flicker_dimmed(12));
}
