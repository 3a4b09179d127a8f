use game_core::player::{handle_player_input, update_physics, InputState, Player, GRAVITY};

fn idle_input() -> InputState {
    InputState {
        left_pressed: false,
        right_pressed: false,
        jump_just_pressed: false,
        jump_just_released: false,
    }
}

#[test]
fn default_movement_constants() {
    let p = Player::default();
    assert_eq!(p.physic.speed, 200_000);
    assert_eq!(p.physic.jump_force, 250_000);
    assert_eq!(p.physic.jump_time, 300);
    assert_eq!(p.physic.jump_timer, 0);
    assert_eq!(p.physic.gravity, GRAVITY);
    assert_eq!(GRAVITY, 300_000);
    assert_eq!(p.physic.terminal_velocity, 1_200_000);
    assert_eq!(p.physic.velocity.x, 0);
    assert_eq!(p.physic.velocity.y, -100);
    assert!(!p.physic.grounded);
    assert_eq!(p.stats.health, 100);
    assert_eq!(p.base_stats.health, 100);
    assert_eq!(p.body.horizontal, 0);
}

#[test]
fn horizontal_intent_from_keys() {
    let mut p = Player::default();
    let mut input = idle_input();

    input.left_pressed = true;
    handle_player_input(&mut p, &input);
    assert_eq!(p.body.horizontal, -1);

    input.right_pressed = true;
    handle_player_input(&mut p, &input);
    assert_eq!(p.body.horizontal, 0);

    input.left_pressed = false;
    handle_player_input(&mut p, &input);
    assert_eq!(p.body.horizontal, 1);

    input.right_pressed = false;
    handle_player_input(&mut p, &input);
    assert_eq!(p.body.horizontal, 0);
}

#[test]
fn jump_request_arms_timer_only_when_grounded() {
    let mut p = Player::default();
    let mut input = idle_input();
    input.jump_just_pressed = true;

    handle_player_input(&mut p, &input);
    assert_eq!(p.physic.jump_timer, 0);

    p.physic.grounded = true;
    handle_player_input(&mut p, &input);
    assert_eq!(p.physic.jump_timer, p.physic.jump_time);
}

#[test]
fn jump_release_cuts_timer() {
    let mut p = Player::default();
    p.physic.grounded = true;
    let mut input = idle_input();
    input.jump_just_pressed = true;
    handle_player_input(&mut p, &input);
    assert_eq!(p.physic.jump_timer, 300);

    let mut release = idle_input();
    release.jump_just_released = true;
    handle_player_input(&mut p, &release);
    assert_eq!(p.physic.jump_timer, 0);
}

#[test]
fn gravity_tick_is_exact() {
    let mut p = Player::default();
    p.physic.velocity.y = -50_000;
    // gravity 300_000 over 100 ms lowers the velocity by 30_000.
    update_physics(&mut p, 100);
    assert_eq!(p.physic.velocity.y, -80_000);
    assert_eq!(p.physic.velocity.x, 0);
}

#[test]
fn horizontal_velocity_follows_intent() {
    let mut p = Player::default();
    p.body.horizontal = -1;
    update_physics(&mut p, 100);
    assert_eq!(p.physic.velocity.x, -200_000);
}

#[test]
fn jump_force_replaces_gravity_while_timer_runs() {
    let mut p = Player::default();
    p.physic.velocity.y = 0;
    p.physic.jump_timer = 300;
    update_physics(&mut p, 100);
    // The jump force is added; gravity is not applied the same tick.
    assert_eq!(p.physic.velocity.y, 250_000);
    assert_eq!(p.physic.jump_timer, 200);
}

#[test]
fn jump_transition_arms_then_spends_the_timer() {
    // Grounded character, jump requested: the timer is armed to the full
    // jump time; the next tick applies the jump force and runs the timer
    // down by dt.
    let mut p = Player::default();
    p.physic.grounded = true;
    p.physic.velocity.y = 0;
    let mut input = idle_input();
    input.jump_just_pressed = true;
    handle_player_input(&mut p, &input);
    assert_eq!(p.physic.jump_timer, 300);

    update_physics(&mut p, 100);
    assert_eq!(p.physic.velocity.y, 250_000);
    assert_eq!(p.physic.jump_timer, 200);
    assert!(p.physic.velocity.y > 0);
}

#[test]
fn terminal_velocity_clamps_both_directions() {
    let mut p = Player::default();
    p.physic.gravity = 1_000_000;
    p.physic.velocity.y = -1_150_000;
    update_physics(&mut p, 100);
    assert_eq!(p.physic.velocity.y, -1_200_000);

    let mut q = Player::default();
    q.physic.jump_force = 900_000;
    q.physic.velocity.y = 1_000_000;
    q.physic.jump_timer = 300;
    update_physics(&mut q, 100);
    assert_eq!(q.physic.velocity.y, 1_200_000);
}

#[test]
fn timer_never_goes_negative() {
    let mut p = Player::default();
    p.physic.jump_timer = 40;
    update_physics(&mut p, 100);
    assert_eq!(p.physic.jump_timer, 0);
}
