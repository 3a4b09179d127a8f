use game_core::animation::{
    update_animations, update_player_animations, Animation, AnimationClip, AnimationSet, Animator,
};
use game_core::player::Player;

fn clips() -> AnimationSet {
    AnimationSet {
        idle: Animation { frame_duration: 100, start: 1, end: 8, looping: true },
        run: Animation { frame_duration: 100, start: 9, end: 14, looping: true },
        jump: Animation { frame_duration: 100, start: 16, end: 19, looping: false },
    }
}

#[test]
fn airborne_plays_jump_whatever_the_intent() {
    let mut p = Player::default();
    p.physic.grounded = false;
    for horizontal in [-1, 0, 1] {
        p.body.horizontal = horizontal;
        let choice = update_player_animations(&p, false);
        assert_eq!(choice.clip, AnimationClip::Jump);
    }
}

#[test]
fn grounded_rest_plays_idle() {
    let mut p = Player::default();
    p.physic.grounded = true;
    p.body.horizontal = 0;
    let choice = update_player_animations(&p, true);
    assert_eq!(choice.clip, AnimationClip::Idle);
    // A zero intent keeps the previous facing.
    assert!(choice.facing_left);
}

#[test]
fn grounded_motion_plays_run_with_facing() {
    let mut p = Player::default();
    p.physic.grounded = true;

    p.body.horizontal = 1;
    let choice = update_player_animations(&p, true);
    assert_eq!(choice.clip, AnimationClip::Run);
    assert!(!choice.facing_left);

    p.body.horizontal = -1;
    let choice = update_player_animations(&p, false);
    assert_eq!(choice.clip, AnimationClip::Run);
    assert!(choice.facing_left);
}

#[test]
fn clip_change_shows_first_frame_for_a_full_duration() {
    let mut a = Animator {
        animation: AnimationClip::Run,
        previous_animation: AnimationClip::Idle,
        animations: clips(),
        timer: 50,
    };
    let mut index: usize = 3;
    update_animations(&mut a, &mut index, 30);
    assert_eq!(index, 8);
    assert_eq!(a.timer, 100);
    assert_eq!(a.previous_animation, AnimationClip::Run);
}

#[test]
fn expired_timer_advances_one_frame() {
    let mut a = Animator {
        animation: AnimationClip::Run,
        previous_animation: AnimationClip::Run,
        animations: clips(),
        timer: 10,
    };
    let mut index: usize = 9;
    update_animations(&mut a, &mut index, 30);
    assert_eq!(index, 10);
    assert_eq!(a.timer, 100);
}

#[test]
fn running_timer_holds_the_frame() {
    let mut a = Animator {
        animation: AnimationClip::Run,
        previous_animation: AnimationClip::Run,
        animations: clips(),
        timer: 90,
    };
    let mut index: usize = 9;
    update_animations(&mut a, &mut index, 30);
    assert_eq!(index, 9);
    assert_eq!(a.timer, 60);
}

#[test]
fn looping_clip_wraps_to_its_first_frame() {
    let mut a = Animator {
        animation: AnimationClip::Run,
        previous_animation: AnimationClip::Run,
        animations: clips(),
        timer: 10,
    };
    let mut index: usize = 13;
    update_animations(&mut a, &mut index, 30);
    assert_eq!(index, 8);
}

#[test]
fn non_looping_clip_holds_its_last_frame() {
    let mut a = Animator {
        animation: AnimationClip::Jump,
        previous_animation: AnimationClip::Jump,
        animations: clips(),
        timer: 10,
    };
    let mut index: usize = 18;
    update_animations(&mut a, &mut index, 30);
    assert_eq!(index, 18);
    assert_eq!(a.timer, 100);
}
