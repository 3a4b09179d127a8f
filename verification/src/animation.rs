//! The animation state driver and the frame stepper.
//!
//! The driver is a pure mapping from the previous fixed tick's resolved
//! movement state to a clip and a facing flag: airborne plays `Jump`
//! regardless of horizontal intent; on the ground a nonzero intent plays
//! `Run`, rest plays `Idle`.  A nonzero intent faces its own direction; a
//! zero intent keeps the previous facing.  The driver mutates no physics
//! state.  The frame stepper advances a clip's atlas frame on the
//! variable-rate pass from a countdown timer.

use vstd::prelude::*;
use crate::player::Player;
use crate::units::{DT_LIMIT, TIME_LIMIT};

verus! {

/// Largest accepted frame index or frame count of a clip.
pub const FRAME_LIMIT: usize = 1_000_000;

/// The clip identifiers the driver can select.
#[derive(Debug, Clone, Copy, PartialEq, Eq, Structural)]
pub enum AnimationClip {
    Idle,
    Run,
    Jump,
}

/// The driver's two outputs: the selected clip and whether the character
/// faces left.
#[derive(Debug, Clone, Copy, PartialEq, Eq, Structural)]
pub struct AnimationChoice {
    pub clip: AnimationClip,
    pub facing_left: bool,
}

/// One clip of the sprite atlas: 1-based first and last frame, the time a
/// frame shows (milliseconds), and whether the clip loops.
#[derive(Debug, Clone, Copy, PartialEq, Eq, Structural)]
pub struct Animation {
    pub frame_duration: i64,
    pub start: usize,
    pub end: usize,
    pub looping: bool,
}

/// The three clips a character plays.
#[derive(Debug, Clone, Copy, PartialEq, Eq, Structural)]
pub struct AnimationSet {
    pub idle: Animation,
    pub run: Animation,
    pub jump: Animation,
}

/// Playback state: the selected clip, the clip of the frame before (to
/// detect a clip change), the clip table, and the frame countdown.
#[derive(Debug, Clone, Copy, PartialEq, Eq, Structural)]
pub struct Animator {
    pub animation: AnimationClip,
    pub previous_animation: AnimationClip,
    pub animations: AnimationSet,
    pub timer: i64,
}

impl Animation {
    pub open spec fn wf(self) -> bool {
        &&& 1 <= self.start <= self.end <= FRAME_LIMIT
        &&& 0 <= self.frame_duration <= TIME_LIMIT
    }
}

impl AnimationSet {
    pub open spec fn wf(self) -> bool {
        self.idle.wf() && self.run.wf() && self.jump.wf()
    }

    /// The animation a clip identifier names.
    pub open spec fn clip_animation(self, clip: AnimationClip) -> Animation {
        match clip {
            AnimationClip::Idle => self.idle,
            AnimationClip::Run => self.run,
            AnimationClip::Jump => self.jump,
        }
    }

    /// Looks the clip's animation up.
    pub fn get(&self, clip: AnimationClip) -> (r: Animation)
        ensures
            r == self.clip_animation(clip),
    {
        match clip {
            AnimationClip::Idle => self.idle,
            AnimationClip::Run => self.run,
            AnimationClip::Jump => self.jump,
        }
    }
}

impl Animator {
    pub open spec fn wf(self) -> bool {
        &&& self.animations.wf()
        &&& -DT_LIMIT <= self.timer <= TIME_LIMIT
    }
}

/// The clip for a movement state: airborne plays `Jump` whatever the
/// horizontal intent; grounded plays `Run` on a nonzero intent, else
/// `Idle`.
pub open spec fn clip_for(grounded: bool, horizontal: i32) -> AnimationClip {
    if !grounded {
        AnimationClip::Jump
    } else if horizontal != 0 {
        AnimationClip::Run
    } else {
        AnimationClip::Idle
    }
}

/// The facing after one driver pass: a positive intent faces right, a
/// negative one left, and a zero intent keeps the previous facing.
pub open spec fn facing_for(horizontal: i32, prev_facing_left: bool) -> bool {
    if horizontal > 0 {
        false
    } else if horizontal < 0 {
        true
    } else {
        prev_facing_left
    }
}

/// The animation state driver: reads the previous fixed tick's resolved
/// movement state and the current facing, and selects the clip to play and
/// the facing to show.  Pure: it mutates nothing.
pub fn update_player_animations(p: &Player, prev_facing_left: bool) -> (r: AnimationChoice)
    ensures
        r.clip == clip_for(p.physic.grounded, p.body.horizontal),
        r.facing_left == facing_for(p.body.horizontal, prev_facing_left),
{
    let facing_left = if p.body.horizontal > 0 {
        false
    } else if p.body.horizontal < 0 {
        true
    } else {
        prev_facing_left
    };
    let clip = if !p.physic.grounded {
        AnimationClip::Jump
    } else if p.body.horizontal != 0 {
        AnimationClip::Run
    } else {
        AnimationClip::Idle
    };
    AnimationChoice { clip, facing_left }
}

/// The timer and atlas frame after one playback step: a clip change shows
/// the clip's first frame for a full frame duration; an expired timer
/// advances one frame, wrapping to the first frame on a looping clip and
/// holding the last frame otherwise.
pub open spec fn animator_step(a: Animator, index: usize, dt: i64) -> (int, int) {
    let anim = a.animations.clip_animation(a.animation);
    let changed = a.animation != a.previous_animation;
    let t1 = if changed {
        anim.frame_duration as int
    } else {
        a.timer - dt
    };
    let i1 = if changed {
        anim.start - 1
    } else {
        index as int
    };
    if t1 <= 0 {
        let i2 = i1 + 1;
        let i3 = if i2 > anim.end - 1 {
            if anim.looping {
                anim.start - 1
            } else {
                anim.end - 1
            }
        } else {
            i2
        };
        (anim.frame_duration as int, i3)
    } else {
        (t1, i1)
    }
}

/// Advances one playback step of `dt` milliseconds, updating the countdown
/// timer and the atlas frame index as [`animator_step`] says, and records
/// the shown clip for the next step's change detection.
pub fn update_animations(a: &mut Animator, atlas_index: &mut usize, dt: i64)
    requires
        old(a).wf(),
        0 <= dt <= DT_LIMIT,
        *old(atlas_index) < FRAME_LIMIT,
    ensures
        final(a).timer == animator_step(*old(a), *old(atlas_index), dt).0,
        *final(atlas_index) == animator_step(*old(a), *old(atlas_index), dt).1,
        final(a).previous_animation == old(a).animation,
        final(a).animation == old(a).animation,
        final(a).animations == old(a).animations,
        final(a).wf(),
        *final(atlas_index) < FRAME_LIMIT,
{
    let anim = a.animations.get(a.animation);
    a.timer = a.timer - dt;
    if a.animation != a.previous_animation {
        *atlas_index = anim.start - 1;
        a.timer = anim.frame_duration;
    }
    if a.timer <= 0 {
        a.timer = anim.frame_duration;
        *atlas_index = *atlas_index + 1;
        if *atlas_index > anim.end - 1 {
            if anim.looping {
                *atlas_index = anim.start - 1;
            } else {
                *atlas_index = anim.end - 1;
            }
        }
    }
    a.previous_animation = a.animation;
}

} // verus!
