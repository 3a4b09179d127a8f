//! Per-character movement state and the fixed-tick integrator.
//!
//! Each fixed tick the integrator turns the sampled input and gravity into a
//! new velocity and jump timer.  Exactly one of jump force or gravity is
//! applied per tick, re-evaluated every tick from `jump_timer > 0`; the
//! vertical velocity is then clamped symmetrically to the terminal velocity.
//! The integrator never moves the character: committing and correcting the
//! position belongs to the collision resolver.

use vstd::prelude::*;
use vstd::math::max;
use crate::units::{
    clamp_abs,
    clamp_mag,
    mul_dt,
    scale_by_dt,
    Vec2,
    DT_LIMIT,
    HALF_LIMIT,
    RATE_LIMIT,
    TIME_LIMIT,
};

verus! {

/// Default downward acceleration, in subpixel units per second per second.
pub const GRAVITY: i64 = 300_000;

/// A playable character: physics state, body, and stats.
#[derive(Debug, Clone, Copy)]
pub struct Player {
    pub physic: PlayerPhysic,
    pub body: PlayerBody,
    pub stats: PlayerStats,
    pub base_stats: PlayerBaseStats,
}

#[derive(Debug, Clone, Copy, PartialEq, Eq, Structural)]
pub struct PlayerBaseStats {
    pub health: i32,
}

#[derive(Debug, Clone, Copy, PartialEq, Eq, Structural)]
pub struct PlayerStats {
    pub health: i32,
}

/// The character's collision body: its own box half extents and the
/// horizontal intent sampled from input (`-1`, `0` or `1`).
#[derive(Debug, Clone, Copy, PartialEq, Eq, Structural)]
pub struct PlayerBody {
    pub half_size: Vec2,
    pub horizontal: i32,
}

/// Velocity, grounded flag, jump timer and movement constants.
///
/// Velocities and the movement constants are in subpixel units per second
/// (gravity per second per second); `jump_time` and `jump_timer` are in
/// milliseconds.
#[derive(Debug, Clone, Copy, PartialEq, Eq, Structural)]
pub struct PlayerPhysic {
    pub speed: i64,
    pub jump_force: i64,
    pub jump_time: i64,
    pub jump_timer: i64,
    pub gravity: i64,
    pub terminal_velocity: i64,
    pub velocity: Vec2,
    pub grounded: bool,
    pub released_jump: bool,
}

/// Whether the character entity has been spawned yet.
#[derive(Debug, Clone, Copy, PartialEq, Eq, Structural)]
pub struct PlayerState {
    pub spawned: bool,
}

/// One sample of the input collaborator's edge-triggered queries.
#[derive(Debug, Clone, Copy, PartialEq, Eq, Structural)]
pub struct InputState {
    pub left_pressed: bool,
    pub right_pressed: bool,
    pub jump_just_pressed: bool,
    pub jump_just_released: bool,
}

impl PlayerPhysic {
    /// Constants and state within the ranges the arithmetic supports.
    pub open spec fn wf(self) -> bool {
        &&& 0 <= self.speed <= RATE_LIMIT
        &&& 0 <= self.jump_force <= RATE_LIMIT
        &&& 0 <= self.gravity <= RATE_LIMIT
        &&& 0 <= self.terminal_velocity <= RATE_LIMIT
        &&& 0 <= self.jump_time <= TIME_LIMIT
        &&& 0 <= self.jump_timer <= TIME_LIMIT
        &&& -RATE_LIMIT <= self.velocity.x <= RATE_LIMIT
        &&& -RATE_LIMIT <= self.velocity.y <= RATE_LIMIT
    }
}

impl PlayerBody {
    pub open spec fn wf(self) -> bool {
        &&& -1 <= self.horizontal <= 1
        &&& 0 <= self.half_size.x <= HALF_LIMIT
        &&& 0 <= self.half_size.y <= HALF_LIMIT
    }
}

impl Player {
    pub open spec fn wf(self) -> bool {
        self.physic.wf() && self.body.wf()
    }
}

impl Default for PlayerBaseStats {
    fn default() -> (r: Self)
        ensures
            r.health == 100,
    {
        Self { health: 100 }
    }
}

impl Default for PlayerStats {
    fn default() -> (r: Self)
        ensures
            r.health == 100,
    {
        Self { health: 100 }
    }
}

impl Default for PlayerBody {
    fn default() -> (r: Self)
        ensures
            r == (PlayerBody { half_size: Vec2 { x: 0, y: 0 }, horizontal: 0 }),
            r.wf(),
    {
        Self { half_size: Vec2 { x: 0, y: 0 }, horizontal: 0 }
    }
}

impl Default for PlayerPhysic {
    fn default() -> (r: Self)
        ensures
            r == (PlayerPhysic {
                speed: 200_000,
                jump_force: 250_000,
                jump_time: 300,
                jump_timer: 0,
                gravity: GRAVITY,
                terminal_velocity: 1_200_000,
                velocity: Vec2 { x: 0, y: -100i64 },
                grounded: false,
                released_jump: false,
            }),
            r.wf(),
    {
        Self {
            speed: 200_000,
            jump_force: 250_000,
            jump_time: 300,
            jump_timer: 0,
            gravity: GRAVITY,
            terminal_velocity: 1_200_000,
            velocity: Vec2 { x: 0, y: -100i64 },
            grounded: false,
            released_jump: false,
        }
    }
}

impl Default for Player {
    fn default() -> (r: Self)
        ensures
            r.physic == PlayerPhysic::default_spec(),
            r.body == PlayerBody::default_spec(),
            r.stats.health == 100,
            r.base_stats.health == 100,
            r.wf(),
    {
        Self {
            physic: PlayerPhysic::default(),
            body: PlayerBody::default(),
            stats: PlayerStats::default(),
            base_stats: PlayerBaseStats::default(),
        }
    }
}

impl Default for PlayerState {
    fn default() -> (r: Self)
        ensures
            !r.spawned,
    {
        Self { spawned: false }
    }
}

impl PlayerPhysic {
    /// The default physics constants as a spec value.
    pub open spec fn default_spec() -> PlayerPhysic {
        PlayerPhysic {
            speed: 200_000,
            jump_force: 250_000,
            jump_time: 300,
            jump_timer: 0,
            gravity: GRAVITY,
            terminal_velocity: 1_200_000,
            velocity: Vec2 { x: 0, y: -100i64 },
            grounded: false,
            released_jump: false,
        }
    }
}

impl PlayerBody {
    pub open spec fn default_spec() -> PlayerBody {
        PlayerBody { half_size: Vec2 { x: 0, y: 0 }, horizontal: 0 }
    }
}

/// The horizontal intent that a set of pressed keys produces: right and
/// left cancel.
pub open spec fn horizontal_intent(input: InputState) -> i32 {
    if input.right_pressed && !input.left_pressed {
        1
    } else if input.left_pressed && !input.right_pressed {
        -1i32
    } else {
        0
    }
}

/// The jump timer after one input sample: a release always cuts the jump;
/// otherwise a jump pressed while grounded rearms the timer to the full
/// jump time.
pub open spec fn timer_after_input(p: PlayerPhysic, input: InputState) -> i64 {
    if input.jump_just_released {
        0
    } else if input.jump_just_pressed && p.grounded {
        p.jump_time
    } else {
        p.jump_timer
    }
}

/// The whole character state after one input sample.
pub open spec fn input_applied(p: Player, input: InputState) -> Player {
    Player {
        body: PlayerBody { horizontal: horizontal_intent(input), ..p.body },
        physic: PlayerPhysic { jump_timer: timer_after_input(p.physic, input), ..p.physic },
        ..p
    }
}

/// Samples the input collaborator's edge-triggered queries into the
/// character's movement state: horizontal intent, and the jump timer on a
/// jump pressed while grounded (a release cuts the jump).
pub fn handle_player_input(p: &mut Player, input: &InputState)
    ensures
        *final(p) == input_applied(*old(p), *input),
{
    p.body.horizontal = 0;
    if input.left_pressed {
        p.body.horizontal = p.body.horizontal - 1;
    }
    if input.right_pressed {
        p.body.horizontal = p.body.horizontal + 1;
    }
    if input.jump_just_pressed && p.physic.grounded {
        p.physic.jump_timer = p.physic.jump_time;
    }
    if input.jump_just_released {
        p.physic.jump_timer = 0;
    }
}

/// The vertical velocity after one tick, before any collision: jump force
/// while the jump timer is active, gravity otherwise (never both), then the
/// symmetric terminal-velocity clamp.
pub open spec fn vel_y_stepped(p: PlayerPhysic, dt: i64) -> int {
    let raw = if p.jump_timer > 0 {
        p.velocity.y + p.jump_force
    } else {
        p.velocity.y - scale_by_dt(p.gravity as int, dt as int)
    };
    clamp_mag(raw, p.terminal_velocity as int)
}

/// The whole character state after one integrator tick.
pub open spec fn physics_step(p: Player, dt: i64) -> Player {
    Player {
        physic: PlayerPhysic {
            velocity: Vec2 {
                x: (p.body.horizontal * p.physic.speed) as i64,
                y: vel_y_stepped(p.physic, dt) as i64,
            },
            jump_timer: max(0, p.physic.jump_timer - dt) as i64,
            ..p.physic
        },
        ..p
    }
}

/// One integrator tick: sets the horizontal velocity from the intent,
/// applies exactly one of jump force or gravity (chosen from
/// `jump_timer > 0`), clamps the vertical velocity symmetrically to the
/// terminal velocity, and runs the jump timer down, stopping at zero.
///
/// The position is untouched: the collision resolver owns it.
pub fn update_physics(p: &mut Player, dt: i64)
    requires
        old(p).wf(),
        0 <= dt <= DT_LIMIT,
    ensures
        *final(p) == physics_step(*old(p), dt),
        final(p).wf(),
{
    proof {
        assert(-RATE_LIMIT <= p.body.horizontal * p.physic.speed <= RATE_LIMIT)
            by (nonlinear_arith)
            requires
                -1 <= p.body.horizontal <= 1,
                0 <= p.physic.speed <= RATE_LIMIT,
        ;
    }
    p.physic.velocity.x = (p.body.horizontal as i64) * p.physic.speed;
    if p.physic.jump_timer > 0 {
        p.physic.velocity.y = p.physic.velocity.y + p.physic.jump_force;
    } else {
        let g = mul_dt(p.physic.gravity, dt);
        p.physic.velocity.y = p.physic.velocity.y - g;
    }
    p.physic.velocity.y = clamp_abs(p.physic.velocity.y, p.physic.terminal_velocity);
    if p.physic.jump_timer >= dt {
        p.physic.jump_timer = p.physic.jump_timer - dt;
    } else {
        p.physic.jump_timer = 0;
    }
}

/// Jump transition: a jump requested while grounded rearms the timer to the
/// full jump time, and the very next integrator tick applies the jump force
/// (not gravity) before the timer's per-tick decrement.  From a non-falling
/// start with a positive jump force the resulting vertical velocity is
/// strictly upward, so the resolver's vertical pass cannot re-assert
/// `grounded` on that tick; from rest, with the force within the terminal
/// cap, it is exactly the jump force.
pub proof fn lemma_jump_transition(p: Player, input: InputState, dt: i64)
    requires
        p.wf(),
        p.physic.grounded,
        input.jump_just_pressed,
        !input.jump_just_released,
        0 < dt <= DT_LIMIT,
    ensures
        input_applied(p, input).physic.jump_timer == p.physic.jump_time,
        p.physic.jump_time > 0 ==> physics_step(input_applied(p, input), dt).physic.velocity.y
            == clamp_mag(
            p.physic.velocity.y + p.physic.jump_force,
            p.physic.terminal_velocity as int,
        ),
        p.physic.jump_time > 0 ==> physics_step(input_applied(p, input), dt).physic.jump_timer
            == max(0, p.physic.jump_time - dt),
        p.physic.jump_time > 0 && p.physic.velocity.y >= 0 && p.physic.jump_force > 0
            && p.physic.terminal_velocity > 0 ==> physics_step(
            input_applied(p, input),
            dt,
        ).physic.velocity.y > 0,
        p.physic.jump_time > 0 && p.physic.velocity.y == 0 && 0 < p.physic.jump_force
            <= p.physic.terminal_velocity ==> physics_step(
            input_applied(p, input),
            dt,
        ).physic.velocity.y == p.physic.jump_force,
{
    let q = input_applied(p, input);
    if p.physic.jump_time > 0 {
        assert(q.physic.jump_timer > 0);
        let vy = vel_y_stepped(q.physic, dt);
        assert(-RATE_LIMIT <= vy <= RATE_LIMIT);
        assert(physics_step(q, dt).physic.velocity.y == vy);
        assert(0 <= max(0, q.physic.jump_timer - dt) <= TIME_LIMIT);
    }
}

} // verus!
