//! The player entity: keyboard-driven movement with wrap-around and an
//! instantaneous teleport, and the collision system that ends the run.

use vstd::prelude::*;

use crate::graphics::score::Score;
use crate::logic::blocks::{
    spec_step_distance, spec_wrap, wrap_coordinate, Obstacle, BLOCK_HALF_X, BLOCK_HALF_Y,
};
use crate::{
    InputState, DELTA_MS_LIMIT, HALF_WINDOW_HEIGHT, HALF_WINDOW_WIDTH, POSITION_LIMIT,
    TELEPORT_LIMIT, VELOCITY_LIMIT,
};

verus! {

/// Width of the player's sprite in pixels.
pub const PLAYERSIZEX: i32 = 40;

/// Height of the player's sprite in pixels.
pub const PLAYERSIZEY: i32 = 40;

/// Half of the player's width.
pub const PLAYER_HALF_X: i32 = 20;

/// Half of the player's height.
pub const PLAYER_HALF_Y: i32 = 20;

/// The player's movement speed in pixels per second.
pub const PLAYER_VELOCITY: i32 = 300;

/// How far one teleport displaces the player, in pixels.
pub const PLAYER_TELEPORT_DISTANCE: i32 = 70;

/// The player's movement parameters: speed in pixels per second and the
/// distance one teleport covers.
#[derive(Clone, Copy, PartialEq, Eq, Structural, Debug)]
pub struct Player {
    pub velocity: i32,
    pub teleport_distance: i32,
}

/// The live player entity: its component and its pixel position. At most
/// one exists at any instant; it is destroyed on collision and recreated
/// by a reset.
#[derive(Clone, Copy, PartialEq, Eq, Structural, Debug)]
pub struct PlayerEntity {
    pub player: Player,
    pub x: i32,
    pub y: i32,
}

impl Player {
    pub open spec fn wf(self) -> bool {
        &&& 0 <= self.velocity <= VELOCITY_LIMIT
        &&& 0 <= self.teleport_distance <= TELEPORT_LIMIT
    }
}

impl PlayerEntity {
    pub open spec fn wf(self) -> bool {
        &&& self.player.wf()
        &&& -POSITION_LIMIT <= self.x <= POSITION_LIMIT
        &&& -POSITION_LIMIT <= self.y <= POSITION_LIMIT
    }
}

/// The player a fresh game starts with: at the origin, with the default
/// velocity and teleport distance.
pub open spec fn spec_default_player() -> PlayerEntity {
    PlayerEntity {
        player: Player {
            velocity: PLAYER_VELOCITY,
            teleport_distance: PLAYER_TELEPORT_DISTANCE,
        },
        x: 0,
        y: 0,
    }
}

/// Creates the player entity at the origin with its default movement
/// parameters.
pub fn spawn_player() -> (p: PlayerEntity)
    ensures
        p == spec_default_player(),
        p.wf(),
{
    PlayerEntity {
        player: Player {
            velocity: PLAYER_VELOCITY,
            teleport_distance: PLAYER_TELEPORT_DISTANCE,
        },
        x: 0,
        y: 0,
    }
}

/// The horizontal movement axis the input indicates: left pulls toward -1,
/// right toward +1, both cancel out.
pub open spec fn spec_x_axis(input: InputState) -> int {
    (if input.right {
        1int
    } else {
        0int
    }) - (if input.left {
        1int
    } else {
        0int
    })
}

/// The vertical movement axis the input indicates: down pulls toward -1,
/// up toward +1, both cancel out.
pub open spec fn spec_y_axis(input: InputState) -> int {
    (if input.up {
        1int
    } else {
        0int
    }) - (if input.down {
        1int
    } else {
        0int
    })
}

/// Where the player stands after one tick: it advances along both input
/// axes by its velocity, wraps on both axes independently, and finally, on
/// a teleport edge, is displaced by its teleport distance along whichever
/// axes the directional input indicates.
pub open spec fn spec_moved_player(p: PlayerEntity, input: InputState, delta_ms: int) -> PlayerEntity {
    let d = spec_step_distance(p.player.velocity as int, delta_ms);
    let x_axis = spec_x_axis(input);
    let y_axis = spec_y_axis(input);
    let wrapped_x = spec_wrap(p.x + x_axis * d, HALF_WINDOW_WIDTH as int, PLAYER_HALF_X as int);
    let wrapped_y = spec_wrap(p.y + y_axis * d, HALF_WINDOW_HEIGHT as int, PLAYER_HALF_Y as int);
    let tx = if input.teleport && x_axis == 1 {
        wrapped_x + p.player.teleport_distance
    } else if input.teleport && x_axis == -1 {
        wrapped_x - p.player.teleport_distance
    } else {
        wrapped_x
    };
    let ty = if input.teleport && y_axis == 1 {
        wrapped_y + p.player.teleport_distance
    } else if input.teleport && y_axis == -1 {
        wrapped_y - p.player.teleport_distance
    } else {
        wrapped_y
    };
    PlayerEntity { player: p.player, x: tx as i32, y: ty as i32 }
}

/// Moves the player by the directional input, wraps it at the play-field
/// edges, and applies a pending teleport edge. A missing player is a
/// no-op.
pub fn move_player(player: &mut Option<PlayerEntity>, input: InputState, delta_ms: u32)
    requires
        delta_ms <= DELTA_MS_LIMIT,
        match *old(player) {
            Some(p) => p.wf(),
            None => true,
        },
    ensures
        *final(player) == match *old(player) {
            Some(p) => Some(spec_moved_player(p, input, delta_ms as int)),
            None => None,
        },
        match *final(player) {
            Some(p) => p.wf(),
            None => true,
        },
{
    let current = *player;
    match current {
        None => {},
        Some(p) => {
            let x_axis: i32 = (if input.right {
                1
            } else {
                0
            }) - (if input.left {
                1
            } else {
                0
            });
            let y_axis: i32 = (if input.up {
                1
            } else {
                0
            }) - (if input.down {
                1
            } else {
                0
            });
            assert(p.player.velocity * delta_ms <= VELOCITY_LIMIT * DELTA_MS_LIMIT)
                by (nonlinear_arith)
                requires
                    0 <= p.player.velocity <= VELOCITY_LIMIT,
                    0 <= delta_ms <= DELTA_MS_LIMIT,
            ;
            assert(0 <= p.player.velocity * delta_ms) by (nonlinear_arith)
                requires
                    0 <= p.player.velocity,
                    0 <= delta_ms,
            ;
            let d: i32 = p.player.velocity * (delta_ms as i32) / 1000;
            assert(-600000 <= x_axis * d <= 600000 && -600000 <= y_axis * d <= 600000)
                by (nonlinear_arith)
                requires
                    -1 <= x_axis <= 1,
                    -1 <= y_axis <= 1,
                    0 <= d <= 600000,
            ;
            let wrapped_x = wrap_coordinate(p.x + x_axis * d, HALF_WINDOW_WIDTH, PLAYER_HALF_X);
            let wrapped_y = wrap_coordinate(p.y + y_axis * d, HALF_WINDOW_HEIGHT, PLAYER_HALF_Y);
            let tx: i32 = if input.teleport && x_axis == 1 {
                wrapped_x + p.player.teleport_distance
            } else if input.teleport && x_axis == -1 {
                wrapped_x - p.player.teleport_distance
            } else {
                wrapped_x
            };
            let ty: i32 = if input.teleport && y_axis == 1 {
                wrapped_y + p.player.teleport_distance
            } else if input.teleport && y_axis == -1 {
                wrapped_y - p.player.teleport_distance
            } else {
                wrapped_y
            };
            *player = Some(PlayerEntity { player: p.player, x: tx, y: ty });
        },
    }
}

/// Axis-aligned overlap between the player's bounding box and an
/// obstacle's: the boxes overlap iff on both axes the distance between the
/// centres is under the sum of the half-extents.
pub open spec fn spec_overlaps(p: PlayerEntity, b: Obstacle) -> bool {
    &&& -(PLAYER_HALF_X + BLOCK_HALF_X) < p.x - b.x < PLAYER_HALF_X + BLOCK_HALF_X
    &&& -(PLAYER_HALF_Y + BLOCK_HALF_Y) < p.y - b.y < PLAYER_HALF_Y + BLOCK_HALF_Y
}

/// Collision and death system. If a player exists and its bounding box
/// overlaps any obstacle's, the player entity is destroyed and score
/// accrual stops on the same tick; the returned flag reports the death. A
/// missing player is a no-op.
pub fn player_collision_system(
    player: &mut Option<PlayerEntity>,
    blocks: &Vec<Obstacle>,
    score: &mut Score,
) -> (died: bool)
    requires
        match *old(player) {
            Some(p) => p.wf(),
            None => true,
        },
        forall|i: int| 0 <= i < blocks@.len() ==> (#[trigger] blocks@[i]).wf(),
    ensures
        died == match *old(player) {
            Some(p) => exists|i: int| 0 <= i < blocks@.len() && spec_overlaps(p, #[trigger] blocks@[i]),
            None => false,
        },
        *final(player) == if died {
            None
        } else {
            *old(player)
        },
        *final(score) == if died {
            Score { value: old(score).value, active: false }
        } else {
            *old(score)
        },
{
    let current = *player;
    match current {
        None => false,
        Some(p) => {
            let mut hit: bool = false;
            let mut k: usize = 0;
            while k < blocks.len()
                invariant
                    k <= blocks@.len(),
                    p.wf(),
                    forall|i: int| 0 <= i < blocks@.len() ==> (#[trigger] blocks@[i]).wf(),
                    hit == exists|i: int|
                        0 <= i < k && spec_overlaps(p, #[trigger] blocks@[i]),
                decreases blocks@.len() - k,
            {
                let b = blocks[k];
                let dx = p.x - b.x;
                let dy = p.y - b.y;
                if -(PLAYER_HALF_X + BLOCK_HALF_X) < dx && dx < PLAYER_HALF_X + BLOCK_HALF_X
                    && -(PLAYER_HALF_Y + BLOCK_HALF_Y) < dy && dy < PLAYER_HALF_Y + BLOCK_HALF_Y {
                    hit = true;
                }
                k = k + 1;
            }
            if hit {
                *player = None;
                score.active = false;
            }
            hit
        },
    }
}

} // verus!
