use asteroids_core::graphics::score::Score;
use asteroids_core::logic::blocks::{Block, Obstacle};
use asteroids_core::logic::player::{
    move_player, player_collision_system, spawn_player, Player, PlayerEntity,
};
use asteroids_core::{Direction, InputState};

fn idle() -> InputState {
    InputState { up: false, down: false, left: false, right: false, teleport: false, reset: false }
}

fn obstacle_at(x: i32, y: i32) -> Obstacle {
    Obstacle { block: Block { velocity: 300, direction: Direction::Left }, x, y }
}

#[test]
fn player_spawns_at_the_origin_with_defaults() {
    let p = spawn_player();
    assert_eq!((p.x, p.y), (0, 0));
    assert_eq!(p.player.velocity, 300);
    assert_eq!(p.player.teleport_distance, 70);
}

#[test]
fn player_moves_along_the_pressed_axes() {
    let mut player = Some(spawn_player());
    move_player(&mut player, InputState { right: true, ..idle() }, 1000);
    let p = player.unwrap();
    assert_eq!((p.x, p.y), (300, 0));

    let mut player = Some(spawn_player());
    move_player(&mut player, InputState { up: true, left: true, ..idle() }, 500);
    let p = player.unwrap();
    assert_eq!((p.x, p.y), (-150, 150));

    // Opposite keys cancel out.
    let mut player = Some(spawn_player());
    move_player(&mut player, InputState { left: true, right: true, ..idle() }, 1000);
    let p = player.unwrap();
    assert_eq!((p.x, p.y), (0, 0));
}

#[test]
fn player_wraps_at_the_play_field_edges() {
    let mut player = Some(PlayerEntity { player: spawn_player().player, x: 700, y: 0 });
    move_player(&mut player, InputState { right: true, ..idle() }, 1000);
    assert_eq!(player.unwrap().x, -750);

    let mut player = Some(PlayerEntity { player: spawn_player().player, x: 0, y: -500 });
    move_player(&mut player, InputState { down: true, ..idle() }, 1000);
    assert_eq!(player.unwrap().y, 600);
}

#[test]
fn teleport_displaces_along_the_held_directions() {
    let mut player = Some(spawn_player());
    move_player(&mut player, InputState { right: true, teleport: true, ..idle() }, 0);
    assert_eq!(player.unwrap().x, 70);

    let mut player = Some(spawn_player());
    move_player(&mut player, InputState { up: true, left: true, teleport: true, ..idle() }, 0);
    let p = player.unwrap();
    assert_eq!((p.x, p.y), (-70, 70));

    // A teleport edge with no direction held displaces nothing.
    let mut player = Some(spawn_player());
    move_player(&mut player, InputState { teleport: true, ..idle() }, 0);
    let p = player.unwrap();
    assert_eq!((p.x, p.y), (0, 0));
}

#[test]
fn moving_a_missing_player_is_a_noop() {
    let mut player: Option<PlayerEntity> = None;
    move_player(&mut player, InputState { right: true, ..idle() }, 1000);
    assert!(player.is_none());
}

#[test]
fn overlap_destroys_the_player_and_freezes_the_score() {
    let mut player = Some(spawn_player());
    let blocks = vec![obstacle_at(39, 0)];
    let mut score = Score { value: 12, active: true };
    let died = player_collision_system(&mut player, &blocks, &mut score);
    assert!(died);
    assert!(player.is_none());
    assert!(!score.active);
    assert_eq!(score.value, 12);
}

#[test]
fn touching_bounding_boxes_do_not_collide() {
    // Centres 40 apart: the 40x40 boxes share an edge but do not overlap.
    let mut player = Some(spawn_player());
    let blocks = vec![obstacle_at(40, 0), obstacle_at(0, -40), obstacle_at(40, 40)];
    let mut score = Score { value: 3, active: true };
    let died = player_collision_system(&mut player, &blocks, &mut score);
    assert!(!died);
    assert!(player.is_some());
    assert!(score.active);
}

#[test]
fn collision_without_a_player_is_a_noop() {
    let mut player: Option<PlayerEntity> = None;
    let blocks = vec![obstacle_at(0, 0)];
    let mut score = Score { value: 5, active: true };
    let died = player_collision_system(&mut player, &blocks, &mut score);
    assert!(!died);
    assert!(score.active);
    assert_eq!(score.value, 5);
}
