use asteroids_core::logic::blocks::{
    move_blocks, spawn_block, spawn_runtime_blocks, spawn_starting_block, wrap_coordinate, Block,
    Obstacle, SpawnBlockEvent,
};
use asteroids_core::logic::spawning::create_spawn_locations;
use asteroids_core::Direction;

fn obstacle(direction: Direction, x: i32, y: i32) -> Obstacle {
    Obstacle { block: Block { velocity: 300, direction }, x, y }
}

#[test]
fn wrap_sends_an_escaped_coordinate_to_the_far_edge() {
    // Past the positive bound: re-enter at the negative half-extent.
    assert_eq!(wrap_coordinate(771, 750, 20), -750);
    assert_eq!(wrap_coordinate(100000, 750, 20), -750);
    // Past the negative bound: re-enter at the positive half-extent.
    assert_eq!(wrap_coordinate(-771, 750, 20), 750);
    assert_eq!(wrap_coordinate(-100000, 750, 20), 750);
    // On or inside the bounds: untouched.
    assert_eq!(wrap_coordinate(770, 750, 20), 770);
    assert_eq!(wrap_coordinate(-770, 750, 20), -770);
    assert_eq!(wrap_coordinate(0, 750, 20), 0);
    assert_eq!(wrap_coordinate(-620, 600, 20), -620);
    assert_eq!(wrap_coordinate(621, 600, 20), -600);
}

#[test]
fn blocks_move_along_their_direction() {
    let mut blocks = vec![
        obstacle(Direction::Right, 0, 0),
        obstacle(Direction::Left, 0, 0),
        obstacle(Direction::Up, 0, 0),
        obstacle(Direction::Down, 0, 0),
    ];
    move_blocks(&mut blocks, 1000);
    assert_eq!((blocks[0].x, blocks[0].y), (300, 0));
    assert_eq!((blocks[1].x, blocks[1].y), (-300, 0));
    assert_eq!((blocks[2].x, blocks[2].y), (0, 300));
    assert_eq!((blocks[3].x, blocks[3].y), (0, -300));
}

#[test]
fn block_movement_truncates_to_whole_pixels() {
    // 300 px/s for 5 ms covers 1.5 px; integer kinematics keeps 1.
    let mut blocks = vec![obstacle(Direction::Right, 0, 0)];
    move_blocks(&mut blocks, 5);
    assert_eq!(blocks[0].x, 1);
}

#[test]
fn blocks_wrap_on_both_axes() {
    let mut blocks = vec![
        obstacle(Direction::Right, 700, 0),
        obstacle(Direction::Left, -700, 0),
        obstacle(Direction::Up, 0, 500),
        obstacle(Direction::Down, 0, -500),
    ];
    move_blocks(&mut blocks, 1000);
    assert_eq!((blocks[0].x, blocks[0].y), (-750, 0));
    assert_eq!((blocks[1].x, blocks[1].y), (750, 0));
    assert_eq!((blocks[2].x, blocks[2].y), (0, -600));
    assert_eq!((blocks[3].x, blocks[3].y), (0, 600));
}

#[test]
fn starting_burst_takes_the_first_free_slots() {
    let mut slots = create_spawn_locations();
    let events = spawn_starting_block(&slots, 6);
    let indices: Vec<usize> = events.iter().map(|e| e.0).collect();
    assert_eq!(indices, vec![0, 1, 2, 3, 4, 5]);

    slots[1].spawned = true;
    slots[3].spawned = true;
    let events = spawn_starting_block(&slots, 6);
    let indices: Vec<usize> = events.iter().map(|e| e.0).collect();
    assert_eq!(indices, vec![0, 2, 4, 5, 6, 7]);

    let events = spawn_starting_block(&slots, 0);
    assert!(events.is_empty());
}

#[test]
fn instantiation_consumes_a_slot_only_once() {
    let mut slots = create_spawn_locations();
    let mut blocks: Vec<Obstacle> = Vec::new();
    // The same request twice: the second one finds the slot occupied and is
    // silently discarded.
    let events = vec![SpawnBlockEvent(0), SpawnBlockEvent(0)];
    spawn_block(&mut slots, &mut blocks, &events);
    assert_eq!(blocks.len(), 1);
    assert!(slots[0].spawned);
    assert_eq!(blocks[0].x, 750);
    assert_eq!(blocks[0].y, 750);
    assert_eq!(blocks[0].block.velocity, 300);
    assert_eq!(blocks[0].block.direction, slots[0].spawn_direction);
}

#[test]
fn stale_request_is_discarded() {
    let mut slots = create_spawn_locations();
    let mut blocks: Vec<Obstacle> = Vec::new();
    let events = vec![SpawnBlockEvent(99)];
    spawn_block(&mut slots, &mut blocks, &events);
    assert!(blocks.is_empty());
    assert!(slots.iter().all(|s| !s.spawned));
}

#[test]
fn obstacles_never_outnumber_slots() {
    let mut slots = create_spawn_locations();
    let mut blocks: Vec<Obstacle> = Vec::new();
    // Request every slot twice over: the pool bound still holds.
    let mut events: Vec<SpawnBlockEvent> = Vec::new();
    for _ in 0..2 {
        for i in 0..slots.len() {
            events.push(SpawnBlockEvent(i));
        }
    }
    spawn_block(&mut slots, &mut blocks, &events);
    assert_eq!(blocks.len(), 23);
    assert!(blocks.len() <= slots.len());
}

#[test]
fn trickle_is_a_noop_on_an_exhausted_pool() {
    let mut slots = create_spawn_locations();
    for slot in slots.iter_mut() {
        slot.spawned = true;
    }
    assert!(spawn_runtime_blocks(&slots).is_none());
}

#[test]
fn trickle_picks_the_only_free_slot() {
    let mut slots = create_spawn_locations();
    for slot in slots.iter_mut() {
        slot.spawned = true;
    }
    slots[7].spawned = false;
    let event = spawn_runtime_blocks(&slots).expect("a free slot exists");
    assert_eq!(event.0, 7);
}

#[test]
fn trickle_always_picks_a_free_slot() {
    let mut slots = create_spawn_locations();
    for slot in slots.iter_mut().take(20) {
        slot.spawned = true;
    }
    for _ in 0..50 {
        let event = spawn_runtime_blocks(&slots).expect("free slots exist");
        assert!(!slots[event.0].spawned);
    }
}
