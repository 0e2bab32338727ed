use asteroids_core::game::{new_game, tick, GameState};
use asteroids_core::logic::blocks::spawn_starting_block;
use asteroids_core::logic::reset_game::{apply_reset, reset_game, reset_player};
use asteroids_core::InputState;

fn idle() -> InputState {
    InputState { up: false, down: false, left: false, right: false, teleport: false, reset: false }
}

#[test]
fn new_game_seeds_the_startup_burst() {
    let mut state = new_game();
    assert_eq!(state.slots.len(), 23);
    assert_eq!(state.pending.len(), 6);
    assert!(state.blocks.is_empty());
    assert!(state.player.is_some());
    assert_eq!(state.score.value, 0);
    assert!(state.score.active);

    // The first tick instantiates the burst.
    let out = tick(&mut state, idle(), 16, false, false);
    assert!(!out.died);
    assert!(!out.reset_done);
    assert!(out.score_text.is_none());
    assert_eq!(state.blocks.len(), 6);
    assert!(state.pending.is_empty());
    assert_eq!(state.slots.iter().filter(|s| s.spawned).count(), 6);
}

#[test]
fn trickle_tick_adds_one_obstacle() {
    let mut state = new_game();
    // First tick: the startup burst materialises.
    tick(&mut state, idle(), 16, false, false);
    assert_eq!(state.blocks.len(), 6);
    // Trickle tick: one of the still-free slots is consumed.
    let out = tick(&mut state, idle(), 16, true, false);
    assert!(!out.died);
    assert_eq!(state.blocks.len(), 7);
    assert_eq!(state.slots.iter().filter(|s| s.spawned).count(), 7);
}

// Scenario: 20 obstacles pre-seeded at startup, player at the origin, no
// input and no collision; after 5 score-cadence periods (and fewer ticks
// than one trickle period) the score reads 5 and exactly 20 obstacles
// exist.
#[test]
fn scenario_preseeded_field_accrues_score() {
    let mut state = new_game();
    state.pending = spawn_starting_block(&state.slots, 20);
    assert_eq!(state.pending.len(), 20);
    for _ in 0..5 {
        let out = tick(&mut state, idle(), 100, false, true);
        assert!(!out.died);
    }
    assert_eq!(state.score.value, 5);
    assert!(state.score.active);
    assert_eq!(state.blocks.len(), 20);
    assert!(state.player.is_some());
}

// Scenario: the player overlaps an obstacle's bounding box; the player
// entity is removed within the same tick and the score stays inactive
// thereafter regardless of elapsed time.
#[test]
fn scenario_overlap_kills_the_player_and_freezes_the_score() {
    let mut state = new_game();
    // Materialise one obstacle and park it on top of the player.
    state.pending.truncate(1);
    let out = tick(&mut state, idle(), 0, false, false);
    assert!(!out.died);
    assert_eq!(state.blocks.len(), 1);
    state.blocks[0].x = 10;
    state.blocks[0].y = 0;

    let out = tick(&mut state, idle(), 0, false, false);
    assert!(out.died);
    assert!(state.player.is_none());
    assert!(!state.score.active);
    let frozen = state.score.value;

    // Many more ticks, score cadences included: nothing thaws.
    for _ in 0..10 {
        let out = tick(&mut state, idle(), 100, false, true);
        assert!(!out.died);
        assert!(out.score_text.is_none());
        assert!(!state.score.active);
        assert_eq!(state.score.value, frozen);
        assert!(state.player.is_none());
    }
}

// Scenario: a reset after the player's death yields a new player at the
// origin, zero obstacles immediately after the reset, a score of -1, and
// exactly 6 new spawn requests.
#[test]
fn scenario_reset_revives_a_fresh_field() {
    let mut state = new_game();
    state.pending.truncate(1);
    tick(&mut state, idle(), 0, false, false);
    state.blocks[0].x = 0;
    state.blocks[0].y = 5;
    let out = tick(&mut state, idle(), 0, false, false);
    assert!(out.died);
    assert!(state.player.is_none());

    let out = tick(&mut state, InputState { reset: true, ..idle() }, 0, false, false);
    assert!(out.reset_done);
    let player = state.player.expect("reset revives the player");
    assert_eq!((player.x, player.y), (0, 0));
    assert!(state.blocks.is_empty());
    assert_eq!(state.score.value, -1);
    assert!(state.score.active);
    assert_eq!(state.pending.len(), 6);
    assert!(state.slots.iter().all(|s| !s.spawned));
}

#[test]
fn reset_twice_equals_reset_once() {
    let mut state = new_game();
    tick(&mut state, idle(), 100, true, true);
    tick(&mut state, idle(), 100, false, true);

    let mut once: GameState = state.clone();
    apply_reset(&mut once);
    let mut twice = once.clone();
    apply_reset(&mut twice);
    assert_eq!(twice, once);
}

#[test]
fn reset_restores_a_live_player_in_place() {
    let mut state = new_game();
    // Move the player off the origin, then reset: same movement
    // parameters, repositioned to the origin.
    tick(&mut state, InputState { right: true, ..idle() }, 1000, false, false);
    let moved = state.player.expect("player alive");
    assert_ne!(moved.x, 0);
    reset_game(&mut state);
    reset_player(&mut state);
    let revived = state.player.expect("player alive");
    assert_eq!((revived.x, revived.y), (0, 0));
    assert_eq!(revived.player, moved.player);
}

#[test]
fn score_cadence_reports_the_display_string() {
    let mut state = new_game();
    let out = tick(&mut state, idle(), 100, false, true);
    assert_eq!(out.score_text.as_deref(), Some("1"));
    let out = tick(&mut state, idle(), 100, false, false);
    assert!(out.score_text.is_none());
    assert_eq!(state.score.value, 1);
}
