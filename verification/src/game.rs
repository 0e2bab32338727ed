//! The whole game state and the per-tick update that runs every system in
//! dependency order: spawn dispatch, obstacle instantiation, kinematics,
//! collision, score accrual, and finally a requested reset.

use vstd::prelude::*;

use crate::graphics::score::{render_score, score_update_system, spec_decimal_digits, Score};
use crate::logic::blocks::{
    lemma_apply_spawns_invariants, move_blocks, spawn_block, spawn_runtime_blocks,
    spawn_starting_block, spec_apply_spawns, spec_first_unoccupied, spec_moved_obstacle,
    Obstacle, SpawnBlockEvent, START_BLOCK_NUMBER,
};
use crate::logic::player::{
    move_player, player_collision_system, spawn_player, spec_default_player, spec_moved_player,
    spec_overlaps, PlayerEntity,
};
use crate::logic::reset_game::{
    apply_reset, spec_cleared_slot, spec_reset_pending, spec_reset_rel,
};
use crate::logic::spawning::{
    create_spawn_locations, fresh_slot_at, spec_occupied_count, spec_unoccupied_count,
    lemma_occupied_count_le_len, BlockDirection, SpawnInfo,
};
use crate::{InputState, DELTA_MS_LIMIT};

verus! {

/// Everything the simulation owns: the spawn registry, the live obstacle
/// field, the optional player, the score, and the spawn requests pending
/// for the next instantiation pass.
#[derive(Clone, PartialEq, Debug)]
pub struct GameState {
    pub slots: Vec<SpawnInfo>,
    pub blocks: Vec<Obstacle>,
    pub player: Option<PlayerEntity>,
    pub score: Score,
    pub pending: Vec<SpawnBlockEvent>,
}

impl GameState {
    /// The session invariant: the obstacle field never outgrows the
    /// occupied part of the registry, every entity is well formed, and the
    /// score never falls below -1.
    pub open spec fn wf(self) -> bool {
        &&& self.blocks@.len() <= spec_occupied_count(self.slots@)
        &&& (forall|i: int| 0 <= i < self.blocks@.len() ==> (#[trigger] self.blocks@[i]).wf())
        &&& match self.player {
            Some(p) => p.wf(),
            None => true,
        }
        &&& self.score.wf()
    }
}

/// What the simulation reports back from one tick: whether the player died
/// on it, whether a reset completed on it, and the score display string
/// when the accrual cadence fired.
#[derive(Clone, PartialEq, Debug)]
pub struct TickOutcome {
    pub died: bool,
    pub reset_done: bool,
    pub score_text: Option<String>,
}

/// Assembles a fresh session: the registry computed from the play-field
/// dimensions, no obstacles, the player at the origin, the score at zero
/// and accruing, and the startup burst of spawn requests pending.
pub fn new_game() -> (state: GameState)
    ensures
        state.wf(),
        state.slots@.len() == 23,
        forall|i: int|
            0 <= i < 13 ==> fresh_slot_at(
                #[trigger] state.slots@[i],
                (750 - 125 * i) as i16,
                BlockDirection::Horizontal,
            ),
        forall|i: int|
            13 <= i < 23 ==> fresh_slot_at(
                #[trigger] state.slots@[i],
                (600 - 125 * (i - 13)) as i16,
                BlockDirection::Vertical,
            ),
        forall|i: int| 0 <= i < 23 ==> !(#[trigger] state.slots@[i]).spawned,
        state.blocks@.len() == 0,
        state.player == Some(spec_default_player()),
        state.score == (Score { value: 0, active: true }),
        state.pending@ == spec_first_unoccupied(state.slots@, 0, START_BLOCK_NUMBER as int),
{
    let slots = create_spawn_locations();
    let pending = spawn_starting_block(&slots, START_BLOCK_NUMBER);
    GameState {
        slots,
        blocks: Vec::new(),
        player: Some(spawn_player()),
        score: render_score(),
        pending,
    }
}

/// What the spawn dispatcher may turn the pending queue into on one tick.
/// When the trickle cadence fired and a free slot exists, some free slot's
/// request is appended — which one is the dispatcher's random choice;
/// otherwise (cadence not due, or pool exhausted) the queue is unchanged.
pub open spec fn spec_dispatch_ok(
    slots: Seq<SpawnInfo>,
    pending: Seq<SpawnBlockEvent>,
    trickle_due: bool,
    queue: Seq<SpawnBlockEvent>,
) -> bool {
    if trickle_due && spec_unoccupied_count(slots) > 0 {
        exists|e: SpawnBlockEvent|
            #![trigger pending.push(e)]
            e.0 < slots.len() && !slots[e.0 as int].spawned && queue == pending.push(e)
    } else {
        queue == pending
    }
}

/// One tick's effect, given the queue the dispatcher produced: the queue
/// is instantiated in order, every entity moves and wraps, the collision
/// system may destroy the player and freeze the score, the score accrues
/// on its cadence while active, and a requested reset finally restores a
/// fresh field as one snapshot.
pub open spec fn spec_tick_with_queue(
    pre: GameState,
    input: InputState,
    delta_ms: int,
    score_due: bool,
    queue: Seq<SpawnBlockEvent>,
    post: GameState,
    out: TickOutcome,
) -> bool {
    let applied = spec_apply_spawns(pre.slots@, pre.blocks@, queue);
    let slots1 = applied.0;
    let blocks1 = applied.1.map_values(|b: Obstacle| spec_moved_obstacle(b, delta_ms));
    let player1 = match pre.player {
        Some(p) => Some(spec_moved_player(p, input, delta_ms)),
        None => None::<PlayerEntity>,
    };
    let hit = match player1 {
        Some(p) => exists|i: int| 0 <= i < blocks1.len() && spec_overlaps(p, #[trigger] blocks1[i]),
        None => false,
    };
    let player2 = if hit {
        None
    } else {
        player1
    };
    let score1 = if hit {
        Score { value: pre.score.value, active: false }
    } else {
        pre.score
    };
    let score2 = if score_due && score1.active {
        Score { value: (score1.value + 1) as i32, active: true }
    } else {
        score1
    };
    &&& out.died == hit
    &&& out.reset_done == input.reset
    &&& match out.score_text {
        Some(t) => score_due && score1.active && t@ == spec_decimal_digits(
            (score1.value + 1) as nat,
        ),
        None => !(score_due && score1.active),
    }
    &&& if input.reset {
        &&& post.slots@.len() == slots1.len()
        &&& (forall|i: int|
            0 <= i < slots1.len() ==> post.slots@[i] == spec_cleared_slot(#[trigger] slots1[i]))
        &&& post.blocks@.len() == 0
        &&& post.score == (Score { value: -1i32, active: true })
        &&& post.player == Some(
            PlayerEntity {
                player: match player2 {
                    Some(p) => p.player,
                    None => spec_default_player().player,
                },
                x: 0,
                y: 0,
            },
        )
        &&& post.pending@ == spec_reset_pending(slots1.len() as nat)
    } else {
        &&& post.slots@ == slots1
        &&& post.blocks@ == blocks1
        &&& post.player == player2
        &&& post.score == score2
        &&& post.pending@ == Seq::<SpawnBlockEvent>::empty()
    }
}

/// The full relation between the states before and after one tick; the
/// dispatcher's random slot choice is existentially quantified.
pub open spec fn spec_tick_rel(
    pre: GameState,
    input: InputState,
    delta_ms: int,
    trickle_due: bool,
    score_due: bool,
    post: GameState,
    out: TickOutcome,
) -> bool {
    exists|queue: Seq<SpawnBlockEvent>|
        #[trigger] spec_dispatch_ok(pre.slots@, pre.pending@, trickle_due, queue)
            && spec_tick_with_queue(pre, input, delta_ms, score_due, queue, post, out)
}

/// Advances the simulation by one tick, running every system in dependency
/// order: spawn dispatch, instantiation of the pending requests, movement
/// with wrap-around, collision, score accrual, and finally a requested
/// reset — so that every system observes its pre-reset state.
///
/// `trickle_due` and `score_due` report whether the respective fixed-period
/// cadence elapsed on this tick; `delta_ms` is the tick's wall-clock length.
pub fn tick(
    state: &mut GameState,
    input: InputState,
    delta_ms: u32,
    trickle_due: bool,
    score_due: bool,
) -> (out: TickOutcome)
    requires
        old(state).wf(),
        delta_ms <= DELTA_MS_LIMIT,
        old(state).score.active ==> old(state).score.value < i32::MAX,
    ensures
        final(state).wf(),
        final(state).score.value <= old(state).score.value + 1,
        spec_tick_rel(
            *old(state),
            input,
            delta_ms as int,
            trickle_due,
            score_due,
            *final(state),
            out,
        ),
{
    let ghost pre = *state;

    // Spawn dispatcher: the runtime trickle.
    if trickle_due {
        match spawn_runtime_blocks(&state.slots) {
            Some(e) => state.pending.push(e),
            None => {},
        }
    }
    let ghost queue = state.pending@;

    // Obstacle instantiator: consume every pending request.
    proof {
        lemma_apply_spawns_invariants(pre.slots@, pre.blocks@, queue);
    }
    spawn_block(&mut state.slots, &mut state.blocks, &state.pending);
    state.pending = Vec::new();

    // Kinematics: move and wrap every entity.
    let ghost slots_spawned = state.slots@;
    let ghost blocks_spawned = state.blocks@;
    move_blocks(&mut state.blocks, delta_ms);
    move_player(&mut state.player, input, delta_ms);
    let ghost blocks_moved = state.blocks@;
    let ghost player_moved = state.player;

    // Collision and death.
    let died = player_collision_system(&mut state.player, &state.blocks, &mut state.score);
    let ghost player_collided = state.player;
    let ghost score_collided = state.score;

    // Score accrual on its cadence.
    let score_text = if score_due {
        score_update_system(&mut state.score)
    } else {
        None
    };
    let ghost score_accrued = state.score;
    let ghost mid = *state;

    // Reset, last, so that every system above observed its pre-reset state.
    if input.reset {
        apply_reset(state);
    }

    let out = TickOutcome { died, reset_done: input.reset, score_text };
    proof {
        let applied = spec_apply_spawns(pre.slots@, pre.blocks@, queue);
        let slots1 = applied.0;
        let blocks1 = applied.1.map_values(|b: Obstacle| spec_moved_obstacle(b, delta_ms as int));
        let player1 = match pre.player {
            Some(p) => Some(spec_moved_player(p, input, delta_ms as int)),
            None => None::<PlayerEntity>,
        };
        let hit = match player1 {
            Some(p) => exists|i: int|
                0 <= i < blocks1.len() && spec_overlaps(p, #[trigger] blocks1[i]),
            None => false,
        };
        assert((slots_spawned, blocks_spawned) == applied);
        assert(slots_spawned == slots1);
        assert(blocks_spawned == applied.1);
        assert(blocks_moved =~= blocks1);
        assert(player_moved == player1);
        assert(died == hit);
        let score1 = if hit {
            Score { value: pre.score.value, active: false }
        } else {
            pre.score
        };
        assert(score_collided == score1);
        assert(player_collided == (if hit {
            None::<PlayerEntity>
        } else {
            player1
        }));
        let score2 = if score_due && score1.active {
            Score { value: (score1.value + 1) as i32, active: true }
        } else {
            score1
        };
        assert(score_accrued == score2);
        if input.reset {
            assert(spec_reset_rel(mid, *state));
            assert(mid.slots@ == slots1);
        }
        assert(spec_dispatch_ok(pre.slots@, pre.pending@, trickle_due, queue));
        assert(spec_tick_with_queue(pre, input, delta_ms as int, score_due, queue, *state, out));
    }
    out
}

/// The obstacle field can never outgrow the registry: the occupancy
/// invariant bounds the live obstacles by the occupied slots, and there
/// are no more occupied slots than slots.
pub proof fn lemma_pool_bound(state: GameState)
    requires
        state.wf(),
    ensures
        state.blocks@.len() <= state.slots@.len(),
{
    lemma_occupied_count_le_len(state.slots@);
}

/// No slot is consumed twice between two consecutive resets: on any tick
/// without a reset, slot occupancy only ever rises, and a spawn request
/// that references an occupied slot creates nothing — so each slot's flag
/// goes from false to true at most once before the next reset releases it.
pub proof fn lemma_no_double_spawn(
    pre: GameState,
    input: InputState,
    delta_ms: int,
    trickle_due: bool,
    score_due: bool,
    post: GameState,
    out: TickOutcome,
)
    requires
        pre.wf(),
        spec_tick_rel(pre, input, delta_ms, trickle_due, score_due, post, out),
        !input.reset,
    ensures
        post.slots@.len() == pre.slots@.len(),
        forall|i: int|
            0 <= i < pre.slots@.len() && pre.slots@[i].spawned ==> (
            #[trigger] post.slots@[i]).spawned,
{
    let queue = choose|queue: Seq<SpawnBlockEvent>|
        #[trigger] spec_dispatch_ok(pre.slots@, pre.pending@, trickle_due, queue)
            && spec_tick_with_queue(pre, input, delta_ms, score_due, queue, post, out);
    lemma_apply_spawns_invariants(pre.slots@, pre.blocks@, queue);
}

/// Score monotonicity while active: on a tick where the accrual cadence
/// fired, the score was active at tick start, no collision was detected
/// and no reset was requested, the value at tick end is the value at tick
/// start plus one, and the score stays active. (On a tick whose collision
/// kills the player, accrual already stops — that case is the freeze law.)
pub proof fn lemma_score_monotonic(
    pre: GameState,
    input: InputState,
    delta_ms: int,
    trickle_due: bool,
    score_due: bool,
    post: GameState,
    out: TickOutcome,
)
    requires
        spec_tick_rel(pre, input, delta_ms, trickle_due, score_due, post, out),
        !input.reset,
        score_due,
        pre.score.active,
        !out.died,
        pre.score.value < i32::MAX,
    ensures
        post.score.value == pre.score.value + 1,
        post.score.active,
{
    let queue = choose|queue: Seq<SpawnBlockEvent>|
        #[trigger] spec_dispatch_ok(pre.slots@, pre.pending@, trickle_due, queue)
            && spec_tick_with_queue(pre, input, delta_ms, score_due, queue, post, out);
}

/// An inactive score is frozen: any tick without a reset leaves both the
/// value and the inactive flag exactly as they were, however many
/// cadences fire — only the next reset restarts accrual.
pub proof fn lemma_score_frozen(
    pre: GameState,
    input: InputState,
    delta_ms: int,
    trickle_due: bool,
    score_due: bool,
    post: GameState,
    out: TickOutcome,
)
    requires
        spec_tick_rel(pre, input, delta_ms, trickle_due, score_due, post, out),
        !input.reset,
        !pre.score.active,
    ensures
        post.score == pre.score,
{
    let queue = choose|queue: Seq<SpawnBlockEvent>|
        #[trigger] spec_dispatch_ok(pre.slots@, pre.pending@, trickle_due, queue)
            && spec_tick_with_queue(pre, input, delta_ms, score_due, queue, post, out);
}

/// Death freezes the score: on the very tick a collision is detected (and
/// no reset is requested), the player entity is gone, accrual is off, and
/// the value still reads what it read at tick start.
pub proof fn lemma_death_freezes_score(
    pre: GameState,
    input: InputState,
    delta_ms: int,
    trickle_due: bool,
    score_due: bool,
    post: GameState,
    out: TickOutcome,
)
    requires
        spec_tick_rel(pre, input, delta_ms, trickle_due, score_due, post, out),
        !input.reset,
        out.died,
    ensures
        post.player is None,
        post.score.active == false,
        post.score.value == pre.score.value,
{
    let queue = choose|queue: Seq<SpawnBlockEvent>|
        #[trigger] spec_dispatch_ok(pre.slots@, pre.pending@, trickle_due, queue)
            && spec_tick_with_queue(pre, input, delta_ms, score_due, queue, post, out);
}

} // verus!
