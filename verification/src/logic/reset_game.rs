//! The reset transaction. On a reset edge, in one logical transaction:
//! every obstacle is destroyed, every registry slot is released, the score
//! restarts, the player is revived at the origin, and a fixed number of
//! spawn requests re-seeds the obstacle field.

use vstd::prelude::*;

use crate::game::GameState;
use crate::graphics::score::Score;
use crate::logic::blocks::SpawnBlockEvent;
use crate::logic::player::{spawn_player, spec_default_player, PlayerEntity};
use crate::logic::spawning::SpawnInfo;

verus! {

/// How many spawn requests a reset re-seeds the field with.
pub const RESET_BLOCK_NUMBER: usize = 6;

/// A slot with its occupancy released.
pub open spec fn spec_cleared_slot(s: SpawnInfo) -> SpawnInfo {
    SpawnInfo { spawned: false, ..s }
}

/// The spawn requests a reset emits: one for each of the first
/// `RESET_BLOCK_NUMBER` slots of the registry, all of which the same
/// transaction has just released.
pub open spec fn spec_reset_pending(len: nat) -> Seq<SpawnBlockEvent> {
    Seq::new(
        if len < RESET_BLOCK_NUMBER as nat {
            len
        } else {
            RESET_BLOCK_NUMBER as nat
        },
        |i: int| SpawnBlockEvent(i as usize),
    )
}

/// What a completed reset leaves behind, relative to the state it found:
/// the registry released slot for slot, no obstacles, the score at -1 and
/// accruing, exactly one player at the origin (keeping its movement
/// parameters when it was alive, default ones otherwise), and the re-seed
/// requests pending.
pub open spec fn spec_reset_rel(pre: GameState, post: GameState) -> bool {
    &&& post.slots@.len() == pre.slots@.len()
    &&& (forall|i: int|
        0 <= i < pre.slots@.len() ==> post.slots@[i] == spec_cleared_slot(#[trigger] pre.slots@[i]))
    &&& post.blocks@.len() == 0
    &&& post.score == (Score { value: -1i32, active: true })
    &&& post.player == Some(
        PlayerEntity {
            player: match pre.player {
                Some(p) => p.player,
                None => spec_default_player().player,
            },
            x: 0,
            y: 0,
        },
    )
    &&& post.pending@ == spec_reset_pending(pre.slots@.len() as nat)
}

/// Destroys every obstacle, releases every registry slot, restarts the
/// score at -1 (so the next accrual tick displays 0), and emits the
/// re-seed spawn requests. The player is left to [`reset_player`].
pub fn reset_game(state: &mut GameState)
    ensures
        final(state).slots@.len() == old(state).slots@.len(),
        forall|i: int|
            0 <= i < old(state).slots@.len() ==> final(state).slots@[i] == spec_cleared_slot(
                #[trigger] old(state).slots@[i],
            ),
        final(state).blocks@.len() == 0,
        final(state).score == (Score { value: -1i32, active: true }),
        final(state).pending@ == spec_reset_pending(old(state).slots@.len() as nat),
        final(state).player == old(state).player,
{
    state.blocks = Vec::new();
    state.pending = Vec::new();

    let mut k: usize = 0;
    while k < state.slots.len()
        invariant
            k <= state.slots@.len(),
            state.slots@.len() == old(state).slots@.len(),
            forall|i: int|
                0 <= i < k ==> state.slots@[i] == spec_cleared_slot(#[trigger] old(state).slots@[i]),
            forall|i: int| k <= i < state.slots@.len() ==> state.slots@[i] == old(state).slots@[i],
            state.pending@ =~= spec_reset_pending(
                if k < RESET_BLOCK_NUMBER {
                    k as nat
                } else {
                    RESET_BLOCK_NUMBER as nat
                },
            ),
            state.blocks@.len() == 0,
            state.player == old(state).player,
        decreases state.slots@.len() - k,
    {
        let slot = state.slots[k];
        state.slots.set(k, SpawnInfo { spawned: false, ..slot });
        if k < RESET_BLOCK_NUMBER {
            state.pending.push(SpawnBlockEvent(k));
            proof {
                assert(state.pending@ =~= spec_reset_pending(
                    if k + 1 < RESET_BLOCK_NUMBER {
                        (k + 1) as nat
                    } else {
                        RESET_BLOCK_NUMBER as nat
                    },
                ));
            }
        }
        k = k + 1;
    }
    proof {
        assert(state.pending@ =~= spec_reset_pending(old(state).slots@.len() as nat));
    }
    state.score = Score { value: -1, active: true };
}

/// Revives the player: an existing player is repositioned to the origin
/// and keeps its movement parameters; a missing one is recreated with the
/// defaults.
pub fn reset_player(state: &mut GameState)
    ensures
        final(state).player == Some(
            PlayerEntity {
                player: match old(state).player {
                    Some(p) => p.player,
                    None => spec_default_player().player,
                },
                x: 0,
                y: 0,
            },
        ),
        final(state).slots == old(state).slots,
        final(state).blocks == old(state).blocks,
        final(state).score == old(state).score,
        final(state).pending == old(state).pending,
{
    let current = state.player;
    match current {
        Some(p) => {
            state.player = Some(PlayerEntity { player: p.player, x: 0, y: 0 });
        },
        None => {
            state.player = Some(spawn_player());
        },
    }
}

/// The whole reset transaction: obstacles, registry, score, pending
/// requests, and the player, restored as one consistent snapshot.
pub fn apply_reset(state: &mut GameState)
    requires
        match old(state).player {
            Some(p) => p.wf(),
            None => true,
        },
    ensures
        spec_reset_rel(*old(state), *final(state)),
        final(state).wf(),
{
    reset_game(state);
    reset_player(state);
}

/// Resetting twice in a row, with no ticks between, leaves the same
/// observable state as resetting once: releasing a released registry is a
/// no-op, and the revived player is already at the origin.
pub proof fn lemma_reset_idempotent(s0: GameState, s1: GameState, s2: GameState)
    requires
        spec_reset_rel(s0, s1),
        spec_reset_rel(s1, s2),
    ensures
        s2.slots@ == s1.slots@,
        s2.blocks@ == s1.blocks@,
        s2.player == s1.player,
        s2.score == s1.score,
        s2.pending@ == s1.pending@,
{
    assert forall|i: int| 0 <= i < s1.slots@.len() implies s2.slots@[i] == s1.slots@[i] by {
        assert(s1.slots@[i] == spec_cleared_slot(s0.slots@[i]));
        assert(s2.slots@[i] == spec_cleared_slot(s1.slots@[i]));
    };
    assert(s2.slots@ =~= s1.slots@);
    assert(s2.blocks@ =~= s1.blocks@);
}

} // verus!
