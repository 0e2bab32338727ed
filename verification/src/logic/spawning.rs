//! The spawn registry: the fixed edge positions obstacles may appear from.
//!
//! Each position is a [`SpawnInfo`] slot with a travel direction and an
//! occupancy flag. The registry is computed once from the play-field
//! dimensions and acts as a pool: slots are consumed when an obstacle
//! spawns from them and released only by a game reset.

use vstd::prelude::*;

use crate::{Direction, HALF_WINDOW_HEIGHT, HALF_WINDOW_WIDTH, WINDOWHEIGHT, WINDOWWIDTH};

verus! {

/// Whether a slot's obstacles travel along the x axis or the y axis.
#[derive(Clone, Copy, PartialEq, Eq, Structural, Debug)]
pub enum BlockDirection {
    Horizontal,
    Vertical,
}

/// One fixed spawn position: where an obstacle may appear, which way it
/// will travel, and whether this slot has already been consumed.
#[derive(Clone, Copy, PartialEq, Eq, Debug)]
pub struct SpawnInfo {
    pub spawn_location: (i16, i16),
    pub spawn_direction: Direction,
    pub spawned: bool,
    pub direction: BlockDirection,
}

/// Maps a small integer onto a travel direction; any value outside 1..=3
/// falls through to `Down`.
pub open spec fn spec_get_direction(integer: i8) -> Direction {
    match integer {
        1 => Direction::Left,
        2 => Direction::Right,
        3 => Direction::Up,
        _ => Direction::Down,
    }
}

pub fn get_direction(integer: i8) -> (d: Direction)
    ensures
        d == spec_get_direction(integer),
{
    match integer {
        1 => Direction::Left,
        2 => Direction::Right,
        3 => Direction::Up,
        _ => Direction::Down,
    }
}

/// Half of a window dimension: screen coordinates are centred on the
/// play-field origin, so the edge sits at half the window size.
pub fn get_edge_of_screen(window_size: i32) -> (edge: i16)
    requires
        0 <= window_size,
        window_size / 2 <= i16::MAX as i32,
    ensures
        edge as int == window_size as int / 2,
{
    (window_size / 2) as i16
}

/// A freshly created slot for `position`: unoccupied, placed on the edge
/// that matches its orientation, and directed along that orientation.
///
/// A `Horizontal` slot varies its y coordinate along the right edge and
/// travels left or right; a `Vertical` slot varies its x coordinate along
/// the top edge and travels up or down.
pub open spec fn fresh_slot_at(s: SpawnInfo, position: i16, orientation: BlockDirection) -> bool {
    &&& s.spawned == false
    &&& s.direction == orientation
    &&& match orientation {
        BlockDirection::Horizontal => {
            &&& s.spawn_location == (HALF_WINDOW_WIDTH as i16, position)
            &&& (s.spawn_direction == Direction::Left || s.spawn_direction == Direction::Right)
        },
        BlockDirection::Vertical => {
            &&& s.spawn_location == (position, HALF_WINDOW_HEIGHT as i16)
            &&& (s.spawn_direction == Direction::Up || s.spawn_direction == Direction::Down)
        },
    }
}

/// Builds one unoccupied slot per requested position. The travel direction
/// is drawn at random from the two directions valid for the orientation;
/// everything else about each slot is fixed by its position.
pub fn create_random_blocks(block_positions: Vec<i16>, orientation: BlockDirection) -> (slots:
    Vec<SpawnInfo>)
    ensures
        slots@.len() == block_positions@.len(),
        forall|i: int|
            0 <= i < slots@.len() ==> fresh_slot_at(
                #[trigger] slots@[i],
                block_positions@[i],
                orientation,
            ),
{
    let mut slots: Vec<SpawnInfo> = Vec::new();
    let mut k: usize = 0;
    while k < block_positions.len()
        invariant
            k <= block_positions@.len(),
            slots@.len() == k,
            forall|i: int|
                0 <= i < k ==> fresh_slot_at(#[trigger] slots@[i], block_positions@[i], orientation),
        decreases block_positions@.len() - k,
    {
        let spawn_direction = match orientation {
            BlockDirection::Horizontal => get_direction(crate::rng::gen_range_usize(1, 3) as i8),
            BlockDirection::Vertical => get_direction(crate::rng::gen_range_usize(3, 5) as i8),
        };
        let spawn_location: (i16, i16) = match orientation {
            BlockDirection::Horizontal => (get_edge_of_screen(WINDOWWIDTH), block_positions[k]),
            BlockDirection::Vertical => (block_positions[k], get_edge_of_screen(WINDOWHEIGHT)),
        };
        slots.push(
            SpawnInfo { spawn_location, spawn_direction, spawned: false, direction: orientation },
        );
        k = k + 1;
    }
    slots
}

/// Computes the whole spawn registry from the play-field dimensions.
///
/// Each side fits `window / (gap + block length)` slots, plus one so that a
/// slot sits at the opposite edge. Positions start at the positive edge
/// and step by that same pitch — 45 + 80 pixels — toward the opposite
/// edge, centred on the play-field origin.
pub fn create_spawn_locations() -> (slots: Vec<SpawnInfo>)
    ensures
        slots@.len() == 23,
        forall|i: int|
            0 <= i < 13 ==> fresh_slot_at(
                #[trigger] slots@[i],
                (750 - 125 * i) as i16,
                BlockDirection::Horizontal,
            ),
        forall|i: int|
            13 <= i < 23 ==> fresh_slot_at(
                #[trigger] slots@[i],
                (600 - 125 * (i - 13)) as i16,
                BlockDirection::Vertical,
            ),
{
    let blocks_per_width: i16 = (WINDOWWIDTH as i16) / (45 + 80) + 1;
    let blocks_per_height: i16 = (WINDOWHEIGHT as i16) / (45 + 80) + 1;

    let mut block_width_positions: Vec<i16> = Vec::new();
    let mut x: i16 = 0;
    while x < blocks_per_width
        invariant
            blocks_per_width == 13,
            0 <= x <= blocks_per_width,
            block_width_positions@.len() == x,
            forall|i: int|
                0 <= i < x ==> #[trigger] block_width_positions@[i] as int == 750 - 125 * i,
        decreases blocks_per_width - x,
    {
        // One slot every `gap + block length` = 45 + 80 = 125 pixels.
        block_width_positions.push(
            WINDOWWIDTH as i16 - x * 125 - get_edge_of_screen(WINDOWWIDTH),
        );
        x = x + 1;
    }

    let mut block_height_positions: Vec<i16> = Vec::new();
    let mut y: i16 = 0;
    while y < blocks_per_height
        invariant
            blocks_per_height == 10,
            0 <= y <= blocks_per_height,
            block_height_positions@.len() == y,
            forall|i: int|
                0 <= i < y ==> #[trigger] block_height_positions@[i] as int == 600 - 125 * i,
        decreases blocks_per_height - y,
    {
        // One slot every `gap + block length` = 45 + 80 = 125 pixels.
        block_height_positions.push(
            WINDOWHEIGHT as i16 - y * 125 - get_edge_of_screen(WINDOWHEIGHT),
        );
        y = y + 1;
    }

    let mut slots = create_random_blocks(block_width_positions, BlockDirection::Horizontal);
    let mut vertical = create_random_blocks(block_height_positions, BlockDirection::Vertical);
    slots.append(&mut vertical);
    slots
}

/// How many slots of the registry are currently occupied.
pub open spec fn spec_occupied_count(slots: Seq<SpawnInfo>) -> nat
    decreases slots.len(),
{
    if slots.len() == 0 {
        0
    } else {
        spec_occupied_count(slots.drop_last()) + if slots.last().spawned {
            1nat
        } else {
            0nat
        }
    }
}

/// How many slots of the registry are currently free.
pub open spec fn spec_unoccupied_count(slots: Seq<SpawnInfo>) -> nat
    decreases slots.len(),
{
    if slots.len() == 0 {
        0
    } else {
        spec_unoccupied_count(slots.drop_last()) + if !slots.last().spawned {
            1nat
        } else {
            0nat
        }
    }
}

/// No registry can hold more occupied slots than slots.
pub proof fn lemma_occupied_count_le_len(slots: Seq<SpawnInfo>)
    ensures
        spec_occupied_count(slots) <= slots.len(),
    decreases slots.len(),
{
    if slots.len() > 0 {
        lemma_occupied_count_le_len(slots.drop_last());
    }
}

/// Extending a prefix by one slot grows the occupied count by that slot's
/// occupancy.
pub proof fn lemma_occupied_count_take_step(slots: Seq<SpawnInfo>, k: int)
    requires
        0 <= k < slots.len(),
    ensures
        spec_occupied_count(slots.take(k + 1)) == spec_occupied_count(slots.take(k))
            + if slots[k].spawned {
            1nat
        } else {
            0nat
        },
{
    assert(slots.take(k + 1).drop_last() =~= slots.take(k));
    assert(slots.take(k + 1).last() == slots[k]);
}

/// Extending a prefix by one slot grows the free count by that slot's
/// freeness.
pub proof fn lemma_unoccupied_count_take_step(slots: Seq<SpawnInfo>, k: int)
    requires
        0 <= k < slots.len(),
    ensures
        spec_unoccupied_count(slots.take(k + 1)) == spec_unoccupied_count(slots.take(k)) + if !slots[k].spawned {
            1nat
        } else {
            0nat
        },
{
    assert(slots.take(k + 1).drop_last() =~= slots.take(k));
    assert(slots.take(k + 1).last() == slots[k]);
}

/// Marking a free slot occupied raises the occupied count by exactly one.
pub proof fn lemma_occupied_count_mark(slots: Seq<SpawnInfo>, i: int, marked: SpawnInfo)
    requires
        0 <= i < slots.len(),
        !slots[i].spawned,
        marked.spawned,
    ensures
        spec_occupied_count(slots.update(i, marked)) == spec_occupied_count(slots) + 1,
    decreases slots.len(),
{
    let updated = slots.update(i, marked);
    if i == slots.len() - 1 {
        assert(updated.drop_last() =~= slots.drop_last());
    } else {
        assert(updated.drop_last() =~= slots.drop_last().update(i, marked));
        lemma_occupied_count_mark(slots.drop_last(), i, marked);
    }
}

/// Counts the occupied slots of the registry.
pub fn count_occupied(slots: &Vec<SpawnInfo>) -> (count: usize)
    ensures
        count == spec_occupied_count(slots@),
{
    let mut count: usize = 0;
    let mut k: usize = 0;
    while k < slots.len()
        invariant
            k <= slots@.len(),
            count == spec_occupied_count(slots@.take(k as int)),
            count <= k,
        decreases slots@.len() - k,
    {
        proof {
            lemma_occupied_count_take_step(slots@, k as int);
        }
        if slots[k].spawned {
            count = count + 1;
        }
        k = k + 1;
    }
    proof {
        assert(slots@.take(slots@.len() as int) =~= slots@);
    }
    count
}

/// Counts the free slots of the registry.
pub fn count_unoccupied(slots: &Vec<SpawnInfo>) -> (count: usize)
    ensures
        count == spec_unoccupied_count(slots@),
{
    let mut count: usize = 0;
    let mut k: usize = 0;
    while k < slots.len()
        invariant
            k <= slots@.len(),
            count == spec_unoccupied_count(slots@.take(k as int)),
            count <= k,
        decreases slots@.len() - k,
    {
        proof {
            lemma_unoccupied_count_take_step(slots@, k as int);
        }
        if !slots[k].spawned {
            count = count + 1;
        }
        k = k + 1;
    }
    proof {
        assert(slots@.take(slots@.len() as int) =~= slots@);
    }
    count
}

} // verus!
