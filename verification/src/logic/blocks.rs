//! Obstacle blocks: spawn dispatch, instantiation from registry slots, and
//! kinematic movement with wrap-around at the play-field edges.

use vstd::prelude::*;

use crate::logic::spawning::{
    spec_occupied_count, spec_unoccupied_count, count_unoccupied, lemma_occupied_count_mark,
    lemma_unoccupied_count_take_step, SpawnInfo,
};
use crate::{
    Direction, DELTA_MS_LIMIT, HALF_WINDOW_HEIGHT, HALF_WINDOW_WIDTH, POSITION_LIMIT,
    VELOCITY_LIMIT,
};

verus! {

/// Speed of every obstacle block in pixels per second.
pub const BLOCK_VELOCITY: i32 = 300;

/// Half of an obstacle block's width.
pub const BLOCK_HALF_X: i32 = 20;

/// Half of an obstacle block's height.
pub const BLOCK_HALF_Y: i32 = 20;

/// How many obstacles the startup burst requests.
pub const START_BLOCK_NUMBER: usize = 6;

/// The moving part of an obstacle: its speed and travel direction.
#[derive(Clone, Copy, PartialEq, Eq, Structural, Debug)]
pub struct Block {
    pub velocity: i32,
    pub direction: Direction,
}

/// A live obstacle entity: its block component and its pixel position.
#[derive(Clone, Copy, PartialEq, Eq, Structural, Debug)]
pub struct Obstacle {
    pub block: Block,
    pub x: i32,
    pub y: i32,
}

/// A request to materialise an obstacle from the registry slot at this
/// index. Ephemeral: consumed at most once, cleared every tick.
#[derive(Clone, Copy, PartialEq, Eq, Structural, Debug)]
pub struct SpawnBlockEvent(pub usize);

impl Block {
    pub open spec fn wf(self) -> bool {
        0 <= self.velocity <= VELOCITY_LIMIT
    }
}

impl Obstacle {
    pub open spec fn wf(self) -> bool {
        &&& self.block.wf()
        &&& -POSITION_LIMIT <= self.x <= POSITION_LIMIT
        &&& -POSITION_LIMIT <= self.y <= POSITION_LIMIT
    }
}

/// Toroidal boundary rule for one axis: a coordinate past
/// `half_extent + half_size` re-enters at `-half_extent`, one below
/// `-half_extent - half_size` re-enters at `half_extent`, and anything in
/// between is left alone.
pub open spec fn spec_wrap(p: int, half_extent: int, half_size: int) -> int {
    if p > half_extent + half_size {
        -half_extent
    } else if p < -half_extent - half_size {
        half_extent
    } else {
        p
    }
}

/// Applies the wrap rule to one axis of a position.
pub fn wrap_coordinate(p: i32, half_extent: i32, half_size: i32) -> (r: i32)
    requires
        0 <= half_extent <= POSITION_LIMIT,
        0 <= half_size <= POSITION_LIMIT,
    ensures
        r == spec_wrap(p as int, half_extent as int, half_size as int),
        p > half_extent + half_size ==> r == -half_extent,
        p < -half_extent - half_size ==> r == half_extent,
        -half_extent - half_size <= p <= half_extent + half_size ==> r == p,
        -half_extent - half_size <= r <= half_extent + half_size,
{
    if p > half_extent + half_size {
        -half_extent
    } else if p < -half_extent - half_size {
        half_extent
    } else {
        p
    }
}

/// How many pixels an entity with this velocity covers in `delta_ms`
/// milliseconds.
pub open spec fn spec_step_distance(velocity: int, delta_ms: int) -> int {
    velocity * delta_ms / 1000
}

/// Where an obstacle stands after one tick of `delta_ms` milliseconds: it
/// advances along its travel direction and then wraps on both axes
/// independently.
pub open spec fn spec_moved_obstacle(b: Obstacle, delta_ms: int) -> Obstacle {
    let d = spec_step_distance(b.block.velocity as int, delta_ms);
    let moved_x = match b.block.direction {
        Direction::Left => b.x - d,
        Direction::Right => b.x + d,
        _ => b.x as int,
    };
    let moved_y = match b.block.direction {
        Direction::Up => b.y + d,
        Direction::Down => b.y - d,
        _ => b.y as int,
    };
    Obstacle {
        block: b.block,
        x: spec_wrap(moved_x, HALF_WINDOW_WIDTH as int, BLOCK_HALF_X as int) as i32,
        y: spec_wrap(moved_y, HALF_WINDOW_HEIGHT as int, BLOCK_HALF_Y as int) as i32,
    }
}

/// Moves every obstacle by its own velocity and wraps it at the play-field
/// edges. Runs once per tick.
pub fn move_blocks(blocks: &mut Vec<Obstacle>, delta_ms: u32)
    requires
        delta_ms <= DELTA_MS_LIMIT,
        forall|i: int| 0 <= i < old(blocks)@.len() ==> (#[trigger] old(blocks)@[i]).wf(),
    ensures
        final(blocks)@.len() == old(blocks)@.len(),
        forall|i: int|
            0 <= i < final(blocks)@.len() ==> #[trigger] final(blocks)@[i] == spec_moved_obstacle(
                old(blocks)@[i],
                delta_ms as int,
            ),
        forall|i: int| 0 <= i < final(blocks)@.len() ==> (#[trigger] final(blocks)@[i]).wf(),
{
    let mut k: usize = 0;
    while k < blocks.len()
        invariant
            k <= blocks@.len(),
            blocks@.len() == old(blocks)@.len(),
            delta_ms <= DELTA_MS_LIMIT,
            forall|i: int| k <= i < blocks@.len() ==> #[trigger] blocks@[i] == old(blocks)@[i],
            forall|i: int| 0 <= i < blocks@.len() ==> (#[trigger] old(blocks)@[i]).wf(),
            forall|i: int|
                0 <= i < k ==> #[trigger] blocks@[i] == spec_moved_obstacle(
                    old(blocks)@[i],
                    delta_ms as int,
                ),
            forall|i: int| 0 <= i < k ==> (#[trigger] blocks@[i]).wf(),
        decreases blocks@.len() - k,
    {
        let b = blocks[k];
        assert(b.block.velocity * delta_ms <= VELOCITY_LIMIT * DELTA_MS_LIMIT)
            by (nonlinear_arith)
            requires
                0 <= b.block.velocity <= VELOCITY_LIMIT,
                0 <= delta_ms <= DELTA_MS_LIMIT,
        ;
        assert(0 <= b.block.velocity * delta_ms) by (nonlinear_arith)
            requires
                0 <= b.block.velocity,
                0 <= delta_ms,
        ;
        let d: i32 = b.block.velocity * (delta_ms as i32) / 1000;
        let moved_x: i32 = match b.block.direction {
            Direction::Left => b.x - d,
            Direction::Right => b.x + d,
            _ => b.x,
        };
        let moved_y: i32 = match b.block.direction {
            Direction::Up => b.y + d,
            Direction::Down => b.y - d,
            _ => b.y,
        };
        let x = wrap_coordinate(moved_x, HALF_WINDOW_WIDTH, BLOCK_HALF_X);
        let y = wrap_coordinate(moved_y, HALF_WINDOW_HEIGHT, BLOCK_HALF_Y);
        blocks.set(k, Obstacle { block: b.block, x, y });
        k = k + 1;
    }
}

/// The first spawn requests owed to the free slots of the registry: walking
/// the registry from slot `k` on, every free slot gets one request, until
/// `n` requests have been issued.
pub open spec fn spec_first_unoccupied(slots: Seq<SpawnInfo>, k: int, n: int) -> Seq<
    SpawnBlockEvent,
>
    decreases slots.len() - k,
{
    if k < 0 || k >= slots.len() || n <= 0 {
        Seq::empty()
    } else if !slots[k].spawned {
        seq![SpawnBlockEvent(k as usize)] + spec_first_unoccupied(slots, k + 1, n - 1)
    } else {
        spec_first_unoccupied(slots, k + 1, n)
    }
}

/// Startup burst of the spawn dispatcher: requests one obstacle from each
/// of the first `block_number` free slots of the registry.
pub fn spawn_starting_block(slots: &Vec<SpawnInfo>, block_number: usize) -> (events: Vec<
    SpawnBlockEvent,
>)
    ensures
        events@ == spec_first_unoccupied(slots@, 0, block_number as int),
{
    let mut events: Vec<SpawnBlockEvent> = Vec::new();
    let mut k: usize = 0;
    while k < slots.len() && events.len() < block_number
        invariant
            0 <= k <= slots@.len(),
            events@.len() <= block_number,
            spec_first_unoccupied(slots@, 0, block_number as int) =~= events@
                + spec_first_unoccupied(slots@, k as int, block_number - events@.len()),
        decreases slots@.len() - k,
    {
        if !slots[k].spawned {
            proof {
                assert(events@ + spec_first_unoccupied(
                    slots@,
                    k as int,
                    block_number - events@.len(),
                ) =~= events@.push(SpawnBlockEvent(k)) + spec_first_unoccupied(
                    slots@,
                    k as int + 1,
                    block_number - (events@.len() + 1),
                ));
            }
            events.push(SpawnBlockEvent(k));
        }
        k = k + 1;
    }
    proof {
        assert(spec_first_unoccupied(slots@, k as int, block_number - events@.len())
            =~= Seq::<SpawnBlockEvent>::empty());
        assert(events@ + Seq::<SpawnBlockEvent>::empty() =~= events@);
    }
    events
}

/// Runtime trickle of the spawn dispatcher: picks one currently free slot
/// of the registry, uniformly at random, and requests an obstacle from it.
/// When the pool is exhausted there is nothing to pick and no request is
/// made.
pub fn spawn_runtime_blocks(slots: &Vec<SpawnInfo>) -> (event: Option<SpawnBlockEvent>)
    ensures
        event is Some <==> spec_unoccupied_count(slots@) > 0,
        match event {
            Some(e) => e.0 < slots@.len() && !slots@[e.0 as int].spawned,
            None => true,
        },
{
    let total = count_unoccupied(slots);
    if total == 0 {
        return None;
    }
    let chosen = crate::rng::gen_range_usize(0, total);
    let mut seen: usize = 0;
    let mut k: usize = 0;
    while k < slots.len()
        invariant
            0 <= k <= slots@.len(),
            seen == spec_unoccupied_count(slots@.take(k as int)),
            seen <= chosen,
            chosen < spec_unoccupied_count(slots@),
        decreases slots@.len() - k,
    {
        proof {
            lemma_unoccupied_count_take_step(slots@, k as int);
        }
        if !slots[k].spawned {
            if seen == chosen {
                return Some(SpawnBlockEvent(k));
            }
            seen = seen + 1;
        }
        k = k + 1;
    }
    proof {
        assert(slots@.take(slots@.len() as int) =~= slots@);
        assert(false);
    }
    None
}

/// The obstacle an instantiated spawn request yields: it starts at the
/// slot's location, travels in the slot's direction, and moves at the
/// fixed block velocity.
pub open spec fn spec_new_obstacle(slot: SpawnInfo) -> Obstacle {
    Obstacle {
        block: Block { velocity: BLOCK_VELOCITY, direction: slot.spawn_direction },
        x: slot.spawn_location.0 as i32,
        y: slot.spawn_location.1 as i32,
    }
}

/// The slot after its spawn request has been consumed.
pub open spec fn spec_mark_spawned(s: SpawnInfo) -> SpawnInfo {
    SpawnInfo { spawned: true, ..s }
}

/// One spawn request applied to the registry and the obstacle field. A
/// stale request — the slot index is out of range or the slot is already
/// occupied — is silently discarded; a fresh one marks its slot occupied
/// and appends the new obstacle.
pub open spec fn spec_apply_spawn(
    slots: Seq<SpawnInfo>,
    blocks: Seq<Obstacle>,
    e: SpawnBlockEvent,
) -> (Seq<SpawnInfo>, Seq<Obstacle>) {
    if e.0 < slots.len() && !slots[e.0 as int].spawned {
        (
            slots.update(e.0 as int, spec_mark_spawned(slots[e.0 as int])),
            blocks.push(spec_new_obstacle(slots[e.0 as int])),
        )
    } else {
        (slots, blocks)
    }
}

/// A queue of spawn requests applied in order.
pub open spec fn spec_apply_spawns(
    slots: Seq<SpawnInfo>,
    blocks: Seq<Obstacle>,
    events: Seq<SpawnBlockEvent>,
) -> (Seq<SpawnInfo>, Seq<Obstacle>)
    decreases events.len(),
{
    if events.len() == 0 {
        (slots, blocks)
    } else {
        let applied = spec_apply_spawn(slots, blocks, events[0]);
        spec_apply_spawns(applied.0, applied.1, events.drop_first())
    }
}

/// The idempotent guard: a spawn request that references an occupied slot,
/// or no slot at all, changes nothing — neither the registry nor the
/// obstacle field. Together with occupancy only ever rising between
/// resets, at most one obstacle is ever created from each slot before the
/// next reset.
pub proof fn lemma_stale_request_discarded(
    slots: Seq<SpawnInfo>,
    blocks: Seq<Obstacle>,
    e: SpawnBlockEvent,
)
    requires
        e.0 >= slots.len() || slots[e.0 as int].spawned,
    ensures
        spec_apply_spawn(slots, blocks, e) == (slots, blocks),
{
}

/// Applying one more request after a queue equals applying the queue with
/// that request appended.
pub proof fn lemma_apply_spawns_push(
    slots: Seq<SpawnInfo>,
    blocks: Seq<Obstacle>,
    events: Seq<SpawnBlockEvent>,
    e: SpawnBlockEvent,
)
    ensures
        spec_apply_spawns(slots, blocks, events.push(e)) == {
            let applied = spec_apply_spawns(slots, blocks, events);
            spec_apply_spawn(applied.0, applied.1, e)
        },
    decreases events.len(),
{
    if events.len() == 0 {
        assert(events.push(e).drop_first() =~= Seq::<SpawnBlockEvent>::empty());
        assert(events.push(e)[0] == e);
        let applied = spec_apply_spawn(slots, blocks, e);
        assert(spec_apply_spawns(applied.0, applied.1, Seq::<SpawnBlockEvent>::empty()) == (
            applied.0,
            applied.1,
        ));
        assert(spec_apply_spawns(slots, blocks, events) == (slots, blocks));
    } else {
        assert(events.push(e)[0] == events[0]);
        let applied = spec_apply_spawn(slots, blocks, events[0]);
        assert(events.push(e).drop_first() =~= events.drop_first().push(e));
        lemma_apply_spawns_push(applied.0, applied.1, events.drop_first(), e);
        assert(spec_apply_spawns(slots, blocks, events.push(e)) == spec_apply_spawns(
            applied.0,
            applied.1,
            events.drop_first().push(e),
        ));
        assert(spec_apply_spawns(slots, blocks, events) == spec_apply_spawns(
            applied.0,
            applied.1,
            events.drop_first(),
        ));
    }
}

/// What one spawn request preserves: the registry's size, occupancy only
/// ever rising, the obstacle count staying within the occupied count, and
/// the well-formedness of every obstacle.
pub proof fn lemma_apply_spawn_invariants(
    slots: Seq<SpawnInfo>,
    blocks: Seq<Obstacle>,
    e: SpawnBlockEvent,
)
    requires
        blocks.len() <= spec_occupied_count(slots),
        forall|i: int| 0 <= i < blocks.len() ==> (#[trigger] blocks[i]).wf(),
    ensures
        ({
            let applied = spec_apply_spawn(slots, blocks, e);
            &&& applied.0.len() == slots.len()
            &&& applied.1.len() <= spec_occupied_count(applied.0)
            &&& forall|i: int| 0 <= i < applied.1.len() ==> (#[trigger] applied.1[i]).wf()
            &&& forall|i: int|
                0 <= i < slots.len() && slots[i].spawned ==> (#[trigger] applied.0[i]).spawned
            &&& forall|i: int|
                0 <= i < slots.len() && !(#[trigger] applied.0[i]).spawned ==> applied.0[i]
                    == slots[i]
        }),
{
    if e.0 < slots.len() && !slots[e.0 as int].spawned {
        lemma_occupied_count_mark(slots, e.0 as int, spec_mark_spawned(slots[e.0 as int]));
        let fresh = spec_new_obstacle(slots[e.0 as int]);
        assert(-POSITION_LIMIT <= fresh.x <= POSITION_LIMIT);
        assert(fresh.wf());
    }
}

/// What a whole queue of spawn requests preserves, by induction over the
/// queue.
pub proof fn lemma_apply_spawns_invariants(
    slots: Seq<SpawnInfo>,
    blocks: Seq<Obstacle>,
    events: Seq<SpawnBlockEvent>,
)
    requires
        blocks.len() <= spec_occupied_count(slots),
        forall|i: int| 0 <= i < blocks.len() ==> (#[trigger] blocks[i]).wf(),
    ensures
        ({
            let applied = spec_apply_spawns(slots, blocks, events);
            &&& applied.0.len() == slots.len()
            &&& applied.1.len() <= spec_occupied_count(applied.0)
            &&& forall|i: int| 0 <= i < applied.1.len() ==> (#[trigger] applied.1[i]).wf()
            &&& forall|i: int|
                0 <= i < slots.len() && slots[i].spawned ==> (#[trigger] applied.0[i]).spawned
        }),
    decreases events.len(),
{
    if events.len() > 0 {
        lemma_apply_spawn_invariants(slots, blocks, events[0]);
        let applied = spec_apply_spawn(slots, blocks, events[0]);
        lemma_apply_spawns_invariants(applied.0, applied.1, events.drop_first());
    }
}

/// Obstacle instantiator: consumes every pending spawn request in order.
/// For each, the idempotent guard skips a slot that is out of range or
/// already occupied; otherwise the slot is marked occupied and an obstacle
/// is created at the slot's location with the slot's direction and the
/// fixed block velocity. This is the only path that creates obstacles.
pub fn spawn_block(
    slots: &mut Vec<SpawnInfo>,
    blocks: &mut Vec<Obstacle>,
    events: &Vec<SpawnBlockEvent>,
)
    ensures
        (final(slots)@, final(blocks)@) == spec_apply_spawns(old(slots)@, old(blocks)@, events@),
{
    let ghost slots0 = slots@;
    let ghost blocks0 = blocks@;
    let mut j: usize = 0;
    while j < events.len()
        invariant
            j <= events@.len(),
            (slots@, blocks@) == spec_apply_spawns(slots0, blocks0, events@.take(j as int)),
        decreases events@.len() - j,
    {
        proof {
            lemma_apply_spawns_push(slots0, blocks0, events@.take(j as int), events@[j as int]);
            assert(events@.take(j as int).push(events@[j as int]) =~= events@.take(j as int + 1));
        }
        let e = events[j];
        let index = e.0;
        if index < slots.len() && !slots[index].spawned {
            let slot = slots[index];
            slots.set(index, SpawnInfo { spawned: true, ..slot });
            blocks.push(
                Obstacle {
                    block: Block { velocity: BLOCK_VELOCITY, direction: slot.spawn_direction },
                    x: slot.spawn_location.0 as i32,
                    y: slot.spawn_location.1 as i32,
                },
            );
        }
        j = j + 1;
    }
    proof {
        assert(events@.take(events@.len() as int) =~= events@);
    }
}

} // verus!
