use vstd::prelude::*;

use crate::entity::{Entity, Role};
use crate::geometry::Point;

verus! {

/// Nano-units in one thousandth of the base sprite size (16 units).
pub const SPRITE_NANOS_PER_SCALE: i64 = 16_000_000;

/// An axis-aligned bounding box: its center, and its full width and height,
/// in nano-units.
#[derive(Clone, Copy, Debug, PartialEq, Eq, Structural)]
pub struct Aabb {
    pub center: Point,
    pub size: Point,
}

/// A player and an obstacle whose boxes overlap in a frame, as indices into
/// the entity list.
#[derive(Clone, Copy, Debug, PartialEq, Eq, Structural)]
pub struct CollisionEvent {
    pub player: usize,
    pub obstacle: usize,
}

pub open spec fn abs(v: int) -> int {
    if v < 0 {
        -v
    } else {
        v
    }
}

/// The box of an entity: the base sprite size of 16 by 16 units, scaled per
/// axis, centered on the entity.
pub open spec fn box_of(e: Entity) -> Aabb {
    Aabb {
        center: e.position,
        size: Point {
            x: (e.scale.x * SPRITE_NANOS_PER_SCALE) as i64,
            y: (e.scale.y * SPRITE_NANOS_PER_SCALE) as i64,
        },
    }
}

/// Two boxes overlap when, on each axis, the distance between their centers
/// is below the sum of their half sizes (strictly: touching edges do not
/// overlap).
pub open spec fn boxes_overlap(a: Aabb, b: Aabb) -> bool {
    &&& 2 * abs(a.center.x - b.center.x) < a.size.x + b.size.x
    &&& 2 * abs(a.center.y - b.center.y) < a.size.y + b.size.y
}

/// Entity `i` is a player, entity `j` an obstacle, and their boxes overlap.
pub open spec fn hit(es: Seq<Entity>, i: int, j: int) -> bool {
    &&& es[i].is_player()
    &&& es[j].is_obstacle()
    &&& boxes_overlap(box_of(es[i]), box_of(es[j]))
}

/// The events of player `i` against the entities before index `n`, in
/// index order.
pub open spec fn hits_of(es: Seq<Entity>, i: int, n: int) -> Seq<CollisionEvent>
    decreases n,
{
    if n <= 0 {
        seq![]
    } else {
        hits_of(es, i, n - 1) + if hit(es, i, n - 1) {
            seq![CollisionEvent { player: i as usize, obstacle: (n - 1) as usize }]
        } else {
            seq![]
        }
    }
}

/// The events of the players before index `m`, player by player.
pub open spec fn collisions_upto(es: Seq<Entity>, m: int) -> Seq<CollisionEvent>
    decreases m,
{
    if m <= 0 {
        seq![]
    } else {
        collisions_upto(es, m - 1) + hits_of(es, m - 1, es.len() as int)
    }
}

/// Every (player, obstacle) pair that overlaps, ordered by player, then by
/// obstacle.
pub open spec fn collisions(es: Seq<Entity>) -> Seq<CollisionEvent> {
    collisions_upto(es, es.len() as int)
}

proof fn lemma_no_hits_for_non_player(es: Seq<Entity>, i: int, n: int)
    requires
        0 <= i < es.len(),
        !es[i].is_player(),
    ensures
        hits_of(es, i, n) == Seq::<CollisionEvent>::empty(),
    decreases n,
{
    if n > 0 {
        lemma_no_hits_for_non_player(es, i, n - 1);
        assert(hits_of(es, i, n) =~= Seq::<CollisionEvent>::empty());
    }
}

proof fn lemma_hits_of_members(es: Seq<Entity>, i: int, n: int)
    requires
        es.len() <= usize::MAX,
        0 <= i < es.len(),
        0 <= n <= es.len(),
    ensures
        forall|k: int|
            0 <= k < hits_of(es, i, n).len() ==> {
                let ev = #[trigger] hits_of(es, i, n)[k];
                &&& ev.player == i
                &&& 0 <= ev.obstacle < n
                &&& hit(es, i, ev.obstacle as int)
            },
        forall|j: int|
            0 <= j < n && #[trigger] hit(es, i, j) ==> hits_of(es, i, n).contains(
                CollisionEvent { player: i as usize, obstacle: j as usize },
            ),
    decreases n,
{
    if n > 0 {
        lemma_hits_of_members(es, i, n - 1);
        let prev = hits_of(es, i, n - 1);
        let cur = hits_of(es, i, n);
        assert forall|j: int|
            0 <= j < n && #[trigger] hit(es, i, j) implies cur.contains(
                CollisionEvent { player: i as usize, obstacle: j as usize },
            ) by {
            let ev = CollisionEvent { player: i as usize, obstacle: j as usize };
            if j < n - 1 {
                let k = choose|k: int| 0 <= k < prev.len() && prev[k] == ev;
                assert(cur[k] == ev);
            } else {
                assert(cur[prev.len() as int] == ev);
            }
        }
    }
}

/// The events are exactly the overlapping (player, obstacle) pairs: each
/// event names such a pair, and each such pair has its event.
pub proof fn lemma_collisions_are_hits(es: Seq<Entity>)
    requires
        es.len() <= usize::MAX,
    ensures
        forall|k: int|
            0 <= k < collisions(es).len() ==> {
                let ev = #[trigger] collisions(es)[k];
                &&& 0 <= ev.player < es.len()
                &&& 0 <= ev.obstacle < es.len()
                &&& hit(es, ev.player as int, ev.obstacle as int)
            },
        forall|i: int, j: int|
            0 <= i < es.len() && 0 <= j < es.len() && #[trigger] hit(es, i, j)
                ==> collisions(es).contains(
                CollisionEvent { player: i as usize, obstacle: j as usize },
            ),
{
    lemma_collisions_upto_members(es, es.len() as int);
}

proof fn lemma_collisions_upto_members(es: Seq<Entity>, m: int)
    requires
        es.len() <= usize::MAX,
        0 <= m <= es.len(),
    ensures
        forall|k: int|
            0 <= k < collisions_upto(es, m).len() ==> {
                let ev = #[trigger] collisions_upto(es, m)[k];
                &&& 0 <= ev.player < m
                &&& 0 <= ev.obstacle < es.len()
                &&& hit(es, ev.player as int, ev.obstacle as int)
            },
        forall|i: int, j: int|
            0 <= i < m && 0 <= j < es.len() && #[trigger] hit(es, i, j)
                ==> collisions_upto(es, m).contains(
                CollisionEvent { player: i as usize, obstacle: j as usize },
            ),
    decreases m,
{
    if m > 0 {
        lemma_collisions_upto_members(es, m - 1);
        lemma_hits_of_members(es, m - 1, es.len() as int);
        let prev = collisions_upto(es, m - 1);
        let last = hits_of(es, m - 1, es.len() as int);
        let cur = collisions_upto(es, m);
        assert(cur == prev + last);
        assert forall|k: int| 0 <= k < cur.len() implies {
            let ev = #[trigger] cur[k];
            &&& 0 <= ev.player < m
            &&& 0 <= ev.obstacle < es.len()
            &&& hit(es, ev.player as int, ev.obstacle as int)
        } by {
            if k >= prev.len() {
                assert(cur[k] == last[k - prev.len()]);
            }
        }
        assert forall|i: int, j: int|
            0 <= i < m && 0 <= j < es.len() && #[trigger] hit(es, i, j) implies cur.contains(
                CollisionEvent { player: i as usize, obstacle: j as usize },
            ) by {
            let ev = CollisionEvent { player: i as usize, obstacle: j as usize };
            if i < m - 1 {
                let k = choose|k: int| 0 <= k < prev.len() && prev[k] == ev;
                assert(cur[k] == ev);
            } else {
                let k = choose|k: int| 0 <= k < last.len() && last[k] == ev;
                assert(cur[prev.len() + k] == ev);
            }
        }
    }
}

/// The bounding box of an entity.
pub fn bounding_box(e: &Entity) -> (r: Aabb)
    ensures
        r == box_of(*e),
{
    Aabb {
        center: e.position,
        size: Point {
            x: e.scale.x as i64 * SPRITE_NANOS_PER_SCALE,
            y: e.scale.y as i64 * SPRITE_NANOS_PER_SCALE,
        },
    }
}

fn abs_diff(a: i64, b: i64) -> (r: i128)
    ensures
        r == abs(a - b),
{
    let d: i128 = a as i128 - b as i128;
    if d < 0 {
        -d
    } else {
        d
    }
}

/// Whether two boxes overlap.
pub fn overlaps(a: &Aabb, b: &Aabb) -> (r: bool)
    ensures
        r == boxes_overlap(*a, *b),
{
    let dx = abs_diff(a.center.x, b.center.x);
    let dy = abs_diff(a.center.y, b.center.y);
    2 * dx < a.size.x as i128 + b.size.x as i128 && 2 * dy < a.size.y as i128
        + b.size.y as i128
}

/// One event for each player and obstacle whose boxes overlap; repeated
/// overlaps are reported again on every call.
pub fn detect_collisions(entities: &Vec<Entity>) -> (r: Vec<CollisionEvent>)
    ensures
        r@ == collisions(entities@),
{
    let ghost es = entities@;
    let n = entities.len();
    let mut events: Vec<CollisionEvent> = Vec::new();
    let mut i: usize = 0;
    while i < n
        invariant
            0 <= i <= n,
            n == es.len(),
            es == entities@,
            events@ == collisions_upto(es, i as int),
        decreases n - i,
    {
        if entities[i].role == Role::Player {
            let player_box = bounding_box(&entities[i]);
            let mut j: usize = 0;
            while j < n
                invariant
                    0 <= i < n,
                    0 <= j <= n,
                    n == es.len(),
                    es == entities@,
                    es[i as int].is_player(),
                    player_box == box_of(es[i as int]),
                    events@ == collisions_upto(es, i as int) + hits_of(es, i as int, j as int),
                decreases n - j,
            {
                if entities[j].role == Role::Obstacle && overlaps(
                    &player_box,
                    &bounding_box(&entities[j]),
                ) {
                    events.push(CollisionEvent { player: i, obstacle: j });
                }
                assert(events@ =~= collisions_upto(es, i as int) + hits_of(
                    es,
                    i as int,
                    j + 1,
                ));
                j = j + 1;
            }
        } else {
            proof {
                lemma_no_hits_for_non_player(es, i as int, n as int);
            }
        }
        assert(events@ =~= collisions_upto(es, i + 1));
        i = i + 1;
    }
    events
}

} // verus!
