use vstd::prelude::*;

use crate::entity::{Entity, Role};
use crate::geometry::{displace, saturate, Point};
use crate::input::{horizontal_intent, intent_of, Keys};

verus! {

/// Horizontal speed of the player, in milli-units per second.
pub const PLAYER_SPEED: i64 = 100_000;

/// `e` after moving for `dt_us` microseconds at its own velocity; an entity
/// without a velocity stays where it is.
pub open spec fn integrated(e: Entity, dt_us: u64) -> Entity {
    match e.velocity {
        Some(v) => Entity {
            position: Point {
                x: saturate(e.position.x + v.x * dt_us) as i64,
                y: saturate(e.position.y + v.y * dt_us) as i64,
            },
            ..e
        },
        None => e,
    }
}

/// `e` after the player's horizontal move with the given intent; an entity
/// that is not the player is left alone.
pub open spec fn steered(e: Entity, intent: int, dt_us: u64) -> Entity {
    if e.is_player() {
        Entity {
            position: Point {
                x: saturate(e.position.x + intent * PLAYER_SPEED * dt_us) as i64,
                ..e.position
            },
            ..e
        }
    } else {
        e
    }
}

/// Moves one entity by its velocity over `dt_us` microseconds.
pub fn integrate(e: &Entity, dt_us: u64) -> (r: Entity)
    ensures
        r == integrated(*e, dt_us),
{
    match e.velocity {
        Some(v) => Entity {
            position: Point {
                x: displace(e.position.x, v.x, dt_us),
                y: displace(e.position.y, v.y, dt_us),
            },
            ..*e
        },
        None => *e,
    }
}

/// Moves every entity that carries a velocity; each one is moved on its own,
/// reading nothing of the others.
pub fn apply_velocity(entities: &mut Vec<Entity>, dt_us: u64)
    ensures
        final(entities)@ == old(entities)@.map_values(|e: Entity| integrated(e, dt_us)),
{
    let n = entities.len();
    let mut i: usize = 0;
    while i < n
        invariant
            0 <= i <= n,
            n == old(entities)@.len(),
            entities@.len() == n,
            forall|j: int| 0 <= j < i ==> entities@[j] == integrated(old(entities)@[j], dt_us),
            forall|j: int| i <= j < n ==> entities@[j] == old(entities)@[j],
        decreases n - i,
    {
        let moved = integrate(&entities[i], dt_us);
        entities.set(i, moved);
        i = i + 1;
    }
    assert(entities@ =~= old(entities)@.map_values(|e: Entity| integrated(e, dt_us)));
}

/// Moves the player horizontally as the held keys ask, at the fixed player
/// speed; there is no vertical move and no clamping to the screen.
pub fn move_player(entities: &mut Vec<Entity>, keys: &Keys, dt_us: u64)
    ensures
        final(entities)@ == old(entities)@.map_values(
            |e: Entity| steered(e, intent_of(*keys), dt_us),
        ),
{
    let direction = horizontal_intent(keys);
    let rate = direction * PLAYER_SPEED;
    let n = entities.len();
    let mut i: usize = 0;
    while i < n
        invariant
            0 <= i <= n,
            n == old(entities)@.len(),
            entities@.len() == n,
            rate == intent_of(*keys) * PLAYER_SPEED,
            forall|j: int|
                0 <= j < i ==> entities@[j] == steered(old(entities)@[j], intent_of(*keys), dt_us),
            forall|j: int| i <= j < n ==> entities@[j] == old(entities)@[j],
        decreases n - i,
    {
        let e = entities[i];
        if e.role == Role::Player {
            let x = displace(e.position.x, rate, dt_us);
            entities.set(i, Entity { position: Point { x, ..e.position }, ..e });
        }
        i = i + 1;
    }
    assert(entities@ =~= old(entities)@.map_values(
        |e: Entity| steered(e, intent_of(*keys), dt_us),
    ));
}

} // verus!
