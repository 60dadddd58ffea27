//! Facts about the simulation as a whole, proved from the contracts of its
//! parts.

use vstd::prelude::*;

use crate::collision::collisions;
use crate::entity::{obstacle_count, player_count, Entity};
use crate::game::{
    world_wf, entered, frame_result, moved, next_phase, phase_after_collisions, start_pressed,
    starting_player, GamePhase, PhaseEvent, WorldView,
};
use crate::input::Keys;
use crate::motion::integrated;
use crate::score::accrued;

verus! {

/// Motion is exact: an entity at `p` with velocity `v` is at `p + v·dt`
/// after `dt` microseconds, whenever that point is representable; nothing
/// but its position changes.
pub proof fn lemma_motion_is_exact(e: Entity, dt_us: u64)
    requires
        e.velocity is Some,
        i64::MIN <= e.position.x + e.velocity->0.x * dt_us <= i64::MAX,
        i64::MIN <= e.position.y + e.velocity->0.y * dt_us <= i64::MAX,
    ensures
        integrated(e, dt_us).position.x == e.position.x + e.velocity->0.x * dt_us,
        integrated(e, dt_us).position.y == e.position.y + e.velocity->0.y * dt_us,
        integrated(e, dt_us).role == e.role,
        integrated(e, dt_us).scale == e.scale,
        integrated(e, dt_us).velocity == e.velocity,
{
}

/// The score only moves during a round: a frame outside a round that does
/// not start one, and the frame that ends a round, leave it as it was; every
/// other frame of a round adds the frame's time.
pub proof fn lemma_score_moves_only_in_round(v: WorldView, dt_us: u64, keys: Keys)
    ensures
        v.phase != GamePhase::Playing && !start_pressed(v, keys) ==> frame_result(
            v,
            dt_us,
            keys,
        ).0.score_us == v.score_us,
        v.phase == GamePhase::Playing && collisions(moved(v.entities, keys, dt_us)).len() > 0
            ==> frame_result(v, dt_us, keys).0.score_us == v.score_us,
        v.phase == GamePhase::Playing && collisions(moved(v.entities, keys, dt_us)).len() == 0
            ==> frame_result(v, dt_us, keys).0.score_us == accrued(v.score_us, dt_us),
{
}

/// A round starts on exactly the frames where the start key goes down
/// outside a round; a key held on from the frame before starts nothing.
pub proof fn lemma_start_once_per_press(v: WorldView, dt_us: u64, keys: Keys)
    ensures
        frame_result(v, dt_us, keys).0.start_held == keys.start,
        frame_result(v, dt_us, keys).1.entered == Some(GamePhase::Playing) <==> (v.phase
            != GamePhase::Playing && keys.start && !v.start_held),
        frame_result(v, dt_us, keys).1.entered == Some(GamePhase::Playing) ==> frame_result(
            v,
            dt_us,
            keys,
        ).0.phase == GamePhase::Playing,
{
}

/// Holding the start key over two frames starts at most the first of them:
/// the second never enters a round.
pub proof fn lemma_held_start_does_not_restart(
    v: WorldView,
    dt1: u64,
    keys1: Keys,
    dt2: u64,
    keys2: Keys,
)
    requires
        keys1.start,
        keys2.start,
    ensures
        frame_result(frame_result(v, dt1, keys1).0, dt2, keys2).1.entered != Some(
            GamePhase::Playing,
        ),
{
    lemma_start_once_per_press(v, dt1, keys1);
    lemma_start_once_per_press(frame_result(v, dt1, keys1).0, dt2, keys2);
}

/// A collision during a round ends it in the same frame; once the round is
/// over, further collisions change nothing, and only a start press leaves
/// the game-over phase.
pub proof fn lemma_collision_ends_round(v: WorldView, dt_us: u64, keys: Keys, n: nat)
    ensures
        next_phase(GamePhase::Playing, PhaseEvent::Collision) == GamePhase::GameOver,
        phase_after_collisions(GamePhase::Playing, 1) == GamePhase::GameOver,
        next_phase(GamePhase::GameOver, PhaseEvent::Collision) == GamePhase::GameOver,
        phase_after_collisions(GamePhase::GameOver, n) == GamePhase::GameOver,
        v.phase == GamePhase::Playing && collisions(moved(v.entities, keys, dt_us)).len() > 0
            ==> frame_result(v, dt_us, keys).0.phase == GamePhase::GameOver && frame_result(
            v,
            dt_us,
            keys,
        ).1.entered == Some(GamePhase::GameOver),
        v.phase == GamePhase::GameOver && !start_pressed(v, keys) ==> frame_result(
            v,
            dt_us,
            keys,
        ).0.phase == GamePhase::GameOver,
{
}

/// Teardown leaves nothing behind: whatever the world held and whichever
/// phase it passed through, entering a round yields exactly one player and
/// no obstacles, and the same world as entering it directly.
pub proof fn lemma_teardown_then_round(v: WorldView, p: GamePhase)
    ensures
        entered(entered(v, p), GamePhase::Playing).entities == seq![starting_player()],
        player_count(entered(entered(v, p), GamePhase::Playing).entities) == 1,
        obstacle_count(entered(entered(v, p), GamePhase::Playing).entities) == 0,
        entered(entered(v, p), GamePhase::Playing) == entered(v, GamePhase::Playing),
{
    reveal_with_fuel(Seq::filter, 2);
    let s = seq![starting_player()];
    assert(s.drop_last() =~= Seq::<Entity>::empty());
    assert(entered(entered(v, p), GamePhase::Playing).entities =~= s);
}

/// During a round the world holds exactly one player.
pub proof fn lemma_one_player_in_round(v: WorldView)
    requires
        world_wf(v),
        v.phase == GamePhase::Playing,
    ensures
        player_count(v.entities) == 1,
{
    lemma_single_leading_player(v.entities);
}

proof fn lemma_single_leading_player(es: Seq<Entity>)
    requires
        es.len() >= 1,
        es[0].is_player(),
        forall|i: int| 1 <= i < es.len() ==> (#[trigger] es[i]).is_obstacle(),
    ensures
        player_count(es) == 1,
    decreases es.len(),
{
    reveal_with_fuel(Seq::filter, 2);
    if es.len() == 1 {
        assert(es.drop_last() =~= Seq::<Entity>::empty());
    } else {
        let rest = es.drop_last();
        assert forall|i: int| 1 <= i < rest.len() implies (#[trigger] rest[i]).is_obstacle() by {
            assert(rest[i] == es[i]);
        }
        lemma_single_leading_player(rest);
        assert(es.last().is_obstacle());
    }
}

} // verus!
