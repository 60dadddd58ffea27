use vstd::prelude::*;

use rand::rngs::StdRng;

use crate::collision::{collisions, detect_collisions, CollisionEvent};
use crate::entity::{Entity, Role};
use crate::geometry::{Point, Scale, UNIT_SCALE};
use crate::input::{intent_of, Keys};
use crate::motion::{apply_velocity, integrated, move_player, steered};
use crate::score::{accrued, Scoreboard};
use crate::spawn::{
    draw_in_range, draw_obstacle, obstacle_from, obstacle_of, ObstacleDraw, SpawnTimer,
    SPAWN_PERIOD_US,
};

verus! {

/// Where the player starts a round: centered, on the bottom edge, in
/// nano-units.
pub const PLAYER_START_Y: i64 = -220_000_000_000;

/// The coarse mode of the simulation.
#[derive(Clone, Copy, Debug, PartialEq, Eq, Structural)]
pub enum GamePhase {
    Title,
    Playing,
    GameOver,
}

/// What can ask the phase to change.
#[derive(Clone, Copy, Debug, PartialEq, Eq, Structural)]
pub enum PhaseEvent {
    StartPressed,
    Collision,
}

/// The phase after an event: a start press begins a round from the title or
/// after a round; a collision ends a round. Any other pair leaves the phase
/// as it is.
pub open spec fn next_phase(phase: GamePhase, event: PhaseEvent) -> GamePhase {
    match (phase, event) {
        (GamePhase::Title, PhaseEvent::StartPressed) => GamePhase::Playing,
        (GamePhase::GameOver, PhaseEvent::StartPressed) => GamePhase::Playing,
        (GamePhase::Playing, PhaseEvent::Collision) => GamePhase::GameOver,
        _ => phase,
    }
}

/// The phase after the collisions of one frame: the first one ends a round
/// in play, the others change nothing.
pub open spec fn phase_after_collisions(phase: GamePhase, n: nat) -> GamePhase {
    if n > 0 && phase == GamePhase::Playing {
        GamePhase::GameOver
    } else {
        phase
    }
}

/// Applies one event to a phase; a request that does not apply is a no-op.
pub fn transition(phase: GamePhase, event: PhaseEvent) -> (r: GamePhase)
    ensures
        r == next_phase(phase, event),
{
    match (phase, event) {
        (GamePhase::Title, PhaseEvent::StartPressed) => GamePhase::Playing,
        (GamePhase::GameOver, PhaseEvent::StartPressed) => GamePhase::Playing,
        (GamePhase::Playing, PhaseEvent::Collision) => GamePhase::GameOver,
        _ => phase,
    }
}

/// Consumes the collision events of a frame, one by one; once the round is
/// over, the remaining events are ignored.
pub fn end_on_collision(phase: GamePhase, events: &Vec<CollisionEvent>) -> (r: GamePhase)
    ensures
        r == phase_after_collisions(phase, events@.len()),
{
    let mut current = phase;
    let mut i: usize = 0;
    while i < events.len()
        invariant
            0 <= i <= events@.len(),
            current == phase_after_collisions(phase, i as nat),
        decreases events@.len() - i,
    {
        if current != GamePhase::Playing {
            return current;
        }
        current = transition(current, PhaseEvent::Collision);
        i = i + 1;
    }
    current
}

/// What a frame reports to the host: the phase it entered, if any, and
/// whether an obstacle is due.
#[derive(Clone, Copy, Debug, PartialEq, Eq, Structural)]
pub struct FrameReport {
    pub entered: Option<GamePhase>,
    pub spawn_due: bool,
}

/// The state of the simulation as plain values.
pub struct WorldView {
    pub phase: GamePhase,
    pub entities: Seq<Entity>,
    pub score_us: u64,
    pub timer: SpawnTimer,
    pub start_held: bool,
}

/// The whole simulation: the phase, the entities of the phase, the score,
/// the spawn timer, and whether the start key was held in the last frame.
pub struct World {
    pub phase: GamePhase,
    pub entities: Vec<Entity>,
    pub scoreboard: Scoreboard,
    pub timer: SpawnTimer,
    pub start_held: bool,
}

impl View for World {
    type V = WorldView;

    open spec fn view(&self) -> WorldView {
        WorldView {
            phase: self.phase,
            entities: self.entities@,
            score_us: self.scoreboard.score_us,
            timer: self.timer,
            start_held: self.start_held,
        }
    }
}

/// The player as a round begins: at the start position, unscaled, with no
/// velocity of its own.
pub open spec fn starting_player() -> Entity {
    Entity {
        role: Role::Player,
        position: Point { x: 0, y: PLAYER_START_Y },
        scale: Scale { x: UNIT_SCALE, y: UNIT_SCALE },
        velocity: None,
    }
}

/// A fresh spawn timer.
pub open spec fn fresh_timer() -> SpawnTimer {
    SpawnTimer { period_us: SPAWN_PERIOD_US, elapsed_us: 0 }
}

/// Well-formed: during a round the player comes first and all the others
/// are obstacles; outside a round there are no entities.
pub open spec fn world_wf(v: WorldView) -> bool {
    &&& v.timer.wf()
    &&& v.phase == GamePhase::Playing ==> {
        &&& v.entities.len() >= 1
        &&& v.entities[0].is_player()
        &&& forall|i: int| 1 <= i < v.entities.len() ==> (#[trigger] v.entities[i]).is_obstacle()
    }
    &&& v.phase != GamePhase::Playing ==> v.entities.len() == 0
}

/// The world after tearing down all entities and entering `phase`; entering
/// a round also resets the score, places the player and arms a fresh timer.
pub open spec fn entered(v: WorldView, phase: GamePhase) -> WorldView {
    if phase == GamePhase::Playing {
        WorldView {
            phase,
            entities: seq![starting_player()],
            score_us: 0,
            timer: fresh_timer(),
            ..v
        }
    } else {
        WorldView { phase, entities: Seq::empty(), ..v }
    }
}

/// The start key goes down in this frame.
pub open spec fn start_pressed(v: WorldView, keys: Keys) -> bool {
    keys.start && !v.start_held
}

/// The entities of a round after the moves of one frame.
pub open spec fn moved(es: Seq<Entity>, keys: Keys, dt_us: u64) -> Seq<Entity> {
    es.map_values(|e: Entity| integrated(e, dt_us)).map_values(
        |e: Entity| steered(e, intent_of(keys), dt_us),
    )
}

/// One frame of `dt_us` microseconds with the given keys held: the world
/// after it, and what it reports.
pub open spec fn frame_result(v: WorldView, dt_us: u64, keys: Keys) -> (WorldView, FrameReport) {
    let held = WorldView { start_held: keys.start, ..v };
    if v.phase != GamePhase::Playing {
        if start_pressed(v, keys) {
            (
                entered(held, GamePhase::Playing),
                FrameReport { entered: Some(GamePhase::Playing), spawn_due: false },
            )
        } else {
            (held, FrameReport { entered: None, spawn_due: false })
        }
    } else {
        let es = moved(v.entities, keys, dt_us);
        if collisions(es).len() > 0 {
            (
                entered(WorldView { entities: es, ..held }, GamePhase::GameOver),
                FrameReport { entered: Some(GamePhase::GameOver), spawn_due: false },
            )
        } else {
            (
                WorldView {
                    entities: es,
                    score_us: accrued(v.score_us, dt_us),
                    timer: SpawnTimer {
                        elapsed_us: ((v.timer.elapsed_us + dt_us) % (v.timer.period_us as int)) as u64,
                        ..v.timer
                    },
                    ..held
                },
                FrameReport {
                    entered: None,
                    spawn_due: v.timer.elapsed_us + dt_us >= v.timer.period_us,
                },
            )
        }
    }
}

/// The world with one more obstacle, if a round is in play.
pub open spec fn spawned(v: WorldView, d: ObstacleDraw) -> WorldView {
    if v.phase == GamePhase::Playing {
        WorldView { entities: v.entities.push(obstacle_of(d)), ..v }
    } else {
        v
    }
}

impl World {
    pub open spec fn wf(&self) -> bool {
        world_wf(self@)
    }

    /// The world at the title, with nothing on screen and a score of zero.
    pub fn new() -> (r: World)
        ensures
            r.wf(),
            r@.phase == GamePhase::Title,
            r@.entities.len() == 0,
            r@.score_us == 0,
            r@.timer == fresh_timer(),
            !r@.start_held,
    {
        World {
            phase: GamePhase::Title,
            entities: Vec::new(),
            scoreboard: Scoreboard::new(),
            timer: SpawnTimer::every_second(),
            start_held: false,
        }
    }

    /// Tears down every entity, then runs the setup of `phase`.
    pub fn enter(&mut self, phase: GamePhase)
        requires
            old(self).wf(),
        ensures
            final(self).wf(),
            final(self)@ == entered(old(self)@, phase),
    {
        self.entities.clear();
        self.phase = phase;
        if phase == GamePhase::Playing {
            self.scoreboard.reset();
            self.entities.push(
                Entity {
                    role: Role::Player,
                    position: Point { x: 0, y: PLAYER_START_Y },
                    scale: Scale { x: UNIT_SCALE, y: UNIT_SCALE },
                    velocity: None,
                },
            );
            self.timer = SpawnTimer::every_second();
        }
        assert(self@.entities =~= entered(old(self)@, phase).entities);
    }

    /// Runs one frame: outside a round, a start press begins one; in a
    /// round, everything moves, a collision ends the round, and otherwise the
    /// score grows and the spawn timer runs.
    pub fn update(&mut self, dt_us: u64, keys: &Keys) -> (r: FrameReport)
        requires
            old(self).wf(),
        ensures
            final(self).wf(),
            (final(self)@, r) == frame_result(old(self)@, dt_us, *keys),
    {
        let pressed = keys.start && !self.start_held;
        self.start_held = keys.start;
        if self.phase != GamePhase::Playing {
            if pressed {
                self.enter(GamePhase::Playing);
                FrameReport { entered: Some(GamePhase::Playing), spawn_due: false }
            } else {
                FrameReport { entered: None, spawn_due: false }
            }
        } else {
            apply_velocity(&mut self.entities, dt_us);
            move_player(&mut self.entities, keys, dt_us);
            let events = detect_collisions(&self.entities);
            let next = end_on_collision(self.phase, &events);
            if next == GamePhase::GameOver {
                self.enter(GamePhase::GameOver);
                FrameReport { entered: Some(GamePhase::GameOver), spawn_due: false }
            } else {
                self.scoreboard.accrue(dt_us);
                let due = self.timer.tick(dt_us);
                FrameReport { entered: None, spawn_due: due }
            }
        }
    }

    /// Adds the obstacle of a draw, if a round is in play.
    pub fn spawn(&mut self, d: &ObstacleDraw)
        requires
            old(self).wf(),
        ensures
            final(self).wf(),
            final(self)@ == spawned(old(self)@, *d),
    {
        if self.phase == GamePhase::Playing {
            let obstacle = obstacle_from(d);
            self.entities.push(obstacle);
        }
    }

    /// Runs one frame, and spawns an obstacle with randomized parameters when
    /// the spawn timer fires.
    pub fn frame(&mut self, dt_us: u64, keys: &Keys, rng: &mut StdRng) -> (r: FrameReport)
        requires
            old(self).wf(),
        ensures
            final(self).wf(),
            r == frame_result(old(self)@, dt_us, *keys).1,
            !r.spawn_due ==> final(self)@ == frame_result(old(self)@, dt_us, *keys).0,
            r.spawn_due ==> exists|d: ObstacleDraw|
                draw_in_range(d) && final(self)@ == #[trigger] spawned(
                    frame_result(old(self)@, dt_us, *keys).0,
                    d,
                ),
    {
        let report = self.update(dt_us, keys);
        if report.spawn_due {
            let d = draw_obstacle(rng);
            self.spawn(&d);
            assert(draw_in_range(d) && self@ == spawned(
                frame_result(old(self)@, dt_us, *keys).0,
                d,
            ));
        }
        report
    }
}

} // verus!
