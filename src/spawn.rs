use vstd::prelude::*;

use rand::rngs::StdRng;
use rand::Rng;

use crate::entity::{Entity, Role};
use crate::geometry::{Point, Scale};

verus! {

/// Period between two spawns, in microseconds.
pub const SPAWN_PERIOD_US: u64 = 1_000_000;

/// Left edge of the visible range (inclusive), in nano-units.
pub const SCREEN_LEFT: i64 = -320_000_000_000;

/// Right edge of the visible range (exclusive), in nano-units.
pub const SCREEN_RIGHT: i64 = 320_000_000_000;

/// Top edge of the visible range, where obstacles appear, in nano-units.
pub const SCREEN_TOP: i64 = 220_000_000_000;

/// Lowest fall speed (inclusive), in milli-units per second.
pub const MIN_FALL_SPEED: u32 = 50_000;

/// Highest fall speed (exclusive), in milli-units per second.
pub const MAX_FALL_SPEED: u32 = 125_000;

/// Smallest obstacle scale (inclusive), in thousandths.
pub const MIN_OBSTACLE_SCALE: u32 = 500;

/// Largest obstacle scale (exclusive), in thousandths.
pub const MAX_OBSTACLE_SCALE: u32 = 5000;

#[verifier::external_type_specification]
#[verifier::external_body]
pub struct ExStdRng(StdRng);

/// A repeating timer: time accumulates until it reaches the period; then the
/// timer fires once and keeps what went past the period.
#[derive(Clone, Copy, Debug, PartialEq, Eq, Structural)]
pub struct SpawnTimer {
    pub period_us: u64,
    pub elapsed_us: u64,
}

impl SpawnTimer {
    pub open spec fn wf(self) -> bool {
        0 < self.period_us && self.elapsed_us < self.period_us
    }

    /// A timer with the given period and nothing accumulated.
    pub fn new(period_us: u64) -> (r: SpawnTimer)
        requires
            period_us > 0,
        ensures
            r.wf(),
            r.period_us == period_us,
            r.elapsed_us == 0,
    {
        SpawnTimer { period_us, elapsed_us: 0 }
    }

    /// A fresh timer with the spawn period of one second.
    pub fn every_second() -> (r: SpawnTimer)
        ensures
            r.wf(),
            r.period_us == SPAWN_PERIOD_US,
            r.elapsed_us == 0,
    {
        SpawnTimer::new(SPAWN_PERIOD_US)
    }

    /// Adds `dt_us` microseconds; returns whether the period was reached.
    /// The timer fires at most once per call, however many periods passed,
    /// and carries the time past the last whole period over.
    pub fn tick(&mut self, dt_us: u64) -> (fired: bool)
        requires
            old(self).wf(),
        ensures
            final(self).wf(),
            final(self).period_us == old(self).period_us,
            fired == (old(self).elapsed_us + dt_us >= old(self).period_us),
            final(self).elapsed_us == (old(self).elapsed_us + dt_us) % (old(self).period_us as int),
    {
        let total: u128 = self.elapsed_us as u128 + dt_us as u128;
        let period: u128 = self.period_us as u128;
        let rest: u128 = total % period;
        self.elapsed_us = rest as u64;
        total >= period
    }
}

/// The randomized parameters of one obstacle: its horizontal position in
/// nano-units, its fall speed in milli-units per second and its scale in
/// thousandths.
#[derive(Clone, Copy, Debug, PartialEq, Eq, Structural)]
pub struct ObstacleDraw {
    pub x: i64,
    pub speed: u32,
    pub scale: u32,
}

/// Each parameter lies in its range: the visible width, the fall speeds, the
/// obstacle scales.
pub open spec fn draw_in_range(d: ObstacleDraw) -> bool {
    &&& SCREEN_LEFT <= d.x < SCREEN_RIGHT
    &&& MIN_FALL_SPEED <= d.speed < MAX_FALL_SPEED
    &&& MIN_OBSTACLE_SCALE <= d.scale < MAX_OBSTACLE_SCALE
}

/// The obstacle made from a draw: at the top edge, scaled alike on both
/// axes, falling straight down at the drawn speed.
pub open spec fn obstacle_of(d: ObstacleDraw) -> Entity {
    Entity {
        role: Role::Obstacle,
        position: Point { x: d.x, y: SCREEN_TOP },
        scale: Scale { x: d.scale, y: d.scale },
        velocity: Some(Point { x: 0, y: -(d.speed as int) as i64 }),
    }
}

/// Builds the obstacle for a draw.
pub fn obstacle_from(d: &ObstacleDraw) -> (r: Entity)
    ensures
        r == obstacle_of(*d),
{
    Entity {
        role: Role::Obstacle,
        position: Point { x: d.x, y: SCREEN_TOP },
        scale: Scale { x: d.scale, y: d.scale },
        velocity: Some(Point { x: 0, y: -(d.speed as i64) }),
    }
}

/// Relies on `rand::Rng::gen_range` (rand 0.8) over a half-open `i64` range:
/// the value it returns lies in the range; it panics on an empty range.
#[verifier::external_body]
fn sample_between(rng: &mut StdRng, low: i64, high: i64) -> (r: i64)
    requires
        low < high,
    ensures
        low <= r < high,
{
    rng.gen_range(low..high)
}

/// Draws the parameters of an obstacle, each uniformly from its range.
pub fn draw_obstacle(rng: &mut StdRng) -> (d: ObstacleDraw)
    ensures
        draw_in_range(d),
{
    let x = sample_between(rng, SCREEN_LEFT, SCREEN_RIGHT);
    let speed = sample_between(rng, MIN_FALL_SPEED as i64, MAX_FALL_SPEED as i64);
    let scale = sample_between(rng, MIN_OBSTACLE_SCALE as i64, MAX_OBSTACLE_SCALE as i64);
    ObstacleDraw { x, speed: speed as u32, scale: scale as u32 }
}

} // verus!
