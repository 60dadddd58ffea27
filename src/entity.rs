use vstd::prelude::*;

use crate::geometry::{Point, Scale};

verus! {

/// What an entity stands for in the round.
#[derive(Clone, Copy, Debug, PartialEq, Eq, Structural)]
pub enum Role {
    Player,
    Obstacle,
}

/// A sprite of the simulation: where it is, how large it is drawn, and how
/// fast it moves, if it moves by itself.
#[derive(Clone, Copy, Debug, PartialEq, Eq)]
pub struct Entity {
    pub role: Role,
    pub position: Point,
    pub scale: Scale,
    pub velocity: Option<Point>,
}

impl Entity {
    pub open spec fn is_player(self) -> bool {
        self.role == Role::Player
    }

    pub open spec fn is_obstacle(self) -> bool {
        self.role == Role::Obstacle
    }
}

/// The number of entities in `es` that are players.
pub open spec fn player_count(es: Seq<Entity>) -> nat {
    es.filter(|e: Entity| e.is_player()).len()
}

/// The number of entities in `es` that are obstacles.
pub open spec fn obstacle_count(es: Seq<Entity>) -> nat {
    es.filter(|e: Entity| e.is_obstacle()).len()
}

} // verus!
