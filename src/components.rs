use vstd::prelude::*;

use crate::grid::GridCoord;

verus! {

/// The cell an entity stands on.
#[derive(Clone, Copy, Debug, PartialEq, Eq, Structural, Hash, Default)]
pub struct GridPosition {
    pub position: GridCoord,
}

/// The side an entity plays for.
#[derive(Clone, Copy, Debug, PartialEq, Eq, Structural, Hash, Default)]
pub struct Team {
    pub number: i32,
}

/// A planet that carries a grid of cells.
#[derive(Clone, Copy, Debug, PartialEq, Eq, Structural, Hash, Default)]
pub struct Planet {
    pub number: i32,
}

/// How many cells a unit may move in one turn.
#[derive(Clone, Copy, Debug, PartialEq, Eq, Structural, Hash, Default)]
pub struct MovementRange {
    pub range: i32,
}

/// The strength of a unit.
#[derive(Clone, Copy, Debug, PartialEq, Eq, Structural, Hash, Default)]
pub struct Power {
    pub power: i32,
}

/// A stock of resources.
#[derive(Clone, Copy, Debug, PartialEq, Eq, Structural, Hash, Default)]
pub struct Resource {
    pub amount: i32,
}

/// The state of a running game: the turn it is at.
#[derive(Clone, Copy, Debug, PartialEq, Eq, Structural, Hash, Default)]
pub struct GameState {
    pub turn: i32,
}

impl GameState {
    /// The state at the start of the following turn.
    pub fn next_turn(&self) -> (r: GameState)
        requires
            self.turn < i32::MAX,
        ensures
            r.turn == self.turn + 1,
    {
        GameState { turn: self.turn + 1 }
    }
}

/// The cell the player selected last.
#[derive(Clone, Copy, Debug, PartialEq, Eq, Structural, Hash, Default)]
pub struct Selection {
    pub coords: GridCoord,
}

/// Marks the entity that is selected.
#[derive(Clone, Copy, Debug, PartialEq, Eq, Structural, Hash, Default)]
pub struct SelectedTag;

/// Marks an entity that may be selected.
#[derive(Clone, Copy, Debug, PartialEq, Eq, Structural, Hash, Default)]
pub struct SelectableTag;

/// Marks a unit that has moved this turn.
#[derive(Clone, Copy, Debug, PartialEq, Eq, Structural, Hash, Default)]
pub struct MovedTag;

/// Marks the entity under the pointer.
#[derive(Clone, Copy, Debug, PartialEq, Eq, Structural, Hash, Default)]
pub struct HoverTag;

/// Marks a unit that may move.
#[derive(Clone, Copy, Debug, PartialEq, Eq, Structural, Hash, Default)]
pub struct MoveableTag;

/// The layer that pointer rays are cast against to pick cells.
#[derive(Clone, Copy, Debug, PartialEq, Eq, Structural, Hash, Default)]
pub struct HexRaycastLayer;

} // verus!
