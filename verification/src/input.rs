//! Input state, action mapping, and the movement system.
//!
//! The input-capture collaborator refreshes a [`KeyboardInput`] map of
//! "is this key currently held" booleans once per tick. Each controllable
//! entity carries an [`InputMapping`] from logical actions to key codes.
//! The movement system resolves, for each entity separately, the held
//! keys against that entity's own mapping into at most one grid direction
//! per tick, and latches for every idle controllable entity a transition
//! towards the corresponding neighbour tile.

use vstd::prelude::*;
use std::collections::HashMap;
use crate::grid::Board;
use crate::grid::GridDirection;
use crate::positioning::Animating;
use crate::positioning::Direction;
use crate::positioning::TargetPosition;
use crate::world::Entity;
use crate::world::World;

verus! {

broadcast use vstd::std_specs::hash::group_hash_axioms;

/// Default key code for moving north (the letter W).
pub const KEY_W: u32 = 119;

/// Default key code for moving west (the letter A).
pub const KEY_A: u32 = 97;

/// Default key code for moving south (the letter S).
pub const KEY_S: u32 = 115;

/// Default key code for moving east (the letter D).
pub const KEY_D: u32 = 100;

/// Holds all keypresses: key code to "currently held". Written once per
/// tick by the input-capture collaborator, read-only within the tick.
pub struct KeyboardInput(pub HashMap<u32, bool>);

impl KeyboardInput {
    /// A key is pressed when the map holds `true` for it; keys the map has
    /// never seen count as released.
    pub open spec fn spec_pressed(self, btn: u32) -> bool {
        self.0@.contains_key(btn) && self.0@[btn]
    }

    /// Create a new input structure with no key held.
    pub fn new() -> (r: Self)
        ensures
            forall|btn: u32| !r.spec_pressed(btn),
    {
        KeyboardInput(HashMap::new())
    }

    /// Record that `btn` is now held (`true`) or released (`false`).
    pub fn set_key(&mut self, btn: u32, held: bool)
        ensures
            final(self).spec_pressed(btn) == held,
            forall|other: u32| other != btn ==> final(self).spec_pressed(other) == old(
                self,
            ).spec_pressed(other),
    {
        self.0.insert(btn, held);
    }

    /// Check if a specific button is currently pressed.
    pub fn is_pressed(&self, btn: u32) -> (r: bool)
        ensures
            r == self.spec_pressed(btn),
    {
        match self.0.get(&btn) {
            Some(b) => *b,
            None => false,
        }
    }
}

/// The logical movement actions an entity can respond to.
#[derive(Clone, Copy, PartialEq, Eq, Hash, Debug)]
pub enum InputAction {
    MoveUp,
    MoveDown,
    MoveLeft,
    MoveRight,
}

/// Per-entity mapping from logical action to the physical key that
/// triggers it.
#[derive(Clone, Copy, Debug, PartialEq, Eq, Structural)]
pub struct InputMapping {
    pub up: u32,
    pub down: u32,
    pub left: u32,
    pub right: u32,
}

impl InputMapping {
    /// The key mapped to `action`.
    pub open spec fn spec_key_for(self, action: InputAction) -> u32 {
        match action {
            InputAction::MoveUp => self.up,
            InputAction::MoveDown => self.down,
            InputAction::MoveLeft => self.left,
            InputAction::MoveRight => self.right,
        }
    }

    /// The conventional WASD layout.
    pub fn default() -> (r: Self)
        ensures
            r.up == KEY_W,
            r.down == KEY_S,
            r.left == KEY_A,
            r.right == KEY_D,
    {
        InputMapping { up: KEY_W, down: KEY_S, left: KEY_A, right: KEY_D }
    }

    /// The key mapped to `action`.
    pub fn key_for(&self, action: InputAction) -> (r: u32)
        ensures
            r == self.spec_key_for(action),
    {
        match action {
            InputAction::MoveUp => self.up,
            InputAction::MoveDown => self.down,
            InputAction::MoveLeft => self.left,
            InputAction::MoveRight => self.right,
        }
    }
}

/// Marks an entity as responding to input.
#[derive(Clone, Copy, Debug, PartialEq, Eq, Structural)]
pub struct Controllable;

/// The direction the held keys of one mapping resolve to. Simultaneous
/// held actions are resolved by a fixed priority — West, then East, then
/// South, then North — so that exactly one direction is latched per tick.
pub open spec fn spec_resolve_mapping(m: InputMapping, input: KeyboardInput) -> Option<
    GridDirection,
> {
    if input.spec_pressed(m.left) {
        Some(GridDirection::DirectionWest)
    } else if input.spec_pressed(m.right) {
        Some(GridDirection::DirectionEast)
    } else if input.spec_pressed(m.down) {
        Some(GridDirection::DirectionSouth)
    } else if input.spec_pressed(m.up) {
        Some(GridDirection::DirectionNorth)
    } else {
        None
    }
}

/// Resolve one mapping against the current input.
pub fn resolve_mapping(m: &InputMapping, input: &KeyboardInput) -> (r: Option<GridDirection>)
    ensures
        r == spec_resolve_mapping(*m, *input),
{
    if input.is_pressed(m.left) {
        Some(GridDirection::DirectionWest)
    } else if input.is_pressed(m.right) {
        Some(GridDirection::DirectionEast)
    } else if input.is_pressed(m.down) {
        Some(GridDirection::DirectionSouth)
    } else if input.is_pressed(m.up) {
        Some(GridDirection::DirectionNorth)
    } else {
        None
    }
}

/// One movement tick for one entity. An entity that lacks any joined
/// component is untouched. Movement is exclusive: while a transition is
/// in flight nothing is latched. Otherwise the held input is resolved
/// against this entity's own mapping; when that yields a direction, the
/// current tile is recomputed from the world position and the move
/// towards its neighbour is latched — target set to the neighbour's
/// centre, direction recorded, animating raised. An entity whose own
/// mapping resolves nothing latches nothing, and a move off the board's
/// edge is rejected and mutates nothing.
pub open spec fn spec_movement_step(b: Board, e: Entity, input: KeyboardInput) -> Entity {
    if !e.has_movement_components() {
        e
    } else if e.animating->Some_0.0 {
        e
    } else {
        match spec_resolve_mapping(e.input_mapping->Some_0, input) {
            None => e,
            Some(dir) => {
                let cur = b.spec_world_to_grid(e.position->Some_0.0);
                match b.spec_neighbor(cur, dir) {
                    Some(c) => Entity {
                        direction: Some(Direction(dir)),
                        target_position: Some(TargetPosition(Some(b.spec_center(c)))),
                        animating: Some(Animating(true)),
                        ..e
                    },
                    None => e,
                }
            },
        }
    }
}

/// The movement system. Runs once per tick, before the animation system,
/// over every entity carrying the controllable marker, position,
/// animating flag, direction, target position, and input mapping.
pub struct Control;

impl Control {
    /// For each idle controllable entity, resolve the held input against
    /// that entity's own mapping and latch at most one movement. Exactly
    /// [`spec_movement_step`] applied to every entity.
    pub fn run(&self, input: &KeyboardInput, board: &Board, world: &mut World)
        requires
            board.wf(),
            old(world).wf(*board),
        ensures
            final(world).entities@.len() == old(world).entities@.len(),
            forall|k: int|
                0 <= k < old(world).entities@.len() ==> final(world).entities@[k]
                    == spec_movement_step(*board, #[trigger] old(world).entities@[k], *input),
            final(world).wf(*board),
    {
        let n = world.entities.len();
        let mut idx: usize = 0;
        while idx < n
            invariant
                board.wf(),
                n == world.entities@.len(),
                n == old(world).entities@.len(),
                idx <= n,
                forall|k: int|
                    idx <= k < n ==> #[trigger] world.entities@[k] == old(world).entities@[k],
                forall|k: int|
                    0 <= k < idx ==> #[trigger] world.entities@[k] == spec_movement_step(
                        *board,
                        old(world).entities@[k],
                        *input,
                    ),
                forall|k: int| 0 <= k < n ==> #[trigger] world.entities@[k].inv(*board),
            decreases n - idx,
        {
            let e = world.entities[idx];
            proof {
                assert(world.entities@[idx as int].inv(*board));
            }
            match (
                e.controllable,
                e.position,
                e.animating,
                e.direction,
                e.target_position,
                e.input_mapping,
            ) {
                (Some(_), Some(pos), Some(anim), Some(_), Some(_), Some(m)) => {
                    if !anim.0 {
                        match resolve_mapping(&m, input) {
                            Some(dir) => {
                                let cur = board.get_tile_coordinates(pos.0);
                                match board.get_neighbour(cur, dir) {
                                    Some(c) => {
                                        let center = board.get_tile_center_world_coordinate(c);
                                        let mut e2 = e;
                                        e2.direction = Some(Direction(dir));
                                        e2.target_position = Some(TargetPosition(Some(center)));
                                        e2.animating = Some(Animating(true));
                                        world.entities[idx] = e2;
                                    },
                                    None => {
                                        // Board edge: the move is rejected
                                        // and no state changes.
                                    },
                                }
                            },
                            None => {},
                        }
                    }
                },
                _ => {},
            }
            idx = idx + 1;
        }
    }
}

} // verus!
