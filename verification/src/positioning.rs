//! Per-entity positioning components and the animation system.
//!
//! An entity occupies one tile (`GridPosition`) and carries a continuous
//! world-space `Position`. While a tile-to-tile transition is in flight
//! (`Animating`), `AnimationTime` tracks the progress of the transition as
//! a fixed-point fraction over [`ANIM_SCALE`], and `Position` is the linear
//! interpolation between the centre of the source tile and
//! `TargetPosition`. On completion the entity snaps to the target centre
//! and `GridPosition` is recomputed from the final position.

use vstd::prelude::*;
use vstd::arithmetic::div_mod::lemma_div_by_multiple;
use vstd::arithmetic::div_mod::lemma_div_is_ordered;
use vstd::arithmetic::div_mod::lemma_div_pos_is_pos;
use crate::grid::Board;
use crate::grid::GridCoordinate;
use crate::grid::GridDirection;
use crate::grid::MAX_COORD;
use crate::grid::WorldPoint;
use crate::world::Entity;
use crate::world::MAX_DELTA_MS;
use crate::world::World;

verus! {

/// Denominator of animation progress: a transition is complete once the
/// progress numerator exceeds this value. One unit is a millionth of a
/// tile-to-tile transition.
pub const ANIM_SCALE: u64 = 1_000_000;

/// Upper bound on each animation-rate component, in thousandths of a
/// transition per second: at most a thousand transitions per second.
pub const MAX_RATE: u32 = 1_000_000;

/// Continuous world-space location of an entity: the authoritative,
/// rendered position.
#[derive(Clone, Copy, Debug, PartialEq, Eq, Structural)]
pub struct Position(pub WorldPoint);

/// World-space destination of the transition in flight; `None` whenever
/// the entity is not animating.
#[derive(Clone, Copy, Debug, PartialEq, Eq)]
pub struct TargetPosition(pub Option<WorldPoint>);

/// The tile the entity currently occupies. During a transition this stays
/// the source tile until completion.
#[derive(Clone, Copy, Debug, PartialEq, Eq, Structural)]
pub struct GridPosition(pub GridCoordinate);

/// Animation-rate driver. The `x` component scales animation progress:
/// it is the transition rate in thousandths of a transition per second.
/// (The historical name is kept; the component does not carry spatial
/// speed.)
#[derive(Clone, Copy, Debug, PartialEq, Eq, Structural)]
pub struct Velocity {
    pub x: u32,
    pub y: u32,
}

/// The last direction a movement command resolved to.
#[derive(Clone, Copy, Debug, PartialEq, Eq, Structural)]
pub struct Direction(pub GridDirection);

/// True while a tile-to-tile transition is in flight.
#[derive(Clone, Copy, Debug, PartialEq, Eq, Structural)]
pub struct Animating(pub bool);

/// Progress of the transition in flight, as a numerator over
/// [`ANIM_SCALE`]. Reset to zero at start and at completion.
#[derive(Clone, Copy, Debug, PartialEq, Eq, Structural)]
pub struct AnimationTime(pub u64);

/// Fixed-point linear interpolation from `a` to `b` at progress
/// `t / ANIM_SCALE`, the quotient rounded down.
pub open spec fn spec_lerp(a: u64, b: u64, t: u64) -> int {
    if b >= a {
        a + (b - a) * t / (ANIM_SCALE as int)
    } else {
        a - (a - b) * t / (ANIM_SCALE as int)
    }
}

/// Linear interpolation from `a` to `b` at progress `t / ANIM_SCALE`.
/// The result always lies between `a` and `b`.
pub fn lerp(a: u64, b: u64, t: u64) -> (r: u64)
    requires
        a <= MAX_COORD,
        b <= MAX_COORD,
        t <= ANIM_SCALE,
    ensures
        r == spec_lerp(a, b, t),
        a <= b ==> a <= r <= b,
        b <= a ==> b <= r <= a,
{
    if b >= a {
        let diff = b - a;
        proof {
            assert(diff * t <= MAX_COORD * ANIM_SCALE) by (nonlinear_arith)
                requires
                    0 <= diff <= MAX_COORD,
                    0 <= t <= ANIM_SCALE,
            ;
            assert(diff * t <= diff * ANIM_SCALE) by (nonlinear_arith)
                requires
                    0 <= diff,
                    t <= ANIM_SCALE,
            ;
            lemma_div_is_ordered(
                diff * t,
                diff * (ANIM_SCALE as int),
                ANIM_SCALE as int,
            );
            lemma_div_by_multiple(diff as int, ANIM_SCALE as int);
            lemma_div_pos_is_pos(diff * t, ANIM_SCALE as int);
        }
        let num = diff * t;
        a + num / ANIM_SCALE
    } else {
        let diff = a - b;
        proof {
            assert(diff * t <= MAX_COORD * ANIM_SCALE) by (nonlinear_arith)
                requires
                    0 <= diff <= MAX_COORD,
                    0 <= t <= ANIM_SCALE,
            ;
            assert(diff * t <= diff * ANIM_SCALE) by (nonlinear_arith)
                requires
                    0 <= diff,
                    t <= ANIM_SCALE,
            ;
            lemma_div_is_ordered(
                diff * t,
                diff * (ANIM_SCALE as int),
                ANIM_SCALE as int,
            );
            lemma_div_by_multiple(diff as int, ANIM_SCALE as int);
            lemma_div_pos_is_pos(diff * t, ANIM_SCALE as int);
        }
        let num = diff * t;
        a - num / ANIM_SCALE
    }
}

/// One animation tick for one entity. An entity that lacks any of the
/// joined components, or is not animating, is left untouched. Otherwise
/// progress advances by `velocity.x * delta`; once it exceeds
/// [`ANIM_SCALE`] the transition finalizes atomically: the entity snaps to
/// the target centre, `GridPosition` is recomputed from the final
/// position, and the target and progress are cleared. Before completion
/// the position is the interpolation between the source tile's centre and
/// the target.
pub open spec fn spec_animation_step(b: Board, e: Entity, delta: u32) -> Entity {
    if !e.has_animation_components() {
        e
    } else if !(e.animating->Some_0.0) {
        e
    } else {
        let v = e.velocity->Some_0;
        let t1 = e.animation_time->Some_0.0 + v.x * delta;
        let target = e.target_position->Some_0.0->Some_0;
        if t1 > ANIM_SCALE {
            Entity {
                animating: Some(Animating(false)),
                animation_time: Some(AnimationTime(0)),
                position: Some(Position(target)),
                grid_position: Some(GridPosition(b.spec_world_to_grid(target))),
                target_position: Some(TargetPosition(None)),
                ..e
            }
        } else {
            let start = b.spec_center(e.grid_position->Some_0.0);
            Entity {
                animation_time: Some(AnimationTime(t1 as u64)),
                position: Some(
                    Position(
                        WorldPoint {
                            x: spec_lerp(start.x, target.x, t1 as u64) as u64,
                            y: spec_lerp(start.y, target.y, t1 as u64) as u64,
                        },
                    ),
                ),
                ..e
            }
        }
    }
}

/// The animation system. Runs once per tick, after the movement system,
/// over every entity carrying velocity, animating flag, animation time,
/// grid position, target position, and position.
pub struct Move;

impl Move {
    /// Advance every in-flight transition by one tick of `delta`
    /// milliseconds, finalizing those whose progress crosses the full
    /// scale. Exactly [`spec_animation_step`] applied to every entity.
    pub fn run(&self, delta: u32, board: &Board, world: &mut World)
        requires
            board.wf(),
            old(world).wf(*board),
            delta <= MAX_DELTA_MS,
        ensures
            final(world).entities@.len() == old(world).entities@.len(),
            forall|k: int|
                0 <= k < old(world).entities@.len() ==> final(world).entities@[k]
                    == spec_animation_step(*board, #[trigger] old(world).entities@[k], delta),
            final(world).wf(*board),
    {
        let n = world.entities.len();
        let mut idx: usize = 0;
        while idx < n
            invariant
                board.wf(),
                delta <= MAX_DELTA_MS,
                n == world.entities@.len(),
                n == old(world).entities@.len(),
                idx <= n,
                forall|k: int|
                    idx <= k < n ==> #[trigger] world.entities@[k] == old(world).entities@[k],
                forall|k: int|
                    0 <= k < idx ==> #[trigger] world.entities@[k] == spec_animation_step(
                        *board,
                        old(world).entities@[k],
                        delta,
                    ),
                forall|k: int| 0 <= k < n ==> #[trigger] world.entities@[k].inv(*board),
            decreases n - idx,
        {
            let e = world.entities[idx];
            proof {
                assert(world.entities@[idx as int].inv(*board));
            }
            match (
                e.velocity,
                e.animating,
                e.animation_time,
                e.grid_position,
                e.target_position,
                e.position,
            ) {
                (Some(vel), Some(anim), Some(at), Some(gp), Some(tp), Some(_pos)) => {
                    if anim.0 {
                        match tp.0 {
                            Some(target) => {
                                proof {
                                    assert(vel.x * delta <= MAX_RATE * MAX_DELTA_MS)
                                        by (nonlinear_arith)
                                        requires
                                            vel.x <= MAX_RATE,
                                            delta <= MAX_DELTA_MS,
                                    ;
                                }
                                let inc = vel.x as u64 * delta as u64;
                                let t1 = at.0 + inc;
                                let mut e2 = e;
                                if t1 > ANIM_SCALE {
                                    let new_gp = board.get_tile_coordinates(target);
                                    e2.animating = Some(Animating(false));
                                    e2.animation_time = Some(AnimationTime(0));
                                    e2.position = Some(Position(target));
                                    e2.grid_position = Some(GridPosition(new_gp));
                                    e2.target_position = Some(TargetPosition(None));
                                } else {
                                    let start = board.get_tile_center_world_coordinate(gp.0);
                                    let nx = lerp(start.x, target.x, t1);
                                    let ny = lerp(start.y, target.y, t1);
                                    e2.animation_time = Some(AnimationTime(t1));
                                    e2.position = Some(Position(WorldPoint { x: nx, y: ny }));
                                }
                                world.entities[idx] = e2;
                            },
                            None => {
                                // Excluded by the entity invariant: an
                                // animating entity always has a latched
                                // target.
                            },
                        }
                    }
                },
                _ => {},
            }
            idx = idx + 1;
        }
    }
}

} // verus!
