//! The component store and the tick scheduler.
//!
//! Entities are plain records of optional components, created once at
//! world setup and persisting for the process lifetime. A system touches
//! an entity only when the entity carries every component the system
//! joins on. One tick runs the movement system and then the animation
//! system over all entities, sharing one time delta.

use vstd::prelude::*;
use vstd::arithmetic::div_mod::lemma_fundamental_div_mod;
use vstd::arithmetic::div_mod::lemma_fundamental_div_mod_converse;
use crate::grid::Board;
use crate::grid::GridCoordinate;
use crate::grid::GridDirection;
use crate::grid::lemma_world_to_grid_center_roundtrip;
use crate::input::Control;
use crate::input::Controllable;
use crate::input::InputMapping;
use crate::input::KeyboardInput;
use crate::input::spec_movement_step;
use crate::positioning::Move;
use crate::positioning::spec_animation_step;
use crate::positioning::ANIM_SCALE;
use crate::positioning::Animating;
use crate::positioning::AnimationTime;
use crate::positioning::Direction;
use crate::positioning::GridPosition;
use crate::positioning::MAX_RATE;
use crate::positioning::Position;
use crate::positioning::TargetPosition;
use crate::positioning::Velocity;

verus! {

/// Upper bound on one tick's time delta, in milliseconds.
pub const MAX_DELTA_MS: u32 = 1_000_000;

/// Time elapsed since the previous tick, in milliseconds. Delivered once
/// per tick by the clock collaborator.
#[derive(Clone, Copy, Debug, PartialEq, Eq, Structural)]
pub struct DeltaTime(pub u32);

/// One entity: a record of the components it carries. `None` means the
/// entity does not carry that component, and no system ever adds or
/// removes a component — only values inside present components change.
#[derive(Clone, Copy, Debug, PartialEq, Eq)]
pub struct Entity {
    pub position: Option<Position>,
    pub grid_position: Option<GridPosition>,
    pub target_position: Option<TargetPosition>,
    pub velocity: Option<Velocity>,
    pub direction: Option<Direction>,
    pub animating: Option<Animating>,
    pub animation_time: Option<AnimationTime>,
    pub controllable: Option<Controllable>,
    pub input_mapping: Option<InputMapping>,
}

impl Entity {
    /// An entity with no components; setup code fills in the ones it needs.
    pub fn new() -> (e: Entity)
        ensures
            e == (Entity {
                position: None,
                grid_position: None,
                target_position: None,
                velocity: None,
                direction: None,
                animating: None,
                animation_time: None,
                controllable: None,
                input_mapping: None,
            }),
    {
        Entity {
            position: None,
            grid_position: None,
            target_position: None,
            velocity: None,
            direction: None,
            animating: None,
            animation_time: None,
            controllable: None,
            input_mapping: None,
        }
    }

    /// Entity-creation contract for setup code: an idle actor standing at
    /// the centre of `start`, carrying the full movement and animation
    /// component sets, responding to input through `mapping`. Establishes
    /// the per-entity invariant against `board`.
    pub fn new_actor(
        board: &Board,
        start: GridCoordinate,
        velocity: Velocity,
        facing: GridDirection,
        mapping: InputMapping,
    ) -> (e: Entity)
        requires
            board.wf(),
            board.in_bounds(start),
            velocity.x <= MAX_RATE,
            velocity.y <= MAX_RATE,
        ensures
            e.inv(*board),
            e.has_movement_components(),
            e.has_animation_components(),
            e.position == Some(Position(board.spec_center(start))),
            e.grid_position == Some(GridPosition(start)),
            e.target_position == Some(TargetPosition(None)),
            e.velocity == Some(velocity),
            e.direction == Some(Direction(facing)),
            e.animating == Some(Animating(false)),
            e.animation_time == Some(AnimationTime(0)),
            e.controllable == Some(Controllable),
            e.input_mapping == Some(mapping),
    {
        let center = board.get_tile_center_world_coordinate(start);
        Entity {
            position: Some(Position(center)),
            grid_position: Some(GridPosition(start)),
            target_position: Some(TargetPosition(None)),
            velocity: Some(velocity),
            direction: Some(Direction(facing)),
            animating: Some(Animating(false)),
            animation_time: Some(AnimationTime(0)),
            controllable: Some(Controllable),
            input_mapping: Some(mapping),
        }
    }

    /// The component set the movement system joins on.
    pub open spec fn has_movement_components(self) -> bool {
        &&& self.controllable is Some
        &&& self.position is Some
        &&& self.animating is Some
        &&& self.direction is Some
        &&& self.target_position is Some
        &&& self.input_mapping is Some
    }

    /// The component set the animation system joins on.
    pub open spec fn has_animation_components(self) -> bool {
        &&& self.velocity is Some
        &&& self.animating is Some
        &&& self.animation_time is Some
        &&& self.grid_position is Some
        &&& self.target_position is Some
        &&& self.position is Some
    }

    /// Per-entity invariant, relative to the board the systems run
    /// against. Established at setup and preserved by every tick:
    /// positions stay on the board, rates and progress stay bounded, and
    /// `Animating` is set exactly when a target is latched.
    pub open spec fn inv(self, b: Board) -> bool {
        &&& (self.position matches Some(p) ==> b.in_world(p.0))
        &&& (self.grid_position matches Some(g) ==> b.in_bounds(g.0))
        &&& (self.target_position matches Some(TargetPosition(Some(t))) ==> b.in_world(t))
        &&& (self.velocity matches Some(v) ==> v.x <= MAX_RATE && v.y <= MAX_RATE)
        &&& (self.animation_time matches Some(t) ==> t.0 <= ANIM_SCALE)
        &&& (match (self.animating, self.target_position) {
            (Some(a), Some(t)) => a.0 <==> t.0 is Some,
            _ => true,
        })
        &&& (match (self.animating, self.animation_time) {
            (Some(a), Some(t)) => !a.0 ==> t.0 == 0,
            _ => true,
        })
    }
}

/// The entity store: dense, indexed by position of creation. Entities are
/// only ever appended.
pub struct World {
    pub entities: Vec<Entity>,
}

impl World {
    /// Every entity of the world satisfies its invariant against `b`.
    pub open spec fn wf(self, b: Board) -> bool {
        forall|k: int| 0 <= k < self.entities@.len() ==> #[trigger] self.entities@[k].inv(b)
    }

    /// An empty world.
    pub fn new() -> (w: World)
        ensures
            w.entities@.len() == 0,
    {
        World { entities: Vec::new() }
    }

    /// Append one entity, built from the component set it is to carry.
    pub fn add_entity(&mut self, e: Entity)
        ensures
            final(self).entities@ == old(self).entities@.push(e),
    {
        self.entities.push(e);
    }
}

/// One full tick for one entity: the movement step, then the animation
/// step, over the shared input state and time delta.
pub open spec fn spec_tick_entity(b: Board, e: Entity, input: KeyboardInput, delta: u32) -> Entity {
    spec_animation_step(b, spec_movement_step(b, e, input), delta)
}

/// `n` full ticks for one entity under a constant input state and time
/// delta.
pub open spec fn spec_tick_iter(
    b: Board,
    e: Entity,
    input: KeyboardInput,
    delta: u32,
    n: nat,
) -> Entity
    decreases n,
{
    if n == 0 {
        e
    } else {
        spec_tick_entity(b, spec_tick_iter(b, e, input, delta, (n - 1) as nat), input, delta)
    }
}

/// One tick of the fixed pipeline: capture of input and of the time delta
/// happen outside, then the movement system runs strictly before the
/// animation system, so a movement latched this tick advances within the
/// same tick.
pub fn tick(input: &KeyboardInput, delta: DeltaTime, board: &Board, world: &mut World)
    requires
        board.wf(),
        old(world).wf(*board),
        delta.0 <= MAX_DELTA_MS,
    ensures
        final(world).entities@.len() == old(world).entities@.len(),
        forall|k: int|
            0 <= k < old(world).entities@.len() ==> final(world).entities@[k] == spec_tick_entity(
                *board,
                #[trigger] old(world).entities@[k],
                *input,
                delta.0,
            ),
        final(world).wf(*board),
{
    let control = Control;
    let mover = Move;
    control.run(input, board, world);
    mover.run(delta.0, board, world);
}

/// `n` movement steps for one entity under a constant input state.
pub open spec fn spec_movement_iter(b: Board, e: Entity, input: KeyboardInput, n: nat) -> Entity
    decreases n,
{
    if n == 0 {
        e
    } else {
        spec_movement_step(b, spec_movement_iter(b, e, input, (n - 1) as nat), input)
    }
}

/// Exclusivity of movement: once an entity is animating, repeated
/// movement steps — under any held input — leave it entirely unchanged
/// (in particular its target position and direction) until the animation
/// system clears the flag.
pub proof fn lemma_movement_exclusive(b: Board, e: Entity, input: KeyboardInput, n: nat)
    requires
        e.animating == Some(Animating(true)),
    ensures
        spec_movement_iter(b, e, input, n) == e,
    decreases n,
{
    if n > 0 {
        lemma_movement_exclusive(b, e, input, (n - 1) as nat);
    }
}

/// Idempotence of an idle tick: with no input held and no transition in
/// flight, one full tick leaves every component of the entity unchanged.
pub proof fn lemma_idle_tick_identity(b: Board, e: Entity, input: KeyboardInput, delta: u32)
    requires
        e.animating matches Some(a) ==> !a.0,
        forall|btn: u32| !input.spec_pressed(btn),
    ensures
        spec_tick_entity(b, e, input, delta) == e,
{
}

/// While the accumulated progress stays within the scale, each tick under
/// a constant rate keeps the entity animating, advances its progress by
/// exactly `velocity.x * delta`, and touches no component but the
/// animation time and the position.
proof fn lemma_animation_progress(b: Board, e: Entity, input: KeyboardInput, delta: u32, k: nat)
    requires
        b.wf(),
        e.has_animation_components(),
        e.animating == Some(Animating(true)),
        e.animation_time == Some(AnimationTime(0)),
        1 <= e.velocity->Some_0.x * delta,
        k * (e.velocity->Some_0.x * delta) <= ANIM_SCALE,
    ensures
        ({
            let it = spec_tick_iter(b, e, input, delta, k);
            &&& it.animating == Some(Animating(true))
            &&& it.animation_time == Some(
                AnimationTime((k * (e.velocity->Some_0.x * delta)) as u64),
            )
            &&& it.velocity == e.velocity
            &&& it.grid_position == e.grid_position
            &&& it.target_position == e.target_position
            &&& it.direction == e.direction
            &&& it.controllable == e.controllable
            &&& it.input_mapping == e.input_mapping
            &&& it.position is Some
        }),
    decreases k,
{
    let rate = e.velocity->Some_0.x * delta;
    if k == 0 {
        assert(k * rate == 0) by (nonlinear_arith)
            requires
                k == 0,
        ;
    } else {
        assert((k - 1) * rate + rate == k * rate) by (nonlinear_arith);
        assert(0 <= (k - 1) * rate) by (nonlinear_arith)
            requires
                1 <= rate,
                0 <= k - 1,
        ;
        lemma_animation_progress(b, e, input, delta, (k - 1) as nat);
    }
}

/// Completion of an animation: starting a transition towards the centre
/// of `dest` at progress zero, under a constant per-tick rate
/// `velocity.x * delta`, the entity stays animating with linearly growing
/// progress for `floor(ANIM_SCALE / rate) + 1` ticks, and on the last of
/// those the transition finalizes: animating cleared, progress reset,
/// position snapped to the target centre, and the grid position equal to
/// the originally targeted coordinate.
pub proof fn lemma_animation_completion(
    b: Board,
    e: Entity,
    input: KeyboardInput,
    delta: u32,
    dest: GridCoordinate,
)
    requires
        b.wf(),
        e.has_animation_components(),
        e.animating == Some(Animating(true)),
        e.animation_time == Some(AnimationTime(0)),
        1 <= e.velocity->Some_0.x * delta,
        b.in_bounds(dest),
        e.target_position == Some(TargetPosition(Some(b.spec_center(dest)))),
    ensures
        ({
            let rate = e.velocity->Some_0.x * delta;
            let steps = ANIM_SCALE as int / rate + 1;
            let done = spec_tick_iter(b, e, input, delta, steps as nat);
            &&& forall|k: int|
                0 <= k < steps ==> (#[trigger] spec_tick_iter(b, e, input, delta, k as nat))
                    .animating == Some(Animating(true))
            &&& forall|k: int|
                0 <= k < steps ==> (#[trigger] spec_tick_iter(b, e, input, delta, k as nat))
                    .animation_time == Some(AnimationTime((k * rate) as u64))
            &&& done.animating == Some(Animating(false))
            &&& done.animation_time == Some(AnimationTime(0))
            &&& done.grid_position == Some(GridPosition(dest))
            &&& done.target_position == Some(TargetPosition(None))
            &&& done.position == Some(Position(b.spec_center(dest)))
        }),
{
    let rate = e.velocity->Some_0.x * delta;
    let full = ANIM_SCALE as int / rate;
    lemma_fundamental_div_mod(ANIM_SCALE as int, rate);
    assert(full * rate <= ANIM_SCALE < full * rate + rate);
    assert forall|k: int|
        0 <= k < full + 1 implies ((#[trigger] spec_tick_iter(b, e, input, delta, k as nat))
        .animating == Some(Animating(true)) && spec_tick_iter(b, e, input, delta, k as nat)
        .animation_time == Some(AnimationTime((k * rate) as u64))) by {
        assert(k * rate <= full * rate) by (nonlinear_arith)
            requires
                k <= full,
                1 <= rate,
        ;
        assert(0 <= k * rate) by (nonlinear_arith)
            requires
                0 <= k,
                0 <= rate,
        ;
        lemma_animation_progress(b, e, input, delta, k as nat);
    }
    lemma_animation_progress(b, e, input, delta, full as nat);
    let prev = spec_tick_iter(b, e, input, delta, full as nat);
    assert(spec_movement_step(b, prev, input) == prev);
    lemma_world_to_grid_center_roundtrip(b, dest);
    assert(spec_tick_iter(b, e, input, delta, (full + 1) as nat) == spec_tick_entity(
        b,
        prev,
        input,
        delta,
    ));
}

/// The tick count of [`lemma_animation_completion`] expressed as a
/// ceiling: whenever the per-tick rate does not divide the progress scale
/// evenly, `floor(ANIM_SCALE / rate) + 1 == ceil(ANIM_SCALE / rate)`.
/// (When the rate divides the scale, completion takes one tick more than
/// the ceiling, because the transition only finalizes once progress
/// strictly exceeds the full scale.)
pub proof fn lemma_completion_ticks_ceil(rate: int)
    requires
        1 <= rate,
        ANIM_SCALE as int % rate != 0,
    ensures
        ANIM_SCALE as int / rate + 1 == (ANIM_SCALE + rate - 1) / rate,
{
    let full = ANIM_SCALE as int / rate;
    let m = ANIM_SCALE as int % rate;
    lemma_fundamental_div_mod(ANIM_SCALE as int, rate);
    assert(ANIM_SCALE + rate - 1 == (full + 1) * rate + (m - 1)) by (nonlinear_arith)
        requires
            ANIM_SCALE == rate * full + m,
    ;
    lemma_fundamental_div_mod_converse(ANIM_SCALE + rate - 1, rate, full + 1, m - 1);
}

} // verus!
