//! The entity store: an arena of entities, each a set of components, and
//! the frame step that drives every entity's facing and animation.
//!
//! An entity is known by its index in the arena. Entities are never
//! removed, so an index stays valid for the life of the world. No entity
//! refers to another: a frame advances each of them on its own.

use crate::animation::{Animation, AnimationState};
use crate::components::common::{Position, Renderable};
use crate::direction::Direction;
use crate::facing::{Facing, FacingState};
use crate::movement::{Layout, RenderTransform, WorldPosition};
use vstd::prelude::*;

verus! {

/// The identity of an entity: its index in the arena of its world.
#[derive(Clone, Copy, Debug, PartialEq, Eq, Structural)]
pub struct EntityId(pub usize);

/// Why a set of components cannot be spawned.
#[derive(Clone, Copy, Debug, PartialEq, Eq, Structural)]
pub enum SpawnError {
    /// The set has an animation but no facing to take the direction from.
    MissingFacing,
    /// The set has an animation but no world position to move.
    MissingWorldPosition,
}

/// A choice of component kinds. An entity matches the mask when it has
/// every kind that the mask names.
#[derive(Clone, Copy, Debug, PartialEq, Eq, Structural)]
pub struct ComponentMask {
    pub position: bool,
    pub world_position: bool,
    pub transform: bool,
    pub renderable: bool,
    pub facing: bool,
    pub animation: bool,
    pub player: bool,
}

/// The components of one entity, over the natural numbers.
pub struct EntityState {
    pub position: Option<Position>,
    pub world_position: Option<WorldPosition>,
    pub transform: Option<RenderTransform>,
    pub renderable: Option<Renderable>,
    pub facing: Option<FacingState>,
    pub animation: Option<AnimationState>,
    pub player: bool,
}

impl EntityState {
    /// The timers of the entity are well formed.
    pub open spec fn parts_wf(self) -> bool {
        &&& self.facing matches Some(f) ==> f.wf()
        &&& self.animation matches Some(a) ==> a.wf()
    }

    /// What is missing for the animation of this set, if anything: an
    /// animation needs a facing and a world position beside it.
    pub open spec fn spawn_error(self) -> Option<SpawnError> {
        if self.animation is Some && self.facing is None {
            Some(SpawnError::MissingFacing)
        } else if self.animation is Some && self.world_position is None {
            Some(SpawnError::MissingWorldPosition)
        } else {
            None
        }
    }

    /// The invariant of an entity of a world: its timers are well formed,
    /// and an animation never stands without a facing and a world
    /// position.
    pub open spec fn wf(self) -> bool {
        &&& self.parts_wf()
        &&& self.spawn_error() is None
    }

    /// Whether the entity has every kind of component that `mask` names.
    pub open spec fn matches(self, mask: ComponentMask) -> bool {
        &&& mask.position ==> self.position is Some
        &&& mask.world_position ==> self.world_position is Some
        &&& mask.transform ==> self.transform is Some
        &&& mask.renderable ==> self.renderable is Some
        &&& mask.facing ==> self.facing is Some
        &&& mask.animation ==> self.animation is Some
        &&& mask.player ==> self.player
    }

    /// The facing after a frame of length `delta`.
    pub open spec fn facing_after(self, delta: nat) -> Option<FacingState> {
        match self.facing {
            Some(f) => Some(f.advance(delta)),
            None => None,
        }
    }

    /// Whether the frame of length `delta` makes the animation of this
    /// entity fire.
    pub open spec fn animation_fires(self, delta: nat) -> bool {
        &&& self.animation matches Some(a)
        &&& self.facing is Some
        &&& self.world_position is Some
        &&& a.timer.crosses(delta)
    }

    /// The entity after a frame of length `delta`.
    ///
    /// First the facing is advanced. Then the animation is advanced with
    /// the direction that the facing has now, and if it fired, the world
    /// position takes one grid step in that direction and the render
    /// transform is computed anew from the position. The other components
    /// stay as they are.
    pub open spec fn advance(self, delta: nat, layout: Layout) -> EntityState {
        let facing = self.facing_after(delta);
        if self.animation is Some && facing is Some && self.world_position is Some {
            let direction = facing->0.direction;
            let animation = Some(self.animation->0.advance(delta, direction));
            if self.animation_fires(delta) {
                let moved = self.world_position->0.spec_step(direction, layout);
                EntityState {
                    facing,
                    animation,
                    world_position: Some(moved),
                    transform: Some(layout.spec_project(moved)),
                    ..self
                }
            } else {
                EntityState { facing, animation, ..self }
            }
        } else {
            EntityState { facing, ..self }
        }
    }
}

/// The components of one entity. A component that the entity does not
/// have is `None`; the player marker is a flag.
#[derive(Clone, Copy, Debug, PartialEq, Eq)]
pub struct ComponentSet {
    /// The cell of the logical grid, for entities that are laid out on it.
    pub position: Option<Position>,
    /// The position in the continuous world, for entities that move.
    pub world_position: Option<WorldPosition>,
    /// Where the entity is drawn; computed from the world position each
    /// time the entity moves.
    pub transform: Option<RenderTransform>,
    pub renderable: Option<Renderable>,
    pub facing: Option<Facing>,
    pub animation: Option<Animation>,
    /// Marks the entity that the player controls.
    pub player: bool,
}

impl View for ComponentSet {
    type V = EntityState;

    open spec fn view(&self) -> EntityState {
        EntityState {
            position: self.position,
            world_position: self.world_position,
            transform: self.transform,
            renderable: self.renderable,
            facing: match self.facing {
                Some(f) => Some(f@),
                None => None,
            },
            animation: match self.animation {
                Some(a) => Some(a@),
                None => None,
            },
            player: self.player,
        }
    }
}

impl ComponentSet {
    /// The timers of the set are well formed. This holds of every set
    /// whose facing and animation were made by their constructors.
    pub open spec fn parts_wf(&self) -> bool {
        self@.parts_wf()
    }

    /// The invariant of an entity of a world.
    pub open spec fn wf(&self) -> bool {
        self@.wf()
    }

    /// Creates a set without any component.
    pub fn new() -> (set: ComponentSet)
        ensures
            set.wf(),
            set@ == (EntityState {
                position: None,
                world_position: None,
                transform: None,
                renderable: None,
                facing: None,
                animation: None,
                player: false,
            }),
    {
        ComponentSet {
            position: None,
            world_position: None,
            transform: None,
            renderable: None,
            facing: None,
            animation: None,
            player: false,
        }
    }

    /// Returns whether the set has every kind of component that `mask`
    /// names.
    pub fn matches(&self, mask: &ComponentMask) -> (b: bool)
        ensures
            b == self@.matches(*mask),
    {
        (!mask.position || self.position.is_some()) && (!mask.world_position
            || self.world_position.is_some()) && (!mask.transform || self.transform.is_some()) && (
        !mask.renderable || self.renderable.is_some()) && (!mask.facing || self.facing.is_some())
            && (!mask.animation || self.animation.is_some()) && (!mask.player || self.player)
    }

    /// Returns what is missing for the animation of this set, if
    /// anything.
    pub fn check(&self) -> (r: Result<(), SpawnError>)
        ensures
            r is Ok <==> self@.spawn_error() is None,
            r matches Err(e) ==> self@.spawn_error() == Some(e),
    {
        if self.animation.is_some() && self.facing.is_none() {
            Err(SpawnError::MissingFacing)
        } else if self.animation.is_some() && self.world_position.is_none() {
            Err(SpawnError::MissingWorldPosition)
        } else {
            Ok(())
        }
    }

    /// Advances the entity by a frame of length `delta`: the facing first,
    /// then the animation and the movement, which see the direction as
    /// the facing has left it.
    pub fn advance(&mut self, delta: u64, layout: &Layout)
        requires
            old(self).wf(),
            layout.wf(),
        ensures
            final(self).wf(),
            final(self)@ == old(self)@.advance(delta as nat, *layout),
    {
        match self.facing {
            Some(facing) => {
                let mut facing = facing;
                facing.advance(delta);
                self.facing = Some(facing);
                match (self.animation, self.world_position) {
                    (Some(animation), Some(position)) => {
                        let mut animation = animation;
                        let fired = animation.advance(delta, facing.direction());
                        self.animation = Some(animation);
                        if fired {
                            let moved = position.step(facing.direction(), layout);
                            self.world_position = Some(moved);
                            self.transform = Some(layout.project(moved));
                        }
                    },
                    _ => {},
                }
            },
            None => {},
        }
    }
}

/// The time that a frame advances the world by: the delta that the host
/// reports, or nothing if the host reports a negative delta.
pub open spec fn clamp_delta(delta: int) -> nat {
    if delta < 0 {
        0
    } else {
        delta as nat
    }
}

/// The state of a world: its layout and its entities, in the order in
/// which they were spawned.
#[verifier::ext_equal]
pub struct WorldState {
    pub layout: Layout,
    pub entities: Seq<EntityState>,
}

impl WorldState {
    /// A world without entities.
    pub open spec fn empty(layout: Layout) -> WorldState {
        WorldState { layout, entities: Seq::empty() }
    }

    /// The layout is usable and every entity satisfies its invariant.
    pub open spec fn wf(self) -> bool {
        &&& self.layout.wf()
        &&& forall|i: int| 0 <= i < self.entities.len() ==> (#[trigger] self.entities[i]).wf()
    }

    /// The identities of all entities, in the order in which they were
    /// spawned.
    pub open spec fn ids(self) -> Seq<EntityId> {
        Seq::new(self.entities.len(), |i: int| EntityId(i as usize))
    }

    /// The identities of the entities that match `mask`, in the order in
    /// which they were spawned.
    pub open spec fn matching(self, mask: ComponentMask) -> Seq<EntityId> {
        self.ids().filter(|id: EntityId| self.entities[id.0 as int].matches(mask))
    }

    /// The world with one more entity at the end of the arena.
    pub open spec fn spawn(self, entity: EntityState) -> WorldState {
        WorldState { entities: self.entities.push(entity), ..self }
    }

    /// The world after a frame for which the host reports the length
    /// `delta`: every entity is advanced by the clamped delta.
    pub open spec fn advance(self, delta: int) -> WorldState {
        WorldState {
            entities: Seq::new(
                self.entities.len(),
                |i: int| self.entities[i].advance(clamp_delta(delta), self.layout),
            ),
            ..self
        }
    }
}

/// A world of entities.
#[derive(Debug, PartialEq, Eq)]
pub struct World {
    layout: Layout,
    entities: Vec<ComponentSet>,
}

impl View for World {
    type V = WorldState;

    closed spec fn view(&self) -> WorldState {
        WorldState {
            layout: self.layout,
            entities: Seq::new(self.entities@.len(), |i: int| self.entities@[i]@),
        }
    }
}

impl World {
    /// The invariant of a world: its state is well formed.
    pub open spec fn wf(&self) -> bool {
        self@.wf()
    }

    /// Creates a world without entities. A layout whose grid lacks a
    /// column or a row has no cell size: there is no world for it.
    pub fn new(layout: Layout) -> (world: Option<World>)
        ensures
            world is Some <==> layout.wf(),
            world matches Some(w) ==> w.wf() && w@ == WorldState::empty(layout),
    {
        if layout.is_valid() {
            let world = World { layout, entities: Vec::new() };
            Some(world)
        } else {
            None
        }
    }

    /// The layout of the world.
    pub fn layout(&self) -> (layout: Layout)
        ensures
            layout == self@.layout,
    {
        self.layout
    }

    /// The number of entities.
    pub fn len(&self) -> (n: usize)
        ensures
            n == self@.entities.len(),
    {
        self.entities.len()
    }

    /// Adds an entity with exactly the given components, and returns its
    /// identity. A set whose animation lacks a facing or a world position
    /// is refused, and the world stays as it was.
    pub fn spawn(&mut self, components: ComponentSet) -> (r: Result<EntityId, SpawnError>)
        requires
            old(self).wf(),
            components.parts_wf(),
        ensures
            final(self).wf(),
            match r {
                Ok(id) => {
                    &&& components@.spawn_error() is None
                    &&& id.0 == old(self)@.entities.len()
                    &&& final(self)@ == old(self)@.spawn(components@)
                },
                Err(e) => {
                    &&& components@.spawn_error() == Some(e)
                    &&& final(self)@ == old(self)@
                },
            },
    {
        match components.check() {
            Ok(()) => {
                let id = EntityId(self.entities.len());
                self.entities.push(components);
                assert(self@ =~= old(self)@.spawn(components@));
                Ok(id)
            },
            Err(e) => Err(e),
        }
    }

    /// Returns the components of the entity `id`, or `None` when the
    /// world has no such entity.
    pub fn get(&self, id: EntityId) -> (r: Option<&ComponentSet>)
        ensures
            r is Some <==> id.0 < self@.entities.len(),
            r matches Some(c) ==> c@ == self@.entities[id.0 as int],
    {
        if id.0 < self.entities.len() {
            assert(self@.entities[id.0 as int] == self.entities[id.0 as int]@);
            Some(&self.entities[id.0])
        } else {
            None
        }
    }

    /// Returns the entities that have every kind of component that
    /// `mask` names, each once, in the order in which they were spawned.
    pub fn iterate(&self, mask: ComponentMask) -> (ids: Vec<EntityId>)
        ensures
            ids@ == self@.matching(mask),
    {
        let ghost all = self@.ids();
        let ghost wanted = |id: EntityId| self@.entities[id.0 as int].matches(mask);
        let mut ids: Vec<EntityId> = Vec::new();
        let mut i: usize = 0;
        while i < self.entities.len()
            invariant
                i <= self.entities.len(),
                all == self@.ids(),
                all.len() == self.entities.len(),
                wanted == |id: EntityId| self@.entities[id.0 as int].matches(mask),
                ids@ == all.take(i as int).filter(wanted),
            decreases self.entities.len() - i,
        {
            proof {
                reveal(Seq::filter);
                assert(all.take(i + 1).drop_last() =~= all.take(i as int));
            }
            if self.entities[i].matches(&mask) {
                ids.push(EntityId(i));
            }
            i += 1;
        }
        assert(all.take(i as int) =~= all);
        ids
    }

    /// Advances every entity by one frame. `delta` is the time that has
    /// passed since the last frame, as the host reports it; a negative
    /// delta counts as none.
    pub fn advance(&mut self, delta: i64)
        requires
            old(self).wf(),
        ensures
            final(self).wf(),
            final(self)@ == old(self)@.advance(delta as int),
    {
        let delta: u64 = if delta < 0 {
            0
        } else {
            delta as u64
        };
        let layout = self.layout;
        assert forall|j: int| 0 <= j < self.entities.len() implies (#[trigger] self.entities[
            j
        ]).wf() by {
            assert(self@.entities[j] == self.entities[j]@);
        }
        let mut i: usize = 0;
        while i < self.entities.len()
            invariant
                i <= self.entities.len(),
                self.entities.len() == old(self).entities.len(),
                self.layout == old(self).layout,
                layout == self.layout,
                layout.wf(),
                forall|j: int|
                    0 <= j < self.entities.len() ==> (#[trigger] self.entities[j]).wf(),
                forall|j: int|
                    0 <= j < i ==> (#[trigger] self.entities[j])@ == old(
                        self,
                    ).entities[j]@.advance(delta as nat, layout),
                forall|j: int|
                    i <= j < self.entities.len() ==> self.entities[j] == old(self).entities[j],
            decreases self.entities.len() - i,
        {
            let mut entity = self.entities[i];
            entity.advance(delta, &layout);
            self.entities.set(i, entity);
            i += 1;
        }
    }
}

/// When the animation of an entity fires, the entity takes one grid step
/// in the direction that it faces after the facing has been advanced in
/// the same frame: if the facing turns in this frame too, the step goes
/// the new way. The frame that is chosen lies in the row of that
/// direction, and the render transform is that of the new position.
pub proof fn lemma_fire_follows_newest_facing(entity: EntityState, delta: nat, layout: Layout)
    requires
        entity.wf(),
        layout.wf(),
        entity.animation_fires(delta),
    ensures
        ({
            let after = entity.advance(delta, layout);
            let before = entity.facing->0;
            let direction = if before.timer.crosses(delta) {
                before.direction.spec_next()
            } else {
                before.direction
            };
            &&& after.facing matches Some(f) && f.direction == direction
            &&& after.world_position == Some(
                entity.world_position->0.spec_step(direction, layout),
            )
            &&& after.transform == Some(layout.spec_project(after.world_position->0))
            &&& after.animation matches Some(a) && a.row() == direction.spec_rank()
                && a.phase() == (entity.animation->0.phase() + 1) % a.frame_count
        }),
{
    let animation = entity.animation->0;
    crate::animation::lemma_next_frame_index(
        animation.frame_index,
        animation.frame_count,
        entity.advance(delta, layout).facing->0.direction.spec_rank(),
    );
}

/// When the animation of an entity fires and the step has room in the
/// coordinate range, the entity moves by exactly one cell: facing down
/// lowers, facing up raises the vertical coordinate by the world's height
/// divided by the number of rows; facing left lowers, facing right raises
/// the horizontal coordinate by the world's width divided by the number of
/// columns. The other coordinate stays.
pub proof fn lemma_fire_moves_one_cell(entity: EntityState, delta: nat, layout: Layout)
    requires
        entity.wf(),
        layout.wf(),
        entity.animation_fires(delta),
        ({
            let from = entity.world_position->0;
            match entity.advance(delta, layout).facing->0.direction {
                Direction::Down => from.y - layout.spec_step_y() >= i32::MIN,
                Direction::Up => from.y + layout.spec_step_y() <= i32::MAX,
                Direction::Left => from.x - layout.spec_step_x() >= i32::MIN,
                Direction::Right => from.x + layout.spec_step_x() <= i32::MAX,
            }
        }),
    ensures
        ({
            let from = entity.world_position->0;
            let to = entity.advance(delta, layout).world_position->0;
            let cell_width = layout.world_width as int / layout.grid_cols as int;
            let cell_height = layout.world_height as int / layout.grid_rows as int;
            match entity.advance(delta, layout).facing->0.direction {
                Direction::Down => to.x == from.x && to.y == from.y - cell_height,
                Direction::Up => to.x == from.x && to.y == from.y + cell_height,
                Direction::Left => to.y == from.y && to.x == from.x - cell_width,
                Direction::Right => to.y == from.y && to.x == from.x + cell_width,
            }
        }),
{
}

/// When the animation of an entity does not fire, the entity neither
/// moves nor changes its frame or its render transform.
pub proof fn lemma_no_fire_no_step(entity: EntityState, delta: nat, layout: Layout)
    requires
        entity.wf(),
        !entity.animation_fires(delta),
    ensures
        ({
            let after = entity.advance(delta, layout);
            &&& after.world_position == entity.world_position
            &&& after.transform == entity.transform
            &&& entity.animation matches Some(a) ==> after.animation matches Some(b)
                && b.frame_index == a.frame_index
            &&& entity.animation is None ==> after.animation is None
        }),
{
}

/// A frame keeps the invariant of an entity, and neither adds nor removes
/// a component, but for the render transform that a moving entity gains.
pub proof fn lemma_advance_keeps_wf(entity: EntityState, delta: nat, layout: Layout)
    requires
        entity.wf(),
    ensures
        ({
            let after = entity.advance(delta, layout);
            &&& after.wf()
            &&& after.position == entity.position
            &&& after.renderable == entity.renderable
            &&& after.player == entity.player
            &&& after.facing is Some <==> entity.facing is Some
            &&& after.animation is Some <==> entity.animation is Some
            &&& after.world_position is Some <==> entity.world_position is Some
            &&& entity.transform is Some ==> after.transform is Some
        }),
{
    if entity.animation is Some {
        let animation = entity.animation->0;
        let rank = entity.advance(delta, layout).facing->0.direction.spec_rank();
        crate::animation::lemma_next_frame_index(
            animation.frame_index,
            animation.frame_count,
            rank,
        );
        assert(animation.frame_count * (rank + 1) <= animation.frame_count * 4)
            by (nonlinear_arith)
            requires
                rank <= 3,
        ;
    }
}

/// A frame keeps the invariant of a world and the number of its
/// entities, and advances each entity without regard to the others.
pub proof fn lemma_world_advance_keeps_wf(world: WorldState, delta: int)
    requires
        world.wf(),
    ensures
        world.advance(delta).wf(),
        world.advance(delta).layout == world.layout,
        world.advance(delta).entities.len() == world.entities.len(),
        forall|i: int|
            0 <= i < world.entities.len() ==> (#[trigger] world.advance(delta).entities[i])
                == world.entities[i].advance(clamp_delta(delta), world.layout),
        delta <= 0 ==> forall|i: int|
            0 <= i < world.entities.len() ==> (#[trigger] world.advance(delta).entities[i])
                == world.entities[i].advance(0, world.layout),
{
    assert forall|i: int| 0 <= i < world.entities.len() implies (#[trigger] world.advance(
        delta,
    ).entities[i]).wf() by {
        lemma_advance_keeps_wf(world.entities[i], clamp_delta(delta), world.layout);
    }
}

/// The entities that match a mask, among the first `n` of a world: each
/// of them matches, each that matches is among them, and they stand in
/// rising order.
proof fn lemma_matching_prefix(world: WorldState, mask: ComponentMask, n: int)
    requires
        0 <= n <= world.entities.len() <= usize::MAX,
    ensures
        ({
            let found = world.ids().take(n).filter(
                |id: EntityId| world.entities[id.0 as int].matches(mask),
            );
            &&& forall|j: int|
                0 <= j < found.len() ==> (#[trigger] found[j]).0 < n
                    && world.entities[found[j].0 as int].matches(mask)
            &&& forall|i: int|
                0 <= i < n && (#[trigger] world.entities[i]).matches(mask) ==> found.contains(
                    EntityId(i as usize),
                )
            &&& forall|j: int, k: int| 0 <= j < k < found.len() ==> found[j].0 < found[k].0
        }),
    decreases n,
{
    reveal(Seq::filter);
    let wanted = |id: EntityId| world.entities[id.0 as int].matches(mask);
    let found = world.ids().take(n).filter(wanted);
    if n > 0 {
        lemma_matching_prefix(world, mask, n - 1);
        let before = world.ids().take(n - 1).filter(wanted);
        assert(world.ids().take(n).drop_last() =~= world.ids().take(n - 1));
        assert forall|i: int|
            0 <= i < n && (#[trigger] world.entities[i]).matches(mask) implies found.contains(
            EntityId(i as usize),
        ) by {
            if i < n - 1 {
                let j = choose|j: int| 0 <= j < before.len() && before[j] == EntityId(i as usize);
                assert(found[j] == EntityId(i as usize));
            }
        }
    }
}

/// What `matching` yields: every entity that it yields matches the mask,
/// every entity that matches the mask is yielded, and the entities come
/// in the order of their identities, so none comes twice.
pub proof fn lemma_matching(world: WorldState, mask: ComponentMask)
    requires
        world.entities.len() <= usize::MAX,
    ensures
        ({
            let found = world.matching(mask);
            &&& forall|j: int|
                0 <= j < found.len() ==> (#[trigger] found[j]).0 < world.entities.len()
                    && world.entities[found[j].0 as int].matches(mask)
            &&& forall|i: int|
                0 <= i < world.entities.len() && (#[trigger] world.entities[i]).matches(mask)
                    ==> found.contains(EntityId(i as usize))
            &&& forall|j: int, k: int| 0 <= j < k < found.len() ==> found[j].0 < found[k].0
        }),
{
    let n = world.entities.len() as int;
    lemma_matching_prefix(world, mask, n);
    assert(world.ids().take(n) =~= world.ids());
}

} // verus!
