//! World bootstrap: the entities that a world starts with.
//!
//! A world starts with one player, who faces down and has the full set of
//! components that the frame step drives, and with a row of static
//! entities at evenly spaced columns of the logical grid, which have a grid
//! position and a glyph and nothing else.

use crate::animation::{Animation, AnimationState};
use crate::components::common::{Color, Position, Renderable};
use crate::direction::Direction;
use crate::facing::{Facing, FacingState};
use crate::movement::{Layout, WorldPosition};
use crate::world::{ComponentSet, EntityState, World, WorldState};
use vstd::prelude::*;

verus! {

/// Time between two turns of the player's facing, in microseconds, when
/// nothing else is configured.
pub const DEFAULT_FACING_PERIOD: u64 = 1_500_000;

/// Time between two frames of the player's animation, in microseconds,
/// when nothing else is configured.
pub const DEFAULT_ANIMATION_PERIOD: u64 = 100_000;

/// Frames in each row of the player's sprite sheet when nothing else is
/// configured.
pub const DEFAULT_FRAME_COUNT: u32 = 3;

/// Horizontal world coordinate at which the player starts when nothing
/// else is configured.
pub const DEFAULT_PLAYER_X: i32 = 320;

/// Vertical world coordinate at which the player starts when nothing
/// else is configured.
pub const DEFAULT_PLAYER_Y: i32 = 200;

/// Number of static entities when nothing else is configured.
pub const DEFAULT_STATIC_COUNT: u8 = 10;

/// Columns from one static entity to the next when nothing else is
/// configured.
pub const DEFAULT_STATIC_SPACING: u8 = 7;

/// Grid row of the static entities when nothing else is configured.
pub const DEFAULT_STATIC_ROW: i8 = 20;

/// The glyph of every entity when nothing else is configured.
pub const DEFAULT_GLYPH: char = '@';

/// The greatest column of the logical grid.
pub const MAX_COLUMN: u8 = 127;

/// Why a configuration cannot be used.
#[derive(Clone, Copy, Debug, PartialEq, Eq, Structural)]
pub enum ConfigError {
    /// The grid has no column, so a cell has no width.
    ZeroGridCols,
    /// The grid has no row, so a cell has no height.
    ZeroGridRows,
    /// The facing would turn without any time passing.
    ZeroFacingPeriod,
    /// The animation would move on without any time passing.
    ZeroAnimationPeriod,
    /// A row of the sprite sheet has no frame to cycle through.
    ZeroFrameCount,
    /// The last static entity would lie beyond `MAX_COLUMN`.
    StaticColumnOutOfRange,
}

/// The entities that a world starts with.
#[derive(Clone, Copy, Debug, PartialEq, Eq, Structural)]
pub struct Population {
    /// Time between two turns of the player's facing.
    pub facing_period: u64,
    /// Time between two frames of the player's animation.
    pub animation_period: u64,
    /// Frames in each row of the player's sprite sheet.
    pub frame_count: u32,
    /// Where the player starts in the continuous world.
    pub player_start: WorldPosition,
    pub player_renderable: Renderable,
    /// Number of static entities.
    pub static_count: u8,
    /// Columns from one static entity to the next; the first stands in
    /// column 0.
    pub static_spacing: u8,
    /// Grid row of the static entities.
    pub static_row: i8,
    pub static_renderable: Renderable,
}

/// All that the bootstrap of a world needs to know.
#[derive(Clone, Copy, Debug, PartialEq, Eq, Structural)]
pub struct Config {
    pub layout: Layout,
    pub population: Population,
}

impl Population {
    /// The population when nothing else is configured: a yellow player
    /// with the default periods and frame count at the default start
    /// position, and the default number of red static entities in the
    /// default row at the default spacing.
    pub open spec fn spec_default() -> Population {
        Population {
            facing_period: DEFAULT_FACING_PERIOD,
            animation_period: DEFAULT_ANIMATION_PERIOD,
            frame_count: DEFAULT_FRAME_COUNT,
            player_start: WorldPosition { x: DEFAULT_PLAYER_X, y: DEFAULT_PLAYER_Y },
            player_renderable: Renderable {
                glyph: DEFAULT_GLYPH,
                fg: Color::Yellow,
                bg: Color::Black,
            },
            static_count: DEFAULT_STATIC_COUNT,
            static_spacing: DEFAULT_STATIC_SPACING,
            static_row: DEFAULT_STATIC_ROW,
            static_renderable: Renderable {
                glyph: DEFAULT_GLYPH,
                fg: Color::Red,
                bg: Color::Black,
            },
        }
    }

    /// The first fault of the population, if it has one.
    pub open spec fn fault(self) -> Option<ConfigError> {
        if self.facing_period == 0 {
            Some(ConfigError::ZeroFacingPeriod)
        } else if self.animation_period == 0 {
            Some(ConfigError::ZeroAnimationPeriod)
        } else if self.frame_count == 0 {
            Some(ConfigError::ZeroFrameCount)
        } else if self.static_count > 0 && (self.static_count - 1) * self.static_spacing
            > MAX_COLUMN {
            Some(ConfigError::StaticColumnOutOfRange)
        } else {
            None
        }
    }

    /// The player as it starts in a world with the given layout: at its
    /// start position, drawn there, facing down, on the first frame of
    /// its animation.
    pub open spec fn player(self, layout: Layout) -> EntityState {
        EntityState {
            position: None,
            world_position: Some(self.player_start),
            transform: Some(layout.spec_project(self.player_start)),
            renderable: Some(self.player_renderable),
            facing: Some(FacingState::fresh(Direction::Down, self.facing_period as nat)),
            animation: Some(
                AnimationState::fresh(self.animation_period as nat, self.frame_count as nat),
            ),
            player: true,
        }
    }

    /// The static entity number `i`: it stands in column `i * static_spacing`
    /// of the row `static_row`, and has a glyph but neither timers nor a
    /// place in the continuous world.
    pub open spec fn static_entity(self, i: int) -> EntityState {
        EntityState {
            position: Some(Position { x: (i * self.static_spacing) as i8, y: self.static_row }),
            world_position: None,
            transform: None,
            renderable: Some(self.static_renderable),
            facing: None,
            animation: None,
            player: false,
        }
    }

    /// The whole population in the order in which it is spawned: the
    /// player, then the static entities from column 0 on.
    pub open spec fn entities(self, layout: Layout) -> Seq<EntityState> {
        seq![self.player(layout)] + Seq::new(
            self.static_count as nat,
            |i: int| self.static_entity(i),
        )
    }

    /// Returns the first fault of the population, if it has one.
    pub fn check(&self) -> (r: Result<(), ConfigError>)
        ensures
            r is Ok <==> self.fault() is None,
            r matches Err(e) ==> self.fault() == Some(e),
    {
        if self.facing_period == 0 {
            Err(ConfigError::ZeroFacingPeriod)
        } else if self.animation_period == 0 {
            Err(ConfigError::ZeroAnimationPeriod)
        } else if self.frame_count == 0 {
            Err(ConfigError::ZeroFrameCount)
        } else if self.static_count > 0 {
            let gaps: u16 = self.static_count as u16 - 1;
            let spacing: u16 = self.static_spacing as u16;
            assert(gaps * spacing <= 254 * 255) by (nonlinear_arith)
                requires
                    0 <= gaps <= 254,
                    0 <= spacing <= 255,
            ;
            if gaps * spacing > MAX_COLUMN as u16 {
                Err(ConfigError::StaticColumnOutOfRange)
            } else {
                Ok(())
            }
        } else {
            Ok(())
        }
    }
}

impl Default for Population {
    fn default() -> (population: Population)
        ensures
            population == Population::spec_default(),
            population.fault() is None,
    {
        assert((DEFAULT_STATIC_COUNT - 1) * DEFAULT_STATIC_SPACING == 63) by (nonlinear_arith)
            requires
                DEFAULT_STATIC_COUNT == 10,
                DEFAULT_STATIC_SPACING == 7,
        ;
        Population {
            facing_period: DEFAULT_FACING_PERIOD,
            animation_period: DEFAULT_ANIMATION_PERIOD,
            frame_count: DEFAULT_FRAME_COUNT,
            player_start: WorldPosition { x: DEFAULT_PLAYER_X, y: DEFAULT_PLAYER_Y },
            player_renderable: Renderable {
                glyph: DEFAULT_GLYPH,
                fg: Color::Yellow,
                bg: Color::Black,
            },
            static_count: DEFAULT_STATIC_COUNT,
            static_spacing: DEFAULT_STATIC_SPACING,
            static_row: DEFAULT_STATIC_ROW,
            static_renderable: Renderable {
                glyph: DEFAULT_GLYPH,
                fg: Color::Red,
                bg: Color::Black,
            },
        }
    }
}

impl Config {
    /// The first fault of the configuration, if it has one: those of the
    /// layout come before those of the population.
    pub open spec fn fault(self) -> Option<ConfigError> {
        if self.layout.grid_cols == 0 {
            Some(ConfigError::ZeroGridCols)
        } else if self.layout.grid_rows == 0 {
            Some(ConfigError::ZeroGridRows)
        } else {
            self.population.fault()
        }
    }

    /// Returns the first fault of the configuration, if it has one.
    pub fn check(&self) -> (r: Result<(), ConfigError>)
        ensures
            r is Ok <==> self.fault() is None,
            r matches Err(e) ==> self.fault() == Some(e),
    {
        if self.layout.grid_cols == 0 {
            Err(ConfigError::ZeroGridCols)
        } else if self.layout.grid_rows == 0 {
            Err(ConfigError::ZeroGridRows)
        } else {
            self.population.check()
        }
    }
}

impl Default for Config {
    /// The default layout with the default population.
    fn default() -> (config: Config)
        ensures
            config.layout == Layout::spec_default(),
            config.population == Population::spec_default(),
            config.fault() is None,
    {
        Config { layout: Layout::default(), population: Population::default() }
    }
}

/// Spawns the population into `world`: the player first, then the static
/// entities. A population with a fault is refused, and the world stays as
/// it was.
pub fn setup(world: &mut World, population: &Population) -> (r: Result<(), ConfigError>)
    requires
        old(world).wf(),
    ensures
        final(world).wf(),
        match r {
            Ok(()) => {
                &&& population.fault() is None
                &&& final(world)@ == (WorldState {
                    entities: old(world)@.entities + population.entities(old(world)@.layout),
                    ..old(world)@
                })
            },
            Err(e) => {
                &&& population.fault() == Some(e)
                &&& final(world)@ == old(world)@
            },
        },
{
    match population.check() {
        Err(e) => { return Err(e); },
        Ok(()) => {},
    }
    let layout = world.layout();
    let ghost start = world@.entities;

    let mut player = ComponentSet::new();
    player.world_position = Some(population.player_start);
    player.transform = Some(layout.project(population.player_start));
    player.renderable = Some(population.player_renderable);
    player.facing = Facing::new(Direction::Down, population.facing_period);
    player.animation = Animation::new(population.animation_period, population.frame_count);
    player.player = true;
    let spawned = world.spawn(player);
    assert(spawned is Ok);

    let mut i: u8 = 0;
    while i < population.static_count
        invariant
            i <= population.static_count,
            population.fault() is None,
            world.wf(),
            world@.layout == layout,
            world@.entities == start + seq![population.player(layout)] + Seq::new(
                i as nat,
                |k: int| population.static_entity(k),
            ),
        decreases population.static_count - i,
    {
        assert(i * population.static_spacing <= MAX_COLUMN) by (nonlinear_arith)
            requires
                i <= population.static_count - 1,
                (population.static_count - 1) * population.static_spacing <= MAX_COLUMN,
                population.static_spacing >= 0,
        ;
        let column: u16 = i as u16 * population.static_spacing as u16;
        let mut entity = ComponentSet::new();
        entity.position = Some(Position { x: column as i8, y: population.static_row });
        entity.renderable = Some(population.static_renderable);
        let spawned = world.spawn(entity);
        assert(spawned is Ok);
        i += 1;
    }
    Ok(())
}

/// Creates a world for `config` and spawns its population. A
/// configuration with a fault is refused.
pub fn bootstrap(config: &Config) -> (r: Result<World, ConfigError>)
    ensures
        match r {
            Ok(world) => {
                &&& config.fault() is None
                &&& world.wf()
                &&& world@ == (WorldState {
                    layout: config.layout,
                    entities: config.population.entities(config.layout),
                })
            },
            Err(e) => config.fault() == Some(e),
        },
{
    match World::new(config.layout) {
        Some(world) => {
            let mut world = world;
            match setup(&mut world, &config.population) {
                Ok(()) => Ok(world),
                Err(e) => Err(e),
            }
        },
        None => if config.layout.grid_cols == 0 {
            Err(ConfigError::ZeroGridCols)
        } else {
            Err(ConfigError::ZeroGridRows)
        },
    }
}

} // verus!
