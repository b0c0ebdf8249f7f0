//! The core of a small frame-stepped entity simulation on a grid.
//!
//! A world holds entities, each a set of components. Once per frame the
//! host hands the world the time that has passed. Two timers drive an
//! animated entity: a slow one turns the direction that the entity faces,
//! a fast one chooses the next frame of its sprite sheet and moves the
//! entity one grid cell in that direction. Within a frame the facing is
//! settled first, so the step and the frame always follow the newest
//! direction.
//!
//! The crate does no drawing, loads no assets and reads no clock. The host
//! owns the window and the clock, calls [`startup::bootstrap`] once and
//! [`world::World::advance`] every frame, and reads what to draw through
//! [`world::World::iterate`] and [`world::World::get`].
//!
//! Every type with state has a mathematical model, its view, and the
//! functions are specified over these models:
//!
//! - [`timer`]: the countdown timer that everything else is driven by
//! - [`direction`]: the four directions and the cycle they turn in
//! - [`facing`]: a direction with the timer that turns it
//! - [`animation`]: a frame index with the timer that moves it on
//! - [`movement`]: grid steps in the continuous world, and render transforms
//! - [`components`]: the plain components, grid position and glyph
//! - [`world`]: the entity store and the frame step
//! - [`startup`]: the entities that a world starts with

pub mod animation;
pub mod components;
pub mod direction;
pub mod facing;
pub mod movement;
pub mod startup;
pub mod timer;
pub mod world;
