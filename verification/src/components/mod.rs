//! Plain data that can be attached to an entity.

pub mod common;
