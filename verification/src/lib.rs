//! Keeps a scene graph of entities, each carrying a transform pair and an
//! abstract collision-shape/body definition, consistent with the state of an
//! external rigid-body simulation, and renders wireframe outlines of the
//! shapes for debugging.
//!
//! The crate models the engine-side stores and the handle registry as an
//! explicit context value, and exposes one operation per entity for each
//! pass of a simulation tick: lifecycle creation and removal, shape update,
//! transform push and pull, and outline rendering.

pub mod entity;
pub mod lifecycle;
pub mod math;
pub mod registry;
pub mod render;
pub mod shape;
pub mod sync;
pub mod world;
