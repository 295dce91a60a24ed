//! Voxel terrain rendering core: a block grid, a per-block visibility
//! classifier, a chunk model builder and a batched quad mesh emitter.

pub mod grab;
pub mod mesh;
pub mod model;
pub mod render;
pub mod systems;
pub mod world;
