//! Verified core of a cycling race visualizer: the binary race data formats,
//! the index and layout computations behind the meshes and the glyph atlas,
//! and the view controller that decides how the application reacts to input.

pub mod wire;
pub mod profile;
pub mod global_mesh;
pub mod geometry;
pub mod atlas;
pub mod view;
pub mod races;
pub mod legacy;
