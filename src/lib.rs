//! Dispatch and composition for a real-time renderer: meshes with bounding boxes,
//! materials, objects that turn into draw calls through a cache of shader programs,
//! instanced wireframes, and the decisions of an immediate-mode GUI overlay.
//! Coordinates are fixed point, in thousandths of a scene unit; the GPU layer issues
//! the draw calls.

pub mod bounding_box;
pub mod context;
pub mod draw;
pub mod event;
pub mod geometry;
pub mod gui;
pub mod instanced;
pub mod light;
pub mod material;
pub mod mesh;
pub mod model;
pub mod render_states;
