//! Geometry and interaction engine of a 2D vector-drawing canvas: a camera
//! over integer world coordinates, shapes with exact hit tests, a multi-click
//! placement state machine and the layer that owns the placed shapes.
pub mod component_layer;
pub mod components;
pub mod geometry;
pub mod placer;
pub mod state;
