//! A small single-object renderer: a colored hexagon fan spun about the
//! z axis by a self-rescheduling frame loop.
//!
//! The verified part holds the decisions of the pipeline: when the canvas
//! backing store must be resized, how the geometry is laid out and expanded
//! into triangles, how each frame advances the spin, and which outcomes of
//! shader and resource setup are errors. Device calls and floating-point
//! matrix work are made by the host layer with the values computed here.

pub mod canvas;
pub mod frame;
pub mod geometry;
pub mod scene;
pub mod setup;

pub use canvas::{Canvas, CanvasSize};
pub use frame::{FrameLoop, FrameUpdate, Phase};
pub use geometry::{AttributeLayout, DrawCall, Geometry, GeometryError, Topology};
pub use scene::Scene;
pub use setup::{Resource, SetupError, ShaderStage};
