//! Verified core of an interactive glTF/OBJ model viewer.
//!
//! The library holds the decisions of the viewer: which keys and mouse buttons
//! are held, how a window event is routed, which dropped files are loaded,
//! which meshes a draw pass selects, how assets are cached and which render
//! passes are enabled. The platform layer (window, GPU, UI toolkit) performs
//! the work that these decisions name.

pub mod event;
pub mod input;
pub mod app;
pub mod text;
pub mod model;
pub mod postprocess;
pub mod named_map;
pub mod settings;
pub mod resources;
pub mod ui;
pub mod state;
