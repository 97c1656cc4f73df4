//! Decision core of a bridge that mirrors desktop windows into a 3D scene.
//!
//! The library holds the rules: which windows are tracked, where they are
//! placed, when a window's texture chain is torn down and rebuilt, in which
//! order its resources are released, and what the render loop does with an
//! event. The display server, the GPU contexts, the compositor and the scene
//! graph are driven by the caller, who performs each requested action and
//! hands the outcome back as plain values.

pub mod error;
pub mod geometry;
pub mod ident;
pub mod compositor;
pub mod texture;
pub mod chain;
pub mod window;
pub mod registry;
pub mod render;
pub mod pass;
pub mod mapping;
pub mod history;
pub mod ledger;
