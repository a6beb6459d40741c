//! Verified core of a small real-time renderer: the render-state machine,
//! camera key handling, the instance grid, frame command planning and
//! asset-shape checks, plus the page template model of the bundled server.
//!
//! GPU, window and file work stays with the caller; this crate decides what
//! that work should be and proves the decisions correct.

pub mod assets;
pub mod camera;
pub mod frame;
pub mod grid;
pub mod state;
pub mod surface;
pub mod templates;
