//! The capture/annotation state machine of a screen-capture tool: region
//! selection over a captured image (whole screen, a detected window or a
//! dragged rectangle) and the ordered list of shapes drawn on top of it.

pub mod geometry;
pub mod models;
pub mod catalog;
pub mod label;
pub mod capture_window;
pub mod laws;
