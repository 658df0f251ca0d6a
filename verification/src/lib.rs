//! Verified support logic for an OpenGL triangle/quad renderer driven by GLFW.
//!
//! The unverified front end (window creation, GL calls, image loading) lives in
//! the application crate; everything that decides or computes — input-edge
//! detection and polygon-mode cycling, shader info-log extraction, vertex
//! attribute layout arithmetic, index-buffer validation, and texture size
//! checks — lives here, with contracts.

pub mod infolog;
pub mod input;
pub mod layout;
pub mod texture;
