//! Verified core of niri's HDR / wide-gamut color support.
//!
//! - [`color`]: the color data model (primaries, transfer functions, image
//!   descriptions) in exact fixed-point units.
//! - [`color_management`]: the request decisions of the `color-management-v1`
//!   protocol, as functions from object state and request to outcome.
//! - [`hdr`]: the HDR client buffer formats and their intersection with what the
//!   renderer can import.
//! - [`render`]: the render-element bookkeeping that does not touch the GPU.

pub mod color;
pub mod color_management;
pub mod hdr;
pub mod render;
