//! Display adapter between a graphics renderer's flush callback and a
//! pixel-addressed drawing surface.
//!
//! The renderer hands over a rectangular area together with a packed,
//! row-major buffer of native colors. This crate turns such a flush into the
//! exact sequence of pixel writes the surface has to receive, sizes the render
//! buffers the renderer draws into, and decides what is signalled back once
//! the surface is done.

pub mod area;
pub mod color;
pub mod display;
pub mod region;
