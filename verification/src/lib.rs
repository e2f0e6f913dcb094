//! Decision logic and texture preparation of a small egui demo that draws a
//! blurred window over a wgpu surface.
//!
//! The window system, the GPU and egui's immediate-mode UI are driven by the
//! application; this library decides what each event leads to, what a failed
//! frame leads to, and turns the embedded PNG into a texture image.

pub mod events;
pub mod frame;
pub mod texture;
