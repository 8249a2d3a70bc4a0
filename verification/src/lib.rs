//! Host-side core of a progressive path-tracing viewer.
//!
//! The GPU averages successive noisy samples of one view into a running
//! estimate. This crate holds the part of that scheme which runs on the host
//! and has to be right on every frame: the uniform block handed to the GPU
//! program, the ping-pong protocol over the two accumulation buffers, and the
//! per-frame driver that ties the two together.
//!
//! Nothing here touches a device. Each function goes from plain values to
//! plain values, and the embedding application turns the descriptions it gets
//! back into device resources and submissions.

pub mod accumulation;
pub mod gpu;
pub mod input;
pub mod render;
pub mod surface;
pub mod uniforms;
