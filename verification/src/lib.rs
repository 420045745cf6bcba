//! Escape-time fractal rendering support: viewport dimensions with an
//! overflow-checked size invariant, validated iteration-count images with a
//! deterministic grayscale conversion, the integer half of the pixel-to-plane
//! coordinate mapping, and the CPU renderer's buffer management.

pub mod cpu;
pub mod coords;
pub mod dimensions;
pub mod error;
pub mod iteration_image;
