//! Real-time update/render orchestration for an interactive simulation.
//!
//! The crate advances a shared world once per frame through a fixed pipeline
//! of subsystems, translates raw input into domain events, smooths frame
//! timing and camera motion, and hands framebuffer captures to the caller as
//! sequence-ordered encode jobs.  All world coordinates are fixed-point
//! integers with [`geometry::FP_ONE`] micro-units to the world unit; all
//! durations are integer milliseconds or nanoseconds.

pub mod geometry;
pub mod cycle;
pub mod numeric;
pub mod timing;
pub mod camera;
pub mod input;
pub mod ev;
pub mod world;
pub mod systems;
pub mod app;
pub mod capture;
