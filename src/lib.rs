//! A minimal rendering frontend: scene ingestion into GPU buffer layouts, a fixed
//! pipeline description, the presentation surface configuration, and the
//! event/frame state machine that decides what the window loop does next.
//!
//! Floating-point values (positions, colors) travel through the library as
//! their IEEE-754 bit patterns (`f32::to_bits`), which is exactly what is
//! uploaded to the GPU.

pub mod geometry;
pub mod surface;
pub mod pipeline;
pub mod frame;
