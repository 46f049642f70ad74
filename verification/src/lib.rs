//! Discrete rules of a procedurally generated, navigable galaxy scene:
//! spectral classes and their colours, the schedule of deep-sky events,
//! colour jitter of nebula clouds and dust, speed tiers of the camera,
//! level-of-detail choices of the star renderer and the quality presets.
//!
//! Single-precision values that the rules compare (rolls, distances, wheel
//! movement) are handed over as their IEEE 754 binary32 encodings; see
//! [`ieee_order`].

pub mod color;
pub mod ieee_order;
pub mod star;
mod rng;
pub mod nebula;
pub mod events;
pub mod camera;
pub mod galaxy;
pub mod dust;
pub mod renderer;
pub mod shooting_star;
pub mod config;
pub mod blackhole;
