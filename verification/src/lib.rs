//! Core of a Gauss-method initial-orbit-determination pipeline.
//!
//! The library models astrometric observations, groups them into
//! per-object trajectories, converts orbits between the three standard
//! element representations, and orchestrates per-trajectory orbit
//! estimation with cooperative cancellation. Floating-point values travel
//! as IEEE-754 bit patterns; the numerical work itself (trigonometric
//! conversions, unit scaling, the Gauss solver) is performed by the outfit
//! engine behind a small trusted boundary, and every decision around it is
//! specified and proved.

pub mod batch;
pub mod convert;
pub mod elements;
pub mod environment;
pub mod errors;
pub mod iod_gauss;
pub mod observations;
pub mod orchestrator;

pub mod trajectories;
