//! Particle Life: the rules behind the simulation window.
//!
//! Interaction-matrix presets, the on-screen control panel, the camera, and the
//! per-frame state machine that decides what is uploaded, drawn and dispatched.
//! Every quantity is exact: lengths and interaction weights are fixed-point
//! integers and everything that involves a quotient is a [`units::Ratio`].
pub mod camera;
pub mod color;
pub mod grid;
pub mod laws;
pub mod model;
pub mod panel;
pub mod params;
pub mod presets;
pub mod random;
pub mod ui;
pub mod units;
