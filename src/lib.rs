//! Discrete core of a stochastic path tracer: render settings and the pixel
//! grid, the output frame buffer, the integrator's bounce and termination
//! rules, progress reporting and hex color parsing.
pub mod color;
pub mod frame;
pub mod trace;
pub mod settings;
pub mod progress;
