//! Synthesizes a small standalone program that runs an embedded shell command
//! on a chosen target platform, and models the invocation of a native compiler
//! on the synthesized source: escaping, template rendering, platform naming,
//! and compile-outcome classification.

pub mod driver;
pub mod platform;
pub mod synthesizer;
