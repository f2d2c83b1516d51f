//! Shading stage of a software renderer for a small solar system.
//!
//! The colour rules that pick a planet's surface colour live here, proved
//! against their specification. Geometry on floating-point vectors and the
//! noise field itself are the caller's part: the caller samples the noise
//! where [`shaders::noise_scale`] says, and hands the raw bits of the sample
//! to [`shaders::noise_above_zero`].

pub mod color;
pub mod shaders;
