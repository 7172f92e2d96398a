//! A terminal renderer for a rotating torus drawn as character-cell art.
//!
//! The rendering pipeline works on fixed-point integers: a geometry sampler
//! enumerates the surface, a depth-tested rasterizer paints projected sample
//! points into a frame buffer, and a brightness quantizer picks a character
//! from a fixed ramp. An animation state machine owns the rotation angles and
//! speeds and reacts to keyboard commands; frame pacing keeps a steady tick.

pub mod animation;
pub mod events;
pub mod framebuffer;
pub mod luminance;
pub mod raster;
pub mod sampler;
pub mod timing;
