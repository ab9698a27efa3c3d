//! Screen-space radiance cascades for 2D scenes.
//!
//! The crate models the compute pipeline of a 2D global-illumination
//! renderer: emitter and occluder shapes are flattened into GPU-ready
//! record arrays, a signed-distance proxy is rasterized from them, a
//! stack of radiance cascades is ray-marched and folded over a pair of
//! ping-pong buffers, a light pyramid is downsampled from the merged
//! result, and the final image is composited. Everything the CPU side
//! decides — scaled resolutions, render-target layouts, probe uniform
//! arrays, pass ordering and buffer selection — is computed and verified
//! here on plain values; issuing the actual GPU work from these plans is
//! left to a host shell.
//!
//! Scalar quantities that the GPU consumes as 32-bit floats (positions,
//! radii, colors, intensities, ray intervals) are carried as their raw
//! 32-bit patterns: the pipeline only moves them, so the bit pattern is
//! the exact value the GPU receives. The one scalar the CPU does
//! arithmetic on, the downscale factor, is held in thousandths.

pub mod config;
pub mod flags;
pub mod frame;
pub mod light;
pub mod pipeline;
pub mod probe;
pub mod sdf;
pub mod size;
pub mod targets;
pub mod view;
