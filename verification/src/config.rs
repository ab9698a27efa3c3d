//! Radiance-cascade configuration.
//!
//! One configuration record is owned by the camera and hot-reloadable;
//! each frame it is packed, together with the frame's computed sizes,
//! into the flat record the GPU shaders read. Scalars the shaders use
//! as 32-bit floats (ray interval, edge highlight, light height) are
//! carried as raw bit patterns; the scale factor, which the CPU divides
//! by, is carried in thousandths.

use vstd::prelude::*;

verus! {

use crate::flags::GiFlags;
use crate::size::{computed_size_spec, valid_scale, ComputedSize, Extent, MAX_NATIVE_DIM,
    SCALE_ONE_MILLI};

/// Bit pattern of the 32-bit float 1.0.
pub const F32_BITS_ONE: u32 = 0x3F80_0000;

/// Bit pattern of the 32-bit float 2.0.
pub const F32_BITS_TWO: u32 = 0x4000_0000;

/// Bit pattern of the 32-bit float 6.0.
pub const F32_BITS_SIX: u32 = 0x40C0_0000;

/// Largest accepted cascade count.
pub const MAX_CASCADE_COUNT: u32 = 8;

/// Per-camera configuration of the radiance-cascade pipeline. Any
/// change to it invalidates the cached render targets and the GPU
/// configuration buffers.
#[derive(Clone, Copy, PartialEq, Eq, Structural, Debug)]
pub struct RadianceConfig {
    /// Base ray range, as 32-bit float bits.
    pub interval: u32,
    /// Screen-space downscale factor, in thousandths.
    pub scale_factor: u32,
    /// Number of cascade levels.
    pub cascade_count: u32,
    /// Probe base; base x base is the angular resolution.
    pub probe_base: u32,
    /// Edge highlighting strength, as 32-bit float bits.
    pub edge_highlight: u32,
    /// Height of the light plane, as 32-bit float bits.
    pub light_z: u32,
    /// Debug-visualization flags.
    pub flags: GiFlags,
}

impl RadianceConfig {
    pub open spec fn wf(self) -> bool {
        &&& 1 <= self.cascade_count <= MAX_CASCADE_COUNT
        &&& self.probe_base >= 1
        &&& valid_scale(self.scale_factor)
    }
}

pub open spec fn default_config() -> RadianceConfig {
    RadianceConfig {
        interval: F32_BITS_SIX,
        scale_factor: SCALE_ONE_MILLI,
        cascade_count: 6,
        probe_base: 1,
        edge_highlight: F32_BITS_ONE,
        light_z: F32_BITS_TWO,
        flags: GiFlags { bits: 0 },
    }
}

impl Default for RadianceConfig {
    /// Six cascades at native resolution with a base ray interval of
    /// six texels and no debug flags.
    fn default() -> (r: RadianceConfig)
        ensures
            r == default_config(),
            r.wf(),
    {
        RadianceConfig {
            interval: F32_BITS_SIX,
            scale_factor: SCALE_ONE_MILLI,
            cascade_count: 6,
            probe_base: 1,
            edge_highlight: F32_BITS_ONE,
            light_z: F32_BITS_TWO,
            flags: GiFlags { bits: 0 },
        }
    }
}

/// The flat configuration record uploaded once per view per frame and
/// bound to every pass. Field meanings match [`RadianceConfig`] and
/// [`ComputedSize`]; the host converts the fixed-point scale and the
/// float bit patterns into the shader's scalar types unchanged.
#[derive(Clone, Copy, PartialEq, Eq, Structural, Debug)]
pub struct GiGpuConfig {
    pub native: Extent,
    pub scaled: Extent,
    pub probe_base: u32,
    pub interval: u32,
    pub scale: u32,
    pub cascade_count: u32,
    pub flags: u32,
    pub edge_highlight: u32,
    pub light_z: u32,
}

/// The unique GPU configuration record for a viewport and configuration.
pub open spec fn gpu_config_spec(native: Extent, cfg: RadianceConfig) -> GiGpuConfig {
    GiGpuConfig {
        native,
        scaled: computed_size_spec(native, cfg.scale_factor).scaled,
        probe_base: cfg.probe_base,
        interval: cfg.interval,
        scale: cfg.scale_factor,
        cascade_count: cfg.cascade_count,
        flags: cfg.flags.bits,
        edge_highlight: cfg.edge_highlight,
        light_z: cfg.light_z,
    }
}

/// Packs the camera configuration and the viewport into the record the
/// shaders read. The scaled resolution written here is the same
/// even-padded resolution the render targets are allocated at.
pub fn prepare(native: Extent, cfg: &RadianceConfig) -> (r: GiGpuConfig)
    requires
        cfg.wf(),
        native.width <= MAX_NATIVE_DIM,
        native.height <= MAX_NATIVE_DIM,
    ensures
        r == gpu_config_spec(native, *cfg),
{
    let size = ComputedSize::from_window(native, cfg.scale_factor);
    GiGpuConfig {
        native,
        scaled: size.scaled,
        probe_base: cfg.probe_base,
        interval: cfg.interval,
        scale: cfg.scale_factor,
        cascade_count: cfg.cascade_count,
        flags: cfg.flags.bits,
        edge_highlight: cfg.edge_highlight,
        light_z: cfg.light_z,
    }
}

} // verus!
