//! Per-view frame preparation.
//!
//! Before the frame's passes run, each light-affecting view gets one
//! set of CPU-side uniform staging buffers: the packed configuration
//! record, the per-cascade probe array, and the byte offsets at which
//! the probe records sit inside the dynamic uniform buffer. All three
//! are rewritten from scratch every frame.

use vstd::prelude::*;

verus! {

use crate::config::{gpu_config_spec, GiGpuConfig, RadianceConfig};
use crate::probe::{build_probes, probe_offsets, probe_spec, Probe};
use crate::size::{Extent, MAX_NATIVE_DIM};

/// The uniform staging buffers of one view for one frame.
#[derive(Clone, Debug)]
pub struct RadianceBuffers {
    /// The packed configuration record bound to every pass.
    pub config: GiGpuConfig,
    /// One probe record per cascade level, coarsest first.
    pub probes: Vec<Probe>,
    /// Byte offset of each probe record in the dynamic uniform buffer.
    pub probe_offsets: Vec<u32>,
}

/// Builds the view's staging buffers for one frame: the configuration
/// record, the probe array, and the probe offsets for the uniform
/// stride the host's device requires.
pub fn prepare_config(native: Extent, cfg: &RadianceConfig, stride: u32) -> (r: RadianceBuffers)
    requires
        cfg.wf(),
        native.width <= MAX_NATIVE_DIM,
        native.height <= MAX_NATIVE_DIM,
        (cfg.cascade_count - 1) * stride <= u32::MAX,
    ensures
        r.config == gpu_config_spec(native, *cfg),
        r.probes@.len() == cfg.cascade_count,
        forall|i: int| 0 <= i < cfg.cascade_count ==> r.probes@[i] == probe_spec(*cfg, i),
        r.probe_offsets@.len() == cfg.cascade_count,
        forall|i: int| 0 <= i < cfg.cascade_count ==> r.probe_offsets@[i] == i * stride,
{
    let config = crate::config::prepare(native, cfg);
    let probes = build_probes(cfg);
    let offsets = probe_offsets(cfg.cascade_count, stride);
    RadianceBuffers { config, probes, probe_offsets: offsets }
}

} // verus!
