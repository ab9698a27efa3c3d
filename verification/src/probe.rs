//! Per-cascade probe parameters.
//!
//! One probe record is uploaded per cascade level per frame, packed in a
//! dynamic uniform array with a fixed stride. Records are written from
//! the coarsest cascade down to the finest, so the record for loop
//! iteration `i` carries cascade index `cascade_count - 1 - i`.

use vstd::prelude::*;

verus! {

use crate::config::RadianceConfig;

/// Parameters of one cascade level, immutable once written for the
/// frame. The ray interval is carried as 32-bit float bits.
#[derive(Clone, Copy, PartialEq, Eq, Structural, Debug)]
pub struct Probe {
    /// Number of cascade levels this frame.
    pub cascade_count: u32,
    /// Level this record describes.
    pub cascade_index: u32,
    /// Base ray range, as 32-bit float bits.
    pub cascade_interval: u32,
    /// Probe base: angular sampling density.
    pub probe_base: u32,
}

/// The record written at position `i` of the probe array: levels run
/// from coarsest to finest.
pub open spec fn probe_spec(cfg: RadianceConfig, i: int) -> Probe {
    Probe {
        cascade_count: cfg.cascade_count,
        cascade_index: (cfg.cascade_count - 1 - i) as u32,
        cascade_interval: cfg.interval,
        probe_base: cfg.probe_base,
    }
}

/// Builds the per-cascade probe array for one frame, coarsest level
/// first.
pub fn build_probes(cfg: &RadianceConfig) -> (r: Vec<Probe>)
    requires
        cfg.wf(),
    ensures
        r@.len() == cfg.cascade_count,
        forall|i: int| 0 <= i < cfg.cascade_count ==> r@[i] == probe_spec(*cfg, i),
{
    let mut probes: Vec<Probe> = Vec::new();
    let mut c: u32 = 0;
    while c < cfg.cascade_count
        invariant
            c <= cfg.cascade_count,
            cfg.wf(),
            probes@.len() == c,
            forall|i: int| 0 <= i < c ==> probes@[i] == probe_spec(*cfg, i),
        decreases cfg.cascade_count - c,
    {
        let index = cfg.cascade_count - 1 - c;
        probes.push(
            Probe {
                cascade_count: cfg.cascade_count,
                cascade_index: index,
                cascade_interval: cfg.interval,
                probe_base: cfg.probe_base,
            },
        );
        c = c + 1;
    }
    probes
}

/// Byte offsets of the probe records inside the dynamic uniform array,
/// for a given aligned stride.
pub fn probe_offsets(cascade_count: u32, stride: u32) -> (r: Vec<u32>)
    requires
        cascade_count >= 1,
        (cascade_count - 1) * stride <= u32::MAX,
    ensures
        r@.len() == cascade_count,
        forall|i: int| 0 <= i < cascade_count ==> r@[i] == i * stride,
{
    let mut offsets: Vec<u32> = Vec::new();
    let mut c: u32 = 0;
    while c < cascade_count
        invariant
            c <= cascade_count,
            (cascade_count - 1) * stride <= u32::MAX,
            offsets@.len() == c,
            forall|i: int| 0 <= i < c ==> offsets@[i] == i * stride,
        decreases cascade_count - c,
    {
        proof {
            assert(c * stride <= (cascade_count - 1) * stride) by (nonlinear_arith)
                requires
                    c <= cascade_count - 1,
                    stride >= 0,
            ;
        }
        offsets.push(c * stride);
        c = c + 1;
    }
    offsets
}

/// Typed accessor into the probe array.
pub fn probe_at(probes: &Vec<Probe>, index: usize) -> (r: &Probe)
    requires
        index < probes@.len(),
    ensures
        *r == probes@[index as int],
{
    &probes[index]
}

} // verus!
