//! Render-target management.
//!
//! All intermediate targets live in one set keyed by logical role: the
//! signed-distance field, the two cascade ping-pong buffers, and the
//! light mipmap. The set is rebuilt wholesale whenever the viewport or
//! the configuration changes; passes only ever reference it, so a
//! rebuild can never leave a frame with a half-updated set.

use vstd::prelude::*;

verus! {

use vstd::arithmetic::div_mod::{lemma_div_is_ordered, lemma_div_multiples_vanish};
use crate::config::RadianceConfig;
use crate::size::{computed_size_spec, ComputedSize, Extent, MAX_NATIVE_DIM, MAX_SCALED_DIM};

/// The two cascade buffers alternating between read and write roles.
#[derive(Clone, Copy, PartialEq, Eq, Structural, Debug)]
pub enum MergeBuffer {
    Merge0,
    Merge1,
}

impl MergeBuffer {
    pub open spec fn spec_other(self) -> MergeBuffer {
        match self {
            MergeBuffer::Merge0 => MergeBuffer::Merge1,
            MergeBuffer::Merge1 => MergeBuffer::Merge0,
        }
    }

    /// The opposite ping-pong buffer.
    pub fn other(self) -> (r: MergeBuffer)
        ensures
            r == self.spec_other(),
            r != self,
    {
        match self {
            MergeBuffer::Merge0 => MergeBuffer::Merge1,
            MergeBuffer::Merge1 => MergeBuffer::Merge0,
        }
    }
}

/// Logical role of a render target.
#[derive(Clone, Copy, PartialEq, Eq, Structural, Debug)]
pub enum TargetRole {
    Sdf,
    Merge(MergeBuffer),
    LightMipmap,
}

/// All intermediate targets share one high-precision format so HDR
/// radiance and signed distances survive between passes.
#[derive(Clone, Copy, PartialEq, Eq, Structural, Debug)]
pub enum TextureFormat {
    Rgba16Float,
}

/// How a pass samples a target: nearest for structural buffers,
/// bilinear for radiance buffers feeding the mipmap and composite
/// stages.
#[derive(Clone, Copy, PartialEq, Eq, Structural, Debug)]
pub enum SamplerKind {
    Nearest,
    Linear,
}

/// Description of one render target: everything the host needs to
/// allocate the texture.
#[derive(Clone, Copy, PartialEq, Eq, Structural, Debug)]
pub struct TargetSpec {
    pub role: TargetRole,
    pub size: Extent,
    pub format: TextureFormat,
    pub sampler: SamplerKind,
}

/// One axis of the light-mipmap target, downsampled from the scaled
/// resolution by the probe base.
pub open spec fn mipmap_axis(scaled: int, probe_base: int) -> int {
    (scaled + probe_base + 1) / probe_base
}

pub proof fn lemma_mipmap_axis_bounds(scaled: int, probe_base: int)
    requires
        2 <= scaled <= MAX_SCALED_DIM,
        probe_base >= 1,
    ensures
        1 <= mipmap_axis(scaled, probe_base) <= scaled + 2,
{
    assert(probe_base * (scaled + 2) >= scaled + probe_base + 1) by (nonlinear_arith)
        requires
            probe_base >= 1,
            scaled >= 0,
    ;
    lemma_div_is_ordered(scaled + probe_base + 1, probe_base * (scaled + 2), probe_base);
    lemma_div_multiples_vanish(scaled + 2, probe_base);
    assert(probe_base * 1 == probe_base);
    lemma_div_is_ordered(probe_base, scaled + probe_base + 1, probe_base);
    lemma_div_multiples_vanish(1, probe_base);
}

fn mipmap_axis_exec(scaled: u32, probe_base: u32) -> (r: u32)
    requires
        2 <= scaled <= MAX_SCALED_DIM,
        probe_base >= 1,
    ensures
        r == mipmap_axis(scaled as int, probe_base as int),
        1 <= r,
{
    proof {
        lemma_mipmap_axis_bounds(scaled as int, probe_base as int);
    }
    let t: u64 = ((scaled as u64) + (probe_base as u64) + 1) / (probe_base as u64);
    t as u32
}

/// The target set of one view: the SDF proxy, the two cascade
/// ping-pong buffers, and the light mipmap.
#[derive(Clone, Copy, PartialEq, Eq, Structural, Debug)]
pub struct RenderTargets {
    pub sdf_target: TargetSpec,
    pub merge0: TargetSpec,
    pub merge1: TargetSpec,
    pub light_mipmap_target: TargetSpec,
}

/// The unique target set for given computed sizes and configuration.
pub open spec fn render_targets_spec(size: ComputedSize, cfg: RadianceConfig) -> RenderTargets {
    let mipmap_size = Extent {
        width: mipmap_axis(size.scaled.width as int, cfg.probe_base as int) as u32,
        height: mipmap_axis(size.scaled.height as int, cfg.probe_base as int) as u32,
    };
    RenderTargets {
        sdf_target: TargetSpec {
            role: TargetRole::Sdf,
            size: size.scaled,
            format: TextureFormat::Rgba16Float,
            sampler: SamplerKind::Nearest,
        },
        merge0: TargetSpec {
            role: TargetRole::Merge(MergeBuffer::Merge0),
            size: size.scaled,
            format: TextureFormat::Rgba16Float,
            sampler: SamplerKind::Nearest,
        },
        merge1: TargetSpec {
            role: TargetRole::Merge(MergeBuffer::Merge1),
            size: size.scaled,
            format: TextureFormat::Rgba16Float,
            sampler: SamplerKind::Nearest,
        },
        light_mipmap_target: TargetSpec {
            role: TargetRole::LightMipmap,
            size: mipmap_size,
            format: TextureFormat::Rgba16Float,
            sampler: SamplerKind::Linear,
        },
    }
}

impl RenderTargets {
    /// Roles are fixed, every target uses the shared high-precision
    /// format, and no target has a zero axis.
    pub open spec fn wf(self) -> bool {
        &&& self.sdf_target.role == TargetRole::Sdf
        &&& self.merge0.role == TargetRole::Merge(MergeBuffer::Merge0)
        &&& self.merge1.role == TargetRole::Merge(MergeBuffer::Merge1)
        &&& self.light_mipmap_target.role == TargetRole::LightMipmap
        &&& self.sdf_target.format == TextureFormat::Rgba16Float
        &&& self.merge0.format == TextureFormat::Rgba16Float
        &&& self.merge1.format == TextureFormat::Rgba16Float
        &&& self.light_mipmap_target.format == TextureFormat::Rgba16Float
        &&& self.merge0.size == self.merge1.size
        &&& self.sdf_target.size.width >= 1
        &&& self.sdf_target.size.height >= 1
        &&& self.merge0.size.width >= 1
        &&& self.merge0.size.height >= 1
        &&& self.light_mipmap_target.size.width >= 1
        &&& self.light_mipmap_target.size.height >= 1
    }

    /// Allocates the description of every target for one frame: SDF and
    /// both merge buffers at the scaled resolution, the light mipmap
    /// downsampled by the probe base.
    pub fn from_size(size: &ComputedSize, cfg: &RadianceConfig) -> (r: RenderTargets)
        requires
            size.wf(),
            cfg.wf(),
        ensures
            r == render_targets_spec(*size, *cfg),
            r.wf(),
    {
        proof {
            lemma_mipmap_axis_bounds(size.scaled.width as int, cfg.probe_base as int);
            lemma_mipmap_axis_bounds(size.scaled.height as int, cfg.probe_base as int);
        }
        let mipmap_size = Extent {
            width: mipmap_axis_exec(size.scaled.width, cfg.probe_base),
            height: mipmap_axis_exec(size.scaled.height, cfg.probe_base),
        };
        RenderTargets {
            sdf_target: TargetSpec {
                role: TargetRole::Sdf,
                size: size.scaled,
                format: TextureFormat::Rgba16Float,
                sampler: SamplerKind::Nearest,
            },
            merge0: TargetSpec {
                role: TargetRole::Merge(MergeBuffer::Merge0),
                size: size.scaled,
                format: TextureFormat::Rgba16Float,
                sampler: SamplerKind::Nearest,
            },
            merge1: TargetSpec {
                role: TargetRole::Merge(MergeBuffer::Merge1),
                size: size.scaled,
                format: TextureFormat::Rgba16Float,
                sampler: SamplerKind::Nearest,
            },
            light_mipmap_target: TargetSpec {
                role: TargetRole::LightMipmap,
                size: mipmap_size,
                format: TextureFormat::Rgba16Float,
                sampler: SamplerKind::Linear,
            },
        }
    }

    /// The merge targets in buffer order.
    pub fn sorted_merge_targets(&self) -> (r: Vec<TargetSpec>)
        ensures
            r@ == seq![self.merge0, self.merge1],
    {
        let mut v: Vec<TargetSpec> = Vec::new();
        v.push(self.merge0);
        v.push(self.merge1);
        proof {
            assert(v@ =~= seq![self.merge0, self.merge1]);
        }
        v
    }

    /// Registry lookup from logical role to target description.
    pub fn target(&self, role: TargetRole) -> (r: &TargetSpec)
        requires
            self.wf(),
        ensures
            r.role == role,
            *r == match role {
                TargetRole::Sdf => self.sdf_target,
                TargetRole::Merge(MergeBuffer::Merge0) => self.merge0,
                TargetRole::Merge(MergeBuffer::Merge1) => self.merge1,
                TargetRole::LightMipmap => self.light_mipmap_target,
            },
    {
        match role {
            TargetRole::Sdf => &self.sdf_target,
            TargetRole::Merge(MergeBuffer::Merge0) => &self.merge0,
            TargetRole::Merge(MergeBuffer::Merge1) => &self.merge1,
            TargetRole::LightMipmap => &self.light_mipmap_target,
        }
    }
}

/// What a resize rebuild must produce: exactly the computed sizes and
/// target set derived from the window and the configuration, and only
/// for a present, non-empty window surface.
pub open spec fn resize_result(
    window: Option<Extent>,
    cfg: RadianceConfig,
    r: Option<(ComputedSize, RenderTargets)>,
) -> bool {
    match window {
        Option::None => r is None,
        Option::Some(w) => {
            if w.width > 0 && w.height > 0 {
                r == Option::Some(
                    (
                        computed_size_spec(w, cfg.scale_factor),
                        render_targets_spec(computed_size_spec(w, cfg.scale_factor), cfg),
                    ),
                )
            } else {
                r is None
            }
        },
    }
}

/// Handles a resize event or startup: recomputes the sizes and rebuilds
/// the whole target set atomically. Returns nothing when the primary
/// surface is absent or has a zero axis, so a headless or minimized
/// host never allocates a zero-sized texture.
pub fn resize(window: Option<Extent>, cfg: &RadianceConfig) -> (r: Option<
    (ComputedSize, RenderTargets),
>)
    requires
        cfg.wf(),
        window matches Some(w) ==> w.width <= MAX_NATIVE_DIM && w.height <= MAX_NATIVE_DIM,
    ensures
        resize_result(window, *cfg, r),
        r matches Some(p) ==> p.0.wf() && p.1.wf(),
{
    match window {
        Option::None => Option::None,
        Option::Some(w) => {
            if w.width > 0 && w.height > 0 {
                let size = ComputedSize::from_window(w, cfg.scale_factor);
                let targets = RenderTargets::from_size(&size, cfg);
                Option::Some((size, targets))
            } else {
                Option::None
            }
        },
    }
}

/// Resizing is idempotent: two rebuilds from the same window size and
/// configuration produce identical target sets, so repeated resize
/// events cannot make the dimensions drift.
pub proof fn lemma_resize_idempotent(
    window: Option<Extent>,
    cfg: RadianceConfig,
    r1: Option<(ComputedSize, RenderTargets)>,
    r2: Option<(ComputedSize, RenderTargets)>,
)
    requires
        resize_result(window, cfg, r1),
        resize_result(window, cfg, r2),
    ensures
        r1 == r2,
{
}

} // verus!
