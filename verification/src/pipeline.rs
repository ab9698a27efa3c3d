//! Pipeline and bind-group registry.
//!
//! The GPU pipeline objects — bind-group layouts, compiled shaders,
//! samplers — are built once at startup and shared read-only by every
//! frame. This module pins down, as data, what each pass's bind group
//! must contain and in which order, and which color format every pass
//! renders to; the host builds the actual GPU objects from these
//! descriptions and caches them in one registry passed into each pass.

use vstd::prelude::*;

verus! {

use crate::targets::TextureFormat;

/// One entry of a bind-group layout, in binding order.
#[derive(Clone, Copy, PartialEq, Eq, Structural, Debug)]
pub enum BindingKind {
    /// The view's camera/projection uniform, dynamically offset.
    ViewUniform,
    /// The packed configuration record.
    ConfigUniform,
    /// The per-cascade probe array, dynamically offset.
    DynamicProbeUniform,
    /// Read-only storage holding the circle records.
    CircleStorage,
    /// Read-only storage holding the rectangle records.
    RectStorage,
    /// A filterable 2D float texture.
    FloatTexture,
    /// A filtering (bilinear) sampler.
    FilteringSampler,
    /// A non-filtering (nearest) sampler.
    NonFilteringSampler,
}

/// The four compiled pipelines of the cascade compute chain.
#[derive(Clone, Copy, PartialEq, Eq, Structural, Debug)]
pub enum PipelineKind {
    Sdf,
    Cascade,
    Mipmap,
    Composite,
}

/// The SDF pass binds the view uniform, both shape record arrays, and
/// the configuration.
pub open spec fn sdf_layout_spec() -> Seq<BindingKind> {
    seq![
        BindingKind::ViewUniform,
        BindingKind::CircleStorage,
        BindingKind::RectStorage,
        BindingKind::ConfigUniform,
    ]
}

/// The cascade pass binds the SDF target, the previous cascade result,
/// the normal map, a bilinear sampler, the configuration, and the
/// dynamically offset probe record of its level.
pub open spec fn cascade_layout_spec() -> Seq<BindingKind> {
    seq![
        BindingKind::FloatTexture,
        BindingKind::FloatTexture,
        BindingKind::FloatTexture,
        BindingKind::FilteringSampler,
        BindingKind::ConfigUniform,
        BindingKind::DynamicProbeUniform,
    ]
}

/// The mipmap pass binds the final merge buffer and the configuration.
pub open spec fn mipmap_layout_spec() -> Seq<BindingKind> {
    seq![BindingKind::FloatTexture, BindingKind::ConfigUniform]
}

/// The composite pass binds the scene color, the SDF target, both
/// merge buffers, the light mipmap, the normal map, both samplers, and
/// the configuration.
pub open spec fn composite_layout_spec() -> Seq<BindingKind> {
    seq![
        BindingKind::FloatTexture,
        BindingKind::FloatTexture,
        BindingKind::FloatTexture,
        BindingKind::FloatTexture,
        BindingKind::FloatTexture,
        BindingKind::FloatTexture,
        BindingKind::FilteringSampler,
        BindingKind::NonFilteringSampler,
        BindingKind::ConfigUniform,
    ]
}

pub open spec fn layout_spec(kind: PipelineKind) -> Seq<BindingKind> {
    match kind {
        PipelineKind::Sdf => sdf_layout_spec(),
        PipelineKind::Cascade => cascade_layout_spec(),
        PipelineKind::Mipmap => mipmap_layout_spec(),
        PipelineKind::Composite => composite_layout_spec(),
    }
}

/// The bind-group layouts of every pipeline, built once at startup.
#[derive(Clone, Debug)]
pub struct PipelineRegistry {
    pub sdf_layout: Vec<BindingKind>,
    pub cascade_layout: Vec<BindingKind>,
    pub mipmap_layout: Vec<BindingKind>,
    pub composite_layout: Vec<BindingKind>,
}

impl PipelineRegistry {
    pub open spec fn wf(self) -> bool {
        &&& self.sdf_layout@ == sdf_layout_spec()
        &&& self.cascade_layout@ == cascade_layout_spec()
        &&& self.mipmap_layout@ == mipmap_layout_spec()
        &&& self.composite_layout@ == composite_layout_spec()
    }

    /// Builds the registry's layout descriptions.
    pub fn new() -> (r: PipelineRegistry)
        ensures
            r.wf(),
    {
        let mut sdf_layout: Vec<BindingKind> = Vec::new();
        sdf_layout.push(BindingKind::ViewUniform);
        sdf_layout.push(BindingKind::CircleStorage);
        sdf_layout.push(BindingKind::RectStorage);
        sdf_layout.push(BindingKind::ConfigUniform);

        let mut cascade_layout: Vec<BindingKind> = Vec::new();
        cascade_layout.push(BindingKind::FloatTexture);
        cascade_layout.push(BindingKind::FloatTexture);
        cascade_layout.push(BindingKind::FloatTexture);
        cascade_layout.push(BindingKind::FilteringSampler);
        cascade_layout.push(BindingKind::ConfigUniform);
        cascade_layout.push(BindingKind::DynamicProbeUniform);

        let mut mipmap_layout: Vec<BindingKind> = Vec::new();
        mipmap_layout.push(BindingKind::FloatTexture);
        mipmap_layout.push(BindingKind::ConfigUniform);

        let mut composite_layout: Vec<BindingKind> = Vec::new();
        composite_layout.push(BindingKind::FloatTexture);
        composite_layout.push(BindingKind::FloatTexture);
        composite_layout.push(BindingKind::FloatTexture);
        composite_layout.push(BindingKind::FloatTexture);
        composite_layout.push(BindingKind::FloatTexture);
        composite_layout.push(BindingKind::FloatTexture);
        composite_layout.push(BindingKind::FilteringSampler);
        composite_layout.push(BindingKind::NonFilteringSampler);
        composite_layout.push(BindingKind::ConfigUniform);

        proof {
            assert(sdf_layout@ =~= sdf_layout_spec());
            assert(cascade_layout@ =~= cascade_layout_spec());
            assert(mipmap_layout@ =~= mipmap_layout_spec());
            assert(composite_layout@ =~= composite_layout_spec());
        }
        PipelineRegistry { sdf_layout, cascade_layout, mipmap_layout, composite_layout }
    }

    /// Registry lookup from pipeline to bind-group layout.
    pub fn layout(&self, kind: PipelineKind) -> (r: &Vec<BindingKind>)
        requires
            self.wf(),
        ensures
            r@ == layout_spec(kind),
    {
        match kind {
            PipelineKind::Sdf => &self.sdf_layout,
            PipelineKind::Cascade => &self.cascade_layout,
            PipelineKind::Mipmap => &self.mipmap_layout,
            PipelineKind::Composite => &self.composite_layout,
        }
    }

    /// Every pipeline renders to the shared high-precision format.
    pub fn output_format(&self, kind: PipelineKind) -> (r: TextureFormat)
        ensures
            r == TextureFormat::Rgba16Float,
    {
        let _ = kind;
        TextureFormat::Rgba16Float
    }
}

} // verus!
