//! Scene extraction into GPU shape records.
//!
//! Each frame, the visible emitter and occluder shapes are flattened
//! into two packed arrays — one per shape variant, so each array keeps
//! a homogeneous stride — each prefixed by its live record count. The
//! arrays are rebuilt from scratch every frame: entities that fail the
//! visibility test are dropped silently, surviving records keep
//! iteration order (emitters first, then occluders), and nothing of the
//! previous frame is retained.
//!
//! Positions, radii, extents, rotations, colors and intensities are
//! carried as the raw bit patterns of the 32-bit floats the GPU reads;
//! extraction only moves them. Occluders block light but emit none, so
//! their records carry zero color and intensity.

use vstd::prelude::*;

verus! {

/// Linear-space RGB color, one 32-bit float bit pattern per channel.
#[derive(Clone, Copy, PartialEq, Eq, Structural, Debug)]
pub struct Rgb {
    pub r: u32,
    pub g: u32,
    pub b: u32,
}

/// Bit pattern of the 32-bit float 0.0.
pub const F32_BITS_ZERO: u32 = 0;

/// A light-affecting shape, sized in world units carried as 32-bit
/// float bits.
#[derive(Clone, Copy, PartialEq, Eq, Structural, Debug)]
pub enum SdfShape {
    Circle { radius: u32 },
    Rect { half_x: u32, half_y: u32 },
}

/// A shape that emits light.
#[derive(Clone, Copy, PartialEq, Eq, Structural, Debug)]
pub struct Emitter {
    pub intensity: u32,
    pub color: Rgb,
    pub shape: SdfShape,
}

/// A shape that blocks light without emitting any.
#[derive(Clone, Copy, PartialEq, Eq, Structural, Debug)]
pub struct Occluder {
    pub shape: SdfShape,
}

/// World placement of a shape: center position and rotation, as 32-bit
/// float bits. Rotation only matters for rectangles.
#[derive(Clone, Copy, PartialEq, Eq, Structural, Debug)]
pub struct Placement {
    pub center_x: u32,
    pub center_y: u32,
    pub rotation: u32,
}

/// One emitter as the scene graph presents it to extraction.
#[derive(Clone, Copy, PartialEq, Eq, Structural, Debug)]
pub struct EmitterInstance {
    pub emitter: Emitter,
    pub placement: Placement,
    pub visible: bool,
    pub inherited_visible: bool,
}

/// One occluder as the scene graph presents it to extraction.
#[derive(Clone, Copy, PartialEq, Eq, Structural, Debug)]
pub struct OccluderInstance {
    pub occluder: Occluder,
    pub placement: Placement,
    pub visible: bool,
    pub inherited_visible: bool,
}

/// GPU record of one circle shape.
#[derive(Clone, Copy, PartialEq, Eq, Structural, Debug)]
pub struct GpuCirlce {
    pub radius: u32,
    pub center_x: u32,
    pub center_y: u32,
    pub emit: Rgb,
    pub intensity: u32,
}

/// GPU record of one rectangle shape.
#[derive(Clone, Copy, PartialEq, Eq, Structural, Debug)]
pub struct GpuRect {
    pub half_x: u32,
    pub half_y: u32,
    pub center_x: u32,
    pub center_y: u32,
    pub rotation: u32,
    pub emit: Rgb,
    pub intensity: u32,
}

/// Packed circle array with its live count.
#[derive(Clone, Debug)]
pub struct GpuCircleBuffer {
    pub count: u32,
    pub data: Vec<GpuCirlce>,
}

/// Packed rectangle array with its live count.
#[derive(Clone, Debug)]
pub struct GpuRectBuffer {
    pub count: u32,
    pub data: Vec<GpuRect>,
}

/// CPU staging copies of both shape arrays, overwritten every frame.
#[derive(Clone, Debug)]
pub struct SdfBuffers {
    pub circle_buffer: GpuCircleBuffer,
    pub rect_buffer: GpuRectBuffer,
}

pub open spec fn emitter_kept(e: EmitterInstance) -> bool {
    e.visible && e.inherited_visible
}

pub open spec fn occluder_kept(o: OccluderInstance) -> bool {
    o.visible && o.inherited_visible
}

pub open spec fn circle_of_emitter(e: EmitterInstance) -> GpuCirlce {
    GpuCirlce {
        radius: e.emitter.shape->radius,
        center_x: e.placement.center_x,
        center_y: e.placement.center_y,
        emit: e.emitter.color,
        intensity: e.emitter.intensity,
    }
}

pub open spec fn rect_of_emitter(e: EmitterInstance) -> GpuRect {
    GpuRect {
        half_x: e.emitter.shape->half_x,
        half_y: e.emitter.shape->half_y,
        center_x: e.placement.center_x,
        center_y: e.placement.center_y,
        rotation: e.placement.rotation,
        emit: e.emitter.color,
        intensity: e.emitter.intensity,
    }
}

pub open spec fn circle_of_occluder(o: OccluderInstance) -> GpuCirlce {
    GpuCirlce {
        radius: o.occluder.shape->radius,
        center_x: o.placement.center_x,
        center_y: o.placement.center_y,
        emit: Rgb { r: F32_BITS_ZERO, g: F32_BITS_ZERO, b: F32_BITS_ZERO },
        intensity: F32_BITS_ZERO,
    }
}

pub open spec fn rect_of_occluder(o: OccluderInstance) -> GpuRect {
    GpuRect {
        half_x: o.occluder.shape->half_x,
        half_y: o.occluder.shape->half_y,
        center_x: o.placement.center_x,
        center_y: o.placement.center_y,
        rotation: o.placement.rotation,
        emit: Rgb { r: F32_BITS_ZERO, g: F32_BITS_ZERO, b: F32_BITS_ZERO },
        intensity: F32_BITS_ZERO,
    }
}

/// Circle records contributed by the emitters, in iteration order.
pub open spec fn emitter_circles(s: Seq<EmitterInstance>) -> Seq<GpuCirlce>
    decreases s.len(),
{
    if s.len() == 0 {
        Seq::empty()
    } else {
        emitter_circles(s.drop_last()) + if emitter_kept(s.last()) && s.last().emitter.shape
            is Circle {
            seq![circle_of_emitter(s.last())]
        } else {
            Seq::empty()
        }
    }
}

/// Rectangle records contributed by the emitters, in iteration order.
pub open spec fn emitter_rects(s: Seq<EmitterInstance>) -> Seq<GpuRect>
    decreases s.len(),
{
    if s.len() == 0 {
        Seq::empty()
    } else {
        emitter_rects(s.drop_last()) + if emitter_kept(s.last()) && s.last().emitter.shape
            is Rect {
            seq![rect_of_emitter(s.last())]
        } else {
            Seq::empty()
        }
    }
}

/// Circle records contributed by the occluders, in iteration order.
pub open spec fn occluder_circles(s: Seq<OccluderInstance>) -> Seq<GpuCirlce>
    decreases s.len(),
{
    if s.len() == 0 {
        Seq::empty()
    } else {
        occluder_circles(s.drop_last()) + if occluder_kept(s.last()) && s.last().occluder.shape
            is Circle {
            seq![circle_of_occluder(s.last())]
        } else {
            Seq::empty()
        }
    }
}

/// Rectangle records contributed by the occluders, in iteration order.
pub open spec fn occluder_rects(s: Seq<OccluderInstance>) -> Seq<GpuRect>
    decreases s.len(),
{
    if s.len() == 0 {
        Seq::empty()
    } else {
        occluder_rects(s.drop_last()) + if occluder_kept(s.last()) && s.last().occluder.shape
            is Rect {
            seq![rect_of_occluder(s.last())]
        } else {
            Seq::empty()
        }
    }
}

/// The full circle array of one frame: visible emitters first, then
/// visible occluders.
pub open spec fn circle_records(
    es: Seq<EmitterInstance>,
    os: Seq<OccluderInstance>,
) -> Seq<GpuCirlce> {
    emitter_circles(es) + occluder_circles(os)
}

/// The full rectangle array of one frame: visible emitters first, then
/// visible occluders.
pub open spec fn rect_records(es: Seq<EmitterInstance>, os: Seq<OccluderInstance>) -> Seq<
    GpuRect,
> {
    emitter_rects(es) + occluder_rects(os)
}

/// Each emitter contributes at most one record, to exactly one array.
pub proof fn lemma_emitter_records_len(s: Seq<EmitterInstance>)
    ensures
        emitter_circles(s).len() + emitter_rects(s).len() <= s.len(),
    decreases s.len(),
{
    if s.len() > 0 {
        lemma_emitter_records_len(s.drop_last());
    }
}

/// Each occluder contributes at most one record, to exactly one array.
pub proof fn lemma_occluder_records_len(s: Seq<OccluderInstance>)
    ensures
        occluder_circles(s).len() + occluder_rects(s).len() <= s.len(),
    decreases s.len(),
{
    if s.len() > 0 {
        lemma_occluder_records_len(s.drop_last());
    }
}

/// What one frame's extraction must leave in the staging buffers for a
/// given scene: exactly the packed record arrays with matching counts.
pub open spec fn extraction_result(
    es: Seq<EmitterInstance>,
    os: Seq<OccluderInstance>,
    b: SdfBuffers,
) -> bool {
    &&& b.circle_buffer.data@ == circle_records(es, os)
    &&& b.circle_buffer.count == circle_records(es, os).len()
    &&& b.rect_buffer.data@ == rect_records(es, os)
    &&& b.rect_buffer.count == rect_records(es, os).len()
}

/// Flattens the frame's visible emitters and occluders into the packed
/// GPU shape arrays, overwriting whatever the buffers held before.
pub fn extract_occluder(
    emitters: &Vec<EmitterInstance>,
    occluders: &Vec<OccluderInstance>,
    buffers: &mut SdfBuffers,
)
    requires
        emitters@.len() + occluders@.len() <= u32::MAX,
    ensures
        extraction_result(emitters@, occluders@, *final (buffers)),
{
    let mut circles: Vec<GpuCirlce> = Vec::new();
    let mut rects: Vec<GpuRect> = Vec::new();

    let mut i: usize = 0;
    while i < emitters.len()
        invariant
            i <= emitters@.len(),
            circles@ == emitter_circles(emitters@.take(i as int)),
            rects@ == emitter_rects(emitters@.take(i as int)),
        decreases emitters@.len() - i,
    {
        let e = &emitters[i];
        proof {
            assert(emitters@.take(i + 1).drop_last() =~= emitters@.take(i as int));
            assert(emitters@.take(i + 1).last() == emitters@[i as int]);
        }
        if e.visible && e.inherited_visible {
            match e.emitter.shape {
                SdfShape::Circle { radius } => {
                    circles.push(
                        GpuCirlce {
                            radius,
                            center_x: e.placement.center_x,
                            center_y: e.placement.center_y,
                            emit: e.emitter.color,
                            intensity: e.emitter.intensity,
                        },
                    );
                },
                SdfShape::Rect { half_x, half_y } => {
                    rects.push(
                        GpuRect {
                            half_x,
                            half_y,
                            center_x: e.placement.center_x,
                            center_y: e.placement.center_y,
                            rotation: e.placement.rotation,
                            emit: e.emitter.color,
                            intensity: e.emitter.intensity,
                        },
                    );
                },
            }
        }
        i = i + 1;
    }
    proof {
        assert(emitters@.take(emitters@.len() as int) =~= emitters@);
    }

    let mut j: usize = 0;
    while j < occluders.len()
        invariant
            j <= occluders@.len(),
            circles@ == emitter_circles(emitters@) + occluder_circles(occluders@.take(j as int)),
            rects@ == emitter_rects(emitters@) + occluder_rects(occluders@.take(j as int)),
        decreases occluders@.len() - j,
    {
        let o = &occluders[j];
        proof {
            assert(occluders@.take(j + 1).drop_last() =~= occluders@.take(j as int));
            assert(occluders@.take(j + 1).last() == occluders@[j as int]);
        }
        if o.visible && o.inherited_visible {
            match o.occluder.shape {
                SdfShape::Circle { radius } => {
                    circles.push(
                        GpuCirlce {
                            radius,
                            center_x: o.placement.center_x,
                            center_y: o.placement.center_y,
                            emit: Rgb { r: F32_BITS_ZERO, g: F32_BITS_ZERO, b: F32_BITS_ZERO },
                            intensity: F32_BITS_ZERO,
                        },
                    );
                },
                SdfShape::Rect { half_x, half_y } => {
                    rects.push(
                        GpuRect {
                            half_x,
                            half_y,
                            center_x: o.placement.center_x,
                            center_y: o.placement.center_y,
                            rotation: o.placement.rotation,
                            emit: Rgb { r: F32_BITS_ZERO, g: F32_BITS_ZERO, b: F32_BITS_ZERO },
                            intensity: F32_BITS_ZERO,
                        },
                    );
                },
            }
        }
        j = j + 1;
    }
    proof {
        assert(occluders@.take(occluders@.len() as int) =~= occluders@);
        lemma_emitter_records_len(emitters@);
        lemma_occluder_records_len(occluders@);
    }

    let circle_count = circles.len() as u32;
    let rect_count = rects.len() as u32;
    *buffers = SdfBuffers {
        circle_buffer: GpuCircleBuffer { count: circle_count, data: circles },
        rect_buffer: GpuRectBuffer { count: rect_count, data: rects },
    };
}

/// Extraction is deterministic: for one scene and configuration, any
/// two frames' extractions leave identical record arrays and counts in
/// the staging buffers, byte for byte.
pub proof fn lemma_extraction_deterministic(
    es: Seq<EmitterInstance>,
    os: Seq<OccluderInstance>,
    b1: SdfBuffers,
    b2: SdfBuffers,
)
    requires
        extraction_result(es, os, b1),
        extraction_result(es, os, b2),
    ensures
        b1.circle_buffer.data@ == b2.circle_buffer.data@,
        b1.circle_buffer.count == b2.circle_buffer.count,
        b1.rect_buffer.data@ == b2.rect_buffer.data@,
        b1.rect_buffer.count == b2.rect_buffer.count,
{
}

} // verus!
