//! Point-light extraction.
//!
//! Point lights follow the same per-frame discipline as the shape
//! records: visible lights are flattened into one packed array with a
//! leading count, rebuilt from scratch every frame in iteration order.
//! Positions, intensities and ranges are 32-bit float bit patterns.

use vstd::prelude::*;

verus! {

/// A point light source attached to a scene entity.
#[derive(Clone, Copy, PartialEq, Eq, Structural, Debug)]
pub struct PointLight2d {
    pub intensity: u32,
    pub range: u32,
}

/// One point light as the scene graph presents it to extraction.
#[derive(Clone, Copy, PartialEq, Eq, Structural, Debug)]
pub struct PointLightInstance {
    pub light: PointLight2d,
    pub position_x: u32,
    pub position_y: u32,
    pub visible: bool,
}

/// GPU record of one point light.
#[derive(Clone, Copy, PartialEq, Eq, Structural, Debug)]
pub struct ExtractedPointLight2d {
    pub position_x: u32,
    pub position_y: u32,
    pub intensity: u32,
    pub range: u32,
}

/// Packed point-light array with its live count.
#[derive(Clone, Debug)]
pub struct GpuLights {
    pub count: u32,
    pub data: Vec<ExtractedPointLight2d>,
}

/// CPU staging copy of the light array, overwritten every frame.
#[derive(Clone, Debug)]
pub struct LightBuffers {
    pub point_light_buffer: GpuLights,
}

pub open spec fn light_kept(l: PointLightInstance) -> bool {
    l.visible
}

pub open spec fn record_of_light(l: PointLightInstance) -> ExtractedPointLight2d {
    ExtractedPointLight2d {
        position_x: l.position_x,
        position_y: l.position_y,
        intensity: l.light.intensity,
        range: l.light.range,
    }
}

/// Records of the visible point lights, in iteration order.
pub open spec fn light_records(s: Seq<PointLightInstance>) -> Seq<ExtractedPointLight2d>
    decreases s.len(),
{
    if s.len() == 0 {
        Seq::empty()
    } else {
        light_records(s.drop_last()) + if light_kept(s.last()) {
            seq![record_of_light(s.last())]
        } else {
            Seq::empty()
        }
    }
}

pub proof fn lemma_light_records_len(s: Seq<PointLightInstance>)
    ensures
        light_records(s).len() <= s.len(),
    decreases s.len(),
{
    if s.len() > 0 {
        lemma_light_records_len(s.drop_last());
    }
}

/// Flattens the frame's visible point lights into the packed GPU
/// array, overwriting whatever the buffer held before.
pub fn extract_lights(point_lights: &Vec<PointLightInstance>, buffers: &mut LightBuffers)
    requires
        point_lights@.len() <= u32::MAX,
    ensures
        final (buffers).point_light_buffer.data@ == light_records(point_lights@),
        final (buffers).point_light_buffer.count == light_records(point_lights@).len(),
{
    let mut extracted: Vec<ExtractedPointLight2d> = Vec::new();
    let mut i: usize = 0;
    while i < point_lights.len()
        invariant
            i <= point_lights@.len(),
            extracted@ == light_records(point_lights@.take(i as int)),
        decreases point_lights@.len() - i,
    {
        let l = &point_lights[i];
        proof {
            assert(point_lights@.take(i + 1).drop_last() =~= point_lights@.take(i as int));
            assert(point_lights@.take(i + 1).last() == point_lights@[i as int]);
        }
        if l.visible {
            extracted.push(
                ExtractedPointLight2d {
                    position_x: l.position_x,
                    position_y: l.position_y,
                    intensity: l.light.intensity,
                    range: l.light.range,
                },
            );
        }
        i = i + 1;
    }
    proof {
        assert(point_lights@.take(point_lights@.len() as int) =~= point_lights@);
        lemma_light_records_len(point_lights@);
    }
    let count = extracted.len() as u32;
    *buffers = LightBuffers { point_light_buffer: GpuLights { count, data: extracted } };
}

} // verus!
