//! End-to-end scenarios over the CPU side of the pipeline: a fixed
//! scene and configuration, checked from extraction through target
//! allocation to the planned pass sequence. The shading itself — the
//! luminance the GPU composites from these records — runs in WGSL and
//! is outside what these tests can execute.

use solis_2d::config::RadianceConfig;
use solis_2d::frame::{plan_frame, PassDesc, ResourceState};
use solis_2d::probe::{build_probes, probe_offsets};
use solis_2d::sdf::{
    extract_occluder, Emitter, EmitterInstance, GpuCircleBuffer, GpuRectBuffer, Placement, Rgb,
    SdfBuffers, SdfShape,
};
use solis_2d::size::{ComputedSize, Extent};
use solis_2d::targets::{MergeBuffer, RenderTargets};

#[test]
fn lone_circular_emitter_frame() {
    // One circular emitter: radius 50, intensity 1, white, at the
    // world origin, no occluders; four cascades, probe base 2, no
    // downscaling.
    let cfg = RadianceConfig {
        cascade_count: 4,
        probe_base: 2,
        scale_factor: 1000,
        ..Default::default()
    };
    let emitters = vec![EmitterInstance {
        emitter: Emitter {
            intensity: 1.0f32.to_bits(),
            color: Rgb {
                r: 1.0f32.to_bits(),
                g: 1.0f32.to_bits(),
                b: 1.0f32.to_bits(),
            },
            shape: SdfShape::Circle { radius: 50.0f32.to_bits() },
        },
        placement: Placement {
            center_x: 0.0f32.to_bits(),
            center_y: 0.0f32.to_bits(),
            rotation: 0.0f32.to_bits(),
        },
        visible: true,
        inherited_visible: true,
    }];

    // Extraction: exactly one circle record, bit-exact.
    let mut buffers = SdfBuffers {
        circle_buffer: GpuCircleBuffer { count: 0, data: Vec::new() },
        rect_buffer: GpuRectBuffer { count: 0, data: Vec::new() },
    };
    extract_occluder(&emitters, &Vec::new(), &mut buffers);
    assert_eq!(buffers.circle_buffer.count, 1);
    assert_eq!(buffers.rect_buffer.count, 0);
    assert_eq!(buffers.circle_buffer.data[0].radius, 50.0f32.to_bits());
    assert_eq!(buffers.circle_buffer.data[0].intensity, 1.0f32.to_bits());

    // Targets: working resolution equals the viewport at scale 1.
    let size = ComputedSize::from_window(Extent { width: 1024, height: 768 }, cfg.scale_factor);
    assert_eq!(size.scaled, Extent { width: 1024, height: 768 });
    let targets = RenderTargets::from_size(&size, &cfg);
    assert_eq!(targets.sdf_target.size, size.scaled);

    // Probes: four levels, coarsest first.
    let probes = build_probes(&cfg);
    assert_eq!(probes.len(), 4);
    assert_eq!(probes[0].cascade_index, 3);

    // Plan: SDF, four cascade passes, mipmap reading the first merge
    // buffer (even count), composite.
    let offsets = probe_offsets(cfg.cascade_count, 256);
    let ready = ResourceState {
        sdf_pipeline: true,
        cascade_pipeline: true,
        mipmap_pipeline: true,
        composite_pipeline: true,
        config_binding: true,
        probe_binding: true,
        view_binding: true,
        circle_binding: true,
        rect_binding: true,
    };
    let plan = plan_frame(&cfg, &offsets, &ready).expect("resources are ready");
    assert_eq!(plan.len(), 7);
    assert_eq!(plan[0], PassDesc::Sdf);
    assert_eq!(plan[5], PassDesc::Mipmap { read: MergeBuffer::Merge0 });
    assert_eq!(plan[6], PassDesc::Composite);
}
