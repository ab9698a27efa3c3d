use solis_2d::light::{
    extract_lights, GpuLights, LightBuffers, PointLight2d, PointLightInstance,
};
use solis_2d::sdf::{
    extract_occluder, Emitter, EmitterInstance, GpuCircleBuffer, GpuRectBuffer, Occluder,
    OccluderInstance, Placement, Rgb, SdfBuffers, SdfShape,
};

fn empty_buffers() -> SdfBuffers {
    SdfBuffers {
        circle_buffer: GpuCircleBuffer { count: 0, data: Vec::new() },
        rect_buffer: GpuRectBuffer { count: 0, data: Vec::new() },
    }
}

fn rgb(r: f32, g: f32, b: f32) -> Rgb {
    Rgb { r: r.to_bits(), g: g.to_bits(), b: b.to_bits() }
}

fn placed(x: f32, y: f32) -> Placement {
    Placement { center_x: x.to_bits(), center_y: y.to_bits(), rotation: 0.0f32.to_bits() }
}

fn white_circle_emitter(radius: f32, intensity: f32, x: f32, y: f32) -> EmitterInstance {
    EmitterInstance {
        emitter: Emitter {
            intensity: intensity.to_bits(),
            color: rgb(1.0, 1.0, 1.0),
            shape: SdfShape::Circle { radius: radius.to_bits() },
        },
        placement: placed(x, y),
        visible: true,
        inherited_visible: true,
    }
}

#[test]
fn empty_scene_gives_empty_arrays() {
    // A scene with no emitters and no occluders still yields a valid
    // record set: both counts zero, both arrays empty, so the SDF pass
    // rasterizes pure background.
    let mut buffers = empty_buffers();
    extract_occluder(&Vec::new(), &Vec::new(), &mut buffers);
    assert_eq!(buffers.circle_buffer.count, 0);
    assert_eq!(buffers.rect_buffer.count, 0);
    assert!(buffers.circle_buffer.data.is_empty());
    assert!(buffers.rect_buffer.data.is_empty());
}

#[test]
fn single_emitter_record_is_exact() {
    // One circular emitter: radius 50, intensity 1, white, at the
    // world origin.
    let emitters = vec![white_circle_emitter(50.0, 1.0, 0.0, 0.0)];
    let mut buffers = empty_buffers();
    extract_occluder(&emitters, &Vec::new(), &mut buffers);
    assert_eq!(buffers.circle_buffer.count, 1);
    assert_eq!(buffers.rect_buffer.count, 0);
    let rec = &buffers.circle_buffer.data[0];
    assert_eq!(rec.radius, 50.0f32.to_bits());
    assert_eq!(rec.center_x, 0.0f32.to_bits());
    assert_eq!(rec.center_y, 0.0f32.to_bits());
    assert_eq!(rec.emit, rgb(1.0, 1.0, 1.0));
    assert_eq!(rec.intensity, 1.0f32.to_bits());
}

#[test]
fn invisible_entities_are_dropped_silently() {
    let mut hidden = white_circle_emitter(10.0, 2.0, 5.0, 5.0);
    hidden.visible = false;
    let mut uninherited = white_circle_emitter(11.0, 2.0, 6.0, 6.0);
    uninherited.inherited_visible = false;
    let shown = white_circle_emitter(12.0, 2.0, 7.0, 7.0);
    let emitters = vec![hidden, uninherited, shown];
    let mut buffers = empty_buffers();
    extract_occluder(&emitters, &Vec::new(), &mut buffers);
    assert_eq!(buffers.circle_buffer.count, 1);
    assert_eq!(buffers.circle_buffer.data[0].radius, 12.0f32.to_bits());
}

#[test]
fn records_keep_iteration_order() {
    let emitters = vec![
        white_circle_emitter(1.0, 1.0, 0.0, 0.0),
        white_circle_emitter(2.0, 1.0, 0.0, 0.0),
        white_circle_emitter(3.0, 1.0, 0.0, 0.0),
    ];
    let mut buffers = empty_buffers();
    extract_occluder(&emitters, &Vec::new(), &mut buffers);
    assert_eq!(buffers.circle_buffer.count, 3);
    assert_eq!(buffers.circle_buffer.data[0].radius, 1.0f32.to_bits());
    assert_eq!(buffers.circle_buffer.data[1].radius, 2.0f32.to_bits());
    assert_eq!(buffers.circle_buffer.data[2].radius, 3.0f32.to_bits());
}

#[test]
fn shapes_split_by_variant() {
    let circle = white_circle_emitter(4.0, 1.0, 1.0, 2.0);
    let rect = EmitterInstance {
        emitter: Emitter {
            intensity: 1.0f32.to_bits(),
            color: rgb(0.5, 0.25, 0.125),
            shape: SdfShape::Rect { half_x: 8.0f32.to_bits(), half_y: 4.0f32.to_bits() },
        },
        placement: Placement {
            center_x: 3.0f32.to_bits(),
            center_y: 4.0f32.to_bits(),
            rotation: 0.5f32.to_bits(),
        },
        visible: true,
        inherited_visible: true,
    };
    let emitters = vec![circle, rect];
    let mut buffers = empty_buffers();
    extract_occluder(&emitters, &Vec::new(), &mut buffers);
    assert_eq!(buffers.circle_buffer.count, 1);
    assert_eq!(buffers.rect_buffer.count, 1);
    let r = &buffers.rect_buffer.data[0];
    assert_eq!(r.half_x, 8.0f32.to_bits());
    assert_eq!(r.half_y, 4.0f32.to_bits());
    assert_eq!(r.rotation, 0.5f32.to_bits());
    assert_eq!(r.emit, rgb(0.5, 0.25, 0.125));
}

#[test]
fn occluders_carry_zero_emission() {
    // An emitter fully enclosed by a rectangular occluder: both shapes
    // must reach the GPU arrays, the occluder with zero color and
    // intensity so it blocks light without adding any. (Whether the
    // composited image outside the box actually stays dark is decided
    // by the shaders on the GPU.)
    let emitters = vec![white_circle_emitter(50.0, 1.0, 0.0, 0.0)];
    let occluders = vec![OccluderInstance {
        occluder: Occluder {
            shape: SdfShape::Rect { half_x: 60.0f32.to_bits(), half_y: 60.0f32.to_bits() },
        },
        placement: placed(0.0, 0.0),
        visible: true,
        inherited_visible: true,
    }];
    let mut buffers = empty_buffers();
    extract_occluder(&emitters, &occluders, &mut buffers);
    assert_eq!(buffers.circle_buffer.count, 1);
    assert_eq!(buffers.rect_buffer.count, 1);
    let r = &buffers.rect_buffer.data[0];
    assert_eq!(r.emit, rgb(0.0, 0.0, 0.0));
    assert_eq!(r.intensity, 0.0f32.to_bits());
    assert_eq!(r.half_x, 60.0f32.to_bits());
}

#[test]
fn extraction_twice_is_byte_identical() {
    // Determinism: the same scene extracted twice, without mutation in
    // between, leaves bit-identical record arrays, whatever the
    // buffers held before.
    let emitters = vec![
        white_circle_emitter(50.0, 1.0, 0.0, 0.0),
        white_circle_emitter(25.0, 0.5, -3.5, 8.25),
    ];
    let occluders = vec![OccluderInstance {
        occluder: Occluder { shape: SdfShape::Circle { radius: 5.0f32.to_bits() } },
        placement: placed(100.0, -40.0),
        visible: true,
        inherited_visible: true,
    }];
    let mut first = empty_buffers();
    extract_occluder(&emitters, &occluders, &mut first);
    let mut second = SdfBuffers {
        circle_buffer: GpuCircleBuffer {
            count: 7,
            data: vec![first.circle_buffer.data[0]; 3],
        },
        rect_buffer: GpuRectBuffer { count: 9, data: Vec::new() },
    };
    extract_occluder(&emitters, &occluders, &mut second);
    assert_eq!(first.circle_buffer.count, second.circle_buffer.count);
    assert_eq!(first.circle_buffer.data, second.circle_buffer.data);
    assert_eq!(first.rect_buffer.count, second.rect_buffer.count);
    assert_eq!(first.rect_buffer.data, second.rect_buffer.data);
}

#[test]
fn point_lights_cull_and_pack() {
    let lights = vec![
        PointLightInstance {
            light: PointLight2d { intensity: 2.0f32.to_bits(), range: 30.0f32.to_bits() },
            position_x: 1.0f32.to_bits(),
            position_y: 2.0f32.to_bits(),
            visible: true,
        },
        PointLightInstance {
            light: PointLight2d { intensity: 9.0f32.to_bits(), range: 90.0f32.to_bits() },
            position_x: 0,
            position_y: 0,
            visible: false,
        },
    ];
    let mut buffers = LightBuffers {
        point_light_buffer: GpuLights { count: 3, data: Vec::new() },
    };
    extract_lights(&lights, &mut buffers);
    assert_eq!(buffers.point_light_buffer.count, 1);
    assert_eq!(buffers.point_light_buffer.data.len(), 1);
    let rec = &buffers.point_light_buffer.data[0];
    assert_eq!(rec.intensity, 2.0f32.to_bits());
    assert_eq!(rec.range, 30.0f32.to_bits());
    assert_eq!(rec.position_x, 1.0f32.to_bits());
}
