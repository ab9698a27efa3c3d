use solis_2d::config::RadianceConfig;
use solis_2d::frame::{plan_frame, PassDesc, ResourceState};
use solis_2d::probe::probe_offsets;
use solis_2d::targets::MergeBuffer;

fn all_ready() -> ResourceState {
    ResourceState {
        sdf_pipeline: true,
        cascade_pipeline: true,
        mipmap_pipeline: true,
        composite_pipeline: true,
        config_binding: true,
        probe_binding: true,
        view_binding: true,
        circle_binding: true,
        rect_binding: true,
    }
}

fn config_with(cascade_count: u32) -> RadianceConfig {
    RadianceConfig { cascade_count, ..Default::default() }
}

#[test]
fn cascade_pass_count_matches_configuration() {
    // For every cascade count 1..8 the plan holds exactly that many
    // cascade passes, between one SDF pass and the mipmap and
    // composite passes.
    for n in 1u32..=8 {
        let cfg = config_with(n);
        let offsets = probe_offsets(n, 256);
        let plan = plan_frame(&cfg, &offsets, &all_ready()).expect("resources are ready");
        assert_eq!(plan.len() as u32, n + 3);
        assert_eq!(plan[0], PassDesc::Sdf);
        let cascades = plan
            .iter()
            .filter(|p| matches!(p, PassDesc::Cascade { .. }))
            .count();
        assert_eq!(cascades as u32, n);
        assert_eq!(plan[plan.len() - 1], PassDesc::Composite);
    }
}

#[test]
fn final_buffer_follows_parity_rule() {
    // The buffer bound to the mipmap pass (feeding the composite
    // stage) is the first merge buffer for even counts and the second
    // for odd counts, and it is the buffer the last cascade pass
    // wrote.
    for n in 1u32..=8 {
        let cfg = config_with(n);
        let offsets = probe_offsets(n, 256);
        let plan = plan_frame(&cfg, &offsets, &all_ready()).expect("resources are ready");
        let expected = if n % 2 == 0 { MergeBuffer::Merge0 } else { MergeBuffer::Merge1 };
        match plan[(n + 1) as usize] {
            PassDesc::Mipmap { read } => assert_eq!(read, expected),
            ref other => panic!("expected a mipmap pass, found {:?}", other),
        }
        match plan[n as usize] {
            PassDesc::Cascade { write, .. } => assert_eq!(write, expected),
            ref other => panic!("expected a cascade pass, found {:?}", other),
        }
    }
}

#[test]
fn ping_pong_never_aliases() {
    for n in 1u32..=8 {
        let cfg = config_with(n);
        let offsets = probe_offsets(n, 256);
        let plan = plan_frame(&cfg, &offsets, &all_ready()).expect("resources are ready");
        let mut last_write = None;
        for pass in plan.iter() {
            if let PassDesc::Cascade { read, write, .. } = pass {
                assert_ne!(read, write);
                if let Some(w) = last_write {
                    // Each cascade reads what the previous one wrote.
                    assert_eq!(*read, w);
                }
                last_write = Some(*write);
            }
        }
    }
}

#[test]
fn first_cascade_writes_second_buffer() {
    let cfg = config_with(4);
    let offsets = probe_offsets(4, 256);
    let plan = plan_frame(&cfg, &offsets, &all_ready()).expect("resources are ready");
    match plan[1] {
        PassDesc::Cascade { read, write, probe_offset } => {
            assert_eq!(read, MergeBuffer::Merge0);
            assert_eq!(write, MergeBuffer::Merge1);
            assert_eq!(probe_offset, 0);
        },
        ref other => panic!("expected a cascade pass, found {:?}", other),
    }
}

#[test]
fn cascade_passes_use_probe_offsets_in_order() {
    let cfg = config_with(5);
    let offsets = probe_offsets(5, 256);
    let plan = plan_frame(&cfg, &offsets, &all_ready()).expect("resources are ready");
    let mut index = 0usize;
    for pass in plan.iter() {
        if let PassDesc::Cascade { probe_offset, .. } = pass {
            assert_eq!(*probe_offset, offsets[index]);
            assert_eq!(*probe_offset, 256 * index as u32);
            index += 1;
        }
    }
    assert_eq!(index, 5);
}

#[test]
fn missing_resource_skips_the_frame() {
    // A pipeline still compiling or a binding not yet written is not
    // an error: the whole frame is skipped.
    let cfg = config_with(4);
    let offsets = probe_offsets(4, 256);
    let ready = all_ready();
    assert!(plan_frame(&cfg, &offsets, &ready).is_some());
    let cases = [
        ResourceState { sdf_pipeline: false, ..ready },
        ResourceState { cascade_pipeline: false, ..ready },
        ResourceState { mipmap_pipeline: false, ..ready },
        ResourceState { composite_pipeline: false, ..ready },
        ResourceState { config_binding: false, ..ready },
        ResourceState { probe_binding: false, ..ready },
        ResourceState { view_binding: false, ..ready },
        ResourceState { circle_binding: false, ..ready },
        ResourceState { rect_binding: false, ..ready },
    ];
    for state in cases.iter() {
        assert!(plan_frame(&cfg, &offsets, state).is_none());
    }
}
