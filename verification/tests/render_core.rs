use render_core::bytes::encode_words_le;
use render_core::config::{choose_format, SurfaceCaps, SurfaceConfig, TextureFormat};
use render_core::frame::{DrawCommand, FrameSurface, SurfaceError};
use render_core::lifecycle::{AppState, EventAction, Lifecycle, WindowEvent, WindowHandle};
use render_core::pipeline::{PipelineSpec, Topology};
use render_core::pool::{ObjectParams, ObjectPool};

use rand::rngs::StdRng;
use rand::{Rng, SeedableRng};

fn div_bits(s: u32, a: u32) -> u32 {
    (f32::from_bits(s) / a as f32).to_bits()
}

fn caps(formats: Vec<TextureFormat>) -> SurfaceCaps {
    SurfaceCaps {
        formats,
        present_modes: vec![7],
        alpha_modes: vec![9],
    }
}

fn params_n(n: usize) -> Vec<ObjectParams> {
    let mut rng = StdRng::seed_from_u64(42);
    let mut out = Vec::new();
    for _ in 0..n {
        let scale: f32 = rng.gen_range(0.1..0.3);
        let color_offset: Vec<u32> = vec![
            rng.gen::<f32>().to_bits(),
            rng.gen::<f32>().to_bits(),
            rng.gen::<f32>().to_bits(),
            1.0f32.to_bits(),
            rng.gen_range(-0.9f32..=0.9f32).to_bits(),
            rng.gen_range(-0.9f32..=0.9f32).to_bits(),
            0.0f32.to_bits(),
            0.0f32.to_bits(),
        ];
        out.push(ObjectParams {
            color_offset,
            scale: scale.to_bits(),
        });
    }
    out
}

#[test]
fn format_prefers_first_srgb() {
    let formats = vec![
        TextureFormat { code: 1, srgb: false },
        TextureFormat { code: 2, srgb: true },
        TextureFormat { code: 3, srgb: true },
    ];
    let f = choose_format(&formats);
    assert_eq!(f.code, 2);
    assert!(f.srgb);
}

#[test]
fn format_falls_back_to_first_reported() {
    let formats = vec![
        TextureFormat { code: 5, srgb: false },
        TextureFormat { code: 6, srgb: false },
    ];
    let f = choose_format(&formats);
    assert_eq!(f.code, 5);
}

#[test]
fn config_takes_window_size_and_first_modes() {
    let c = SurfaceConfig::create(
        &caps(vec![TextureFormat { code: 4, srgb: true }]),
        640,
        480,
    );
    assert_eq!(c.width, 640);
    assert_eq!(c.height, 480);
    assert_eq!(c.format.code, 4);
    assert_eq!(c.present_mode, 7);
    assert_eq!(c.alpha_mode, 9);
}

#[test]
fn accepted_resize_updates_configuration() {
    let mut c = SurfaceConfig::create(
        &caps(vec![TextureFormat { code: 4, srgb: true }]),
        640,
        480,
    );
    let reconfigure = c.resize(800, 600);
    assert!(reconfigure);
    assert_eq!(c.width, 800);
    assert_eq!(c.height, 600);
    assert_eq!(c.format.code, 4);
    assert_eq!(c.present_mode, 7);
    assert_eq!(c.alpha_mode, 9);
}

#[test]
fn degenerate_resize_leaves_configuration_unchanged() {
    let mut c = SurfaceConfig::create(
        &caps(vec![TextureFormat { code: 4, srgb: true }]),
        640,
        480,
    );
    assert!(!c.resize(0, 600));
    assert_eq!((c.width, c.height), (640, 480));
    assert!(!c.resize(800, 0));
    assert_eq!((c.width, c.height), (640, 480));
    assert!(!c.resize(0, 0));
    assert_eq!((c.width, c.height), (640, 480));
}

#[test]
fn pool_has_exactly_n_objects_with_sampled_values() {
    let params = params_n(5);
    let pool = ObjectPool::new(&params);
    assert_eq!(pool.objects.len(), 5);
    for (obj, p) in pool.objects.iter().zip(params.iter()) {
        assert_eq!(obj.color_offset, p.color_offset);
        assert_eq!(obj.scale_x, p.scale);
        assert_eq!(obj.scale_y, p.scale);
    }
}

#[test]
fn color_offset_bytes_match_float_vector_layout() {
    let params = params_n(1);
    let pool = ObjectPool::new(&params);
    let floats: Vec<f32> = params[0]
        .color_offset
        .iter()
        .map(|w| f32::from_bits(*w))
        .collect();
    let expected: Vec<u8> = bytemuck::cast_slice::<f32, u8>(&floats).to_vec();
    assert_eq!(pool.objects[0].color_offset_bytes(), expected);
}

#[test]
fn encode_words_le_exact_bytes() {
    let ws = vec![0x0403_0201u32, 0x0000_00FFu32];
    assert_eq!(encode_words_le(&ws), vec![1, 2, 3, 4, 0xFF, 0, 0, 0]);
}

#[test]
fn scale_bytes_are_both_components() {
    let params = params_n(2);
    let pool = ObjectPool::new(&params);
    let obj = &pool.objects[1];
    let expected: Vec<u8> = bytemuck::cast_slice::<f32, u8>(&[
        f32::from_bits(obj.scale_x),
        f32::from_bits(obj.scale_y),
    ])
    .to_vec();
    assert_eq!(obj.scale_bytes(), expected);
}

#[test]
fn scale_divided_by_integer_aspect_after_one_frame() {
    let params = params_n(3);
    let prior: Vec<f32> = params.iter().map(|p| f32::from_bits(p.scale)).collect();
    let mut pool = ObjectPool::new(&params);
    let acquired = Ok(FrameSurface { width: 1600, height: 400 });
    let r = render_core::frame::render_frame(&mut pool, acquired, div_bits);
    assert!(r.is_ok());
    // The aspect value is the truncating integer quotient 1600 / 400 = 4.
    for (obj, before) in pool.objects.iter().zip(prior.iter()) {
        assert_eq!(f32::from_bits(obj.scale_x), before / 4.0);
        assert_eq!(f32::from_bits(obj.scale_y), *before);
    }
}

#[test]
fn aspect_quotient_truncates() {
    let params = params_n(1);
    let before = f32::from_bits(params[0].scale);
    let mut pool = ObjectPool::new(&params);
    // 1279 / 720 truncates to 1, so the scale is divided by 1.0.
    let acquired = Ok(FrameSurface { width: 1279, height: 720 });
    render_core::frame::render_frame(&mut pool, acquired, div_bits).unwrap();
    assert_eq!(f32::from_bits(pool.objects[0].scale_x), before / 1.0);
}

#[test]
fn repeated_frames_compound_the_divide() {
    let params = params_n(2);
    let prior: Vec<f32> = params.iter().map(|p| f32::from_bits(p.scale)).collect();
    let mut pool = ObjectPool::new(&params);
    for _ in 0..2 {
        let acquired = Ok(FrameSurface { width: 600, height: 300 });
        render_core::frame::render_frame(&mut pool, acquired, div_bits).unwrap();
    }
    for (obj, before) in pool.objects.iter().zip(prior.iter()) {
        assert_eq!(f32::from_bits(obj.scale_x), before / 2.0 / 2.0);
    }
}

#[test]
fn frame_preserves_color_offset_vectors() {
    let params = params_n(4);
    let mut pool = ObjectPool::new(&params);
    let acquired = Ok(FrameSurface { width: 800, height: 600 });
    render_core::frame::render_frame(&mut pool, acquired, div_bits).unwrap();
    for (obj, p) in pool.objects.iter().zip(params.iter()) {
        assert_eq!(obj.color_offset, p.color_offset);
    }
}

#[test]
fn end_to_end_three_objects_one_pipeline_three_draws() {
    let formats = vec![TextureFormat { code: 11, srgb: true }];
    let mut app = AppState::new(
        WindowHandle { id: 1 },
        &caps(formats),
        1024,
        512,
        &params_n(3),
    );
    // One bind group and one scale buffer exist per pooled object; the state
    // holds one pipeline compiled from one shader module.
    assert_eq!(app.pool.objects.len(), 3);
    assert_eq!(app.pipeline, PipelineSpec::build(&app.config));
    assert_eq!(app.pipeline.topology, Topology::TriangleList);

    let acquired = Ok(FrameSurface { width: 1024, height: 512 });
    let cmds = app.draw(acquired, div_bits).unwrap();
    let draws: Vec<&DrawCommand> = cmds
        .iter()
        .filter(|c| matches!(c, DrawCommand::Draw { .. }))
        .collect();
    assert_eq!(draws.len(), 3);
    for d in draws {
        assert_eq!(*d, DrawCommand::Draw { vertices: 3, instances: 1 });
    }
    let expected = vec![
        DrawCommand::BeginClearPass,
        DrawCommand::SetPipeline,
        DrawCommand::WriteScale { index: 0 },
        DrawCommand::SetBindGroup { index: 0 },
        DrawCommand::Draw { vertices: 3, instances: 1 },
        DrawCommand::WriteScale { index: 1 },
        DrawCommand::SetBindGroup { index: 1 },
        DrawCommand::Draw { vertices: 3, instances: 1 },
        DrawCommand::WriteScale { index: 2 },
        DrawCommand::SetBindGroup { index: 2 },
        DrawCommand::Draw { vertices: 3, instances: 1 },
        DrawCommand::Submit,
        DrawCommand::Present,
    ];
    assert_eq!(cmds, expected);
}

#[test]
fn surface_errors_propagate_distinguishably() {
    let variants = [
        SurfaceError::Timeout,
        SurfaceError::Outdated,
        SurfaceError::Lost,
        SurfaceError::OutOfMemory,
    ];
    for e in variants {
        let params = params_n(2);
        let mut pool = ObjectPool::new(&params);
        let r = render_core::frame::render_frame(&mut pool, Err(e), div_bits);
        assert_eq!(r.unwrap_err(), e);
        // The failed frame left the pool untouched.
        for (obj, p) in pool.objects.iter().zip(params.iter()) {
            assert_eq!(obj.scale_x, p.scale);
            assert_eq!(obj.scale_y, p.scale);
            assert_eq!(obj.color_offset, p.color_offset);
        }
    }
    assert_ne!(SurfaceError::Outdated, SurfaceError::Lost);
}

#[test]
fn pipeline_entry_points_and_bindings() {
    let c = SurfaceConfig::create(
        &caps(vec![TextureFormat { code: 3, srgb: true }]),
        100,
        100,
    );
    let p = PipelineSpec::build(&c);
    assert_eq!(p.vertex_entry(), "vs");
    assert_eq!(p.fragment_entry(), "fs");
    assert_eq!(p.target_format, c.format);
    assert_eq!(p.sample_count, 1);
    assert_eq!(p.color_offset_binding.slot, 0);
    assert!(p.color_offset_binding.visibility.vertex);
    assert!(p.color_offset_binding.visibility.fragment);
    assert_eq!(p.scale_binding.slot, 1);
    assert!(p.scale_binding.visibility.vertex);
    assert!(!p.scale_binding.visibility.fragment);
}

#[test]
fn resume_after_suspend_reuses_the_same_window() {
    let formats = vec![TextureFormat { code: 1, srgb: true }];
    let mut state = Lifecycle::Suspended { window: None };
    state.on_resumed(WindowHandle { id: 10 }, &caps(formats.clone()), 100, 100, &params_n(1));
    match &state {
        Lifecycle::Active { app } => assert_eq!(app.window.id, 10),
        _ => panic!("resume must activate"),
    }
    state.on_suspended();
    match &state {
        Lifecycle::Suspended { window } => assert_eq!(window.map(|w| w.id), Some(10)),
        _ => panic!("suspend must deactivate"),
    }
    // The freshly created window (id 99) must be ignored: the retained one wins.
    state.on_resumed(WindowHandle { id: 99 }, &caps(formats), 100, 100, &params_n(1));
    match &state {
        Lifecycle::Active { app } => assert_eq!(app.window.id, 10),
        _ => panic!("resume must activate"),
    }
}

#[test]
fn redraw_is_requested_only_while_active() {
    let suspended = Lifecycle::Suspended { window: None };
    assert!(!suspended.redraw_on_idle());
    let formats = vec![TextureFormat { code: 1, srgb: true }];
    let active = Lifecycle::Active {
        app: AppState::new(WindowHandle { id: 1 }, &caps(formats), 10, 10, &params_n(1)),
    };
    assert!(active.redraw_on_idle());
}

#[test]
fn window_events_dispatch_by_state_and_tag() {
    let formats = vec![TextureFormat { code: 1, srgb: true }];
    let mut active = Lifecycle::Active {
        app: AppState::new(WindowHandle { id: 1 }, &caps(formats), 10, 10, &params_n(1)),
    };
    assert_eq!(
        active.on_window_event(WindowEvent::CloseRequested),
        EventAction::ExitLoop
    );
    assert_eq!(
        active.on_window_event(WindowEvent::RedrawRequested),
        EventAction::RenderFrame
    );
    assert_eq!(
        active.on_window_event(WindowEvent::OtherEvent),
        EventAction::Idle
    );
    assert_eq!(
        active.on_window_event(WindowEvent::Resized { width: 300, height: 200 }),
        EventAction::Reconfigure
    );
    match &active {
        Lifecycle::Active { app } => assert_eq!((app.config.width, app.config.height), (300, 200)),
        _ => panic!("state must stay active"),
    }
    assert_eq!(
        active.on_window_event(WindowEvent::Resized { width: 0, height: 200 }),
        EventAction::Idle
    );
    match &active {
        Lifecycle::Active { app } => assert_eq!((app.config.width, app.config.height), (300, 200)),
        _ => panic!("state must stay active"),
    }

    let mut suspended = Lifecycle::Suspended { window: None };
    assert_eq!(
        suspended.on_window_event(WindowEvent::CloseRequested),
        EventAction::Idle
    );
    assert_eq!(
        suspended.on_window_event(WindowEvent::RedrawRequested),
        EventAction::Idle
    );
}

#[test]
fn lifecycle_starts_suspended_without_window() {
    match Lifecycle::default() {
        Lifecycle::Suspended { window } => assert!(window.is_none()),
        _ => panic!("initial state must be suspended"),
    }
}
