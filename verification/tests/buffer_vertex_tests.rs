use wgpu_lessons::frame::{BlendState, ColorWrites, Face, FrontFace, PolygonMode, PrimitiveTopology};
use wgpu_lessons::learn_module::_2_buffer_vertex::{setup, BufferUsage, Core};
use wgpu_lessons::frame::{AppEvent, Command, DrawCall, FrameError, RenderStep, SurfaceCaps};
use wgpu_lessons::learn_module::_2_buffer_vertex::{
    vertex_bytes, vertex_words, MyApp, MyVertex, VertexFormat, VertexStepMode, HALF_BITS,
    MINUS_HALF_BITS, ONE_BITS, VERTEX_SIZE, WINDOW_HEIGHT, WINDOW_WIDTH, ZERO_BITS,
};

fn caps() -> SurfaceCaps {
    SurfaceCaps { format_is_srgb: vec![false, true], present_mode_count: 1, alpha_mode_count: 1 }
}

fn triangle_draw() -> DrawCall {
    DrawCall {
        vertex_start: 0,
        vertex_end: 3,
        instance_start: 0,
        instance_end: 1,
        vertex_buffer_slot: Some(0),
    }
}

#[test]
fn float_bit_patterns() {
    assert_eq!(f32::from_bits(ZERO_BITS), 0.0);
    assert_eq!(f32::from_bits(HALF_BITS), 0.5);
    assert_eq!(f32::from_bits(MINUS_HALF_BITS), -0.5);
    assert_eq!(f32::from_bits(ONE_BITS), 1.0);
}

#[test]
fn triangle_rgb_vertices() {
    let t = MyVertex::triangle_rgb();
    assert_eq!(t.len(), 3);
    let pos: Vec<[f32; 3]> = t.iter().map(|v| v.position.map(f32::from_bits)).collect();
    let col: Vec<[f32; 3]> = t.iter().map(|v| v.color.map(f32::from_bits)).collect();
    assert_eq!(pos, vec![[0.0, 0.5, 0.0], [-0.5, -0.5, 0.0], [0.5, -0.5, 0.0]]);
    assert_eq!(col, vec![[1.0, 0.0, 0.0], [0.0, 1.0, 0.0], [0.0, 0.0, 1.0]]);
}

#[test]
fn triangle_is_counter_clockwise() {
    let t = MyVertex::triangle_rgb();
    let p: Vec<[f32; 3]> = t.iter().map(|v| v.position.map(f32::from_bits)).collect();
    let area2 = (p[1][0] - p[0][0]) * (p[2][1] - p[0][1]) - (p[2][0] - p[0][0]) * (p[1][1] - p[0][1]);
    assert!(area2 > 0.0);
}

#[test]
fn desc_layout() {
    let d = MyVertex::desc();
    assert_eq!(d.array_stride, 24);
    assert_eq!(d.array_stride as usize, std::mem::size_of::<[[f32; 3]; 2]>());
    assert_eq!(d.step_mode, VertexStepMode::Vertex);
    assert_eq!(d.attributes.len(), 2);
    assert_eq!(d.attributes[0].offset, 0);
    assert_eq!(d.attributes[0].shader_location, 0);
    assert_eq!(d.attributes[0].format, VertexFormat::Float32x3);
    assert_eq!(d.attributes[1].offset, std::mem::size_of::<[f32; 3]>() as u64);
    assert_eq!(d.attributes[1].shader_location, 1);
    assert_eq!(d.attributes[1].format, VertexFormat::Float32x3);
    assert_eq!(VertexFormat::Float32x3.size(), 12);
}

#[test]
fn vertex_words_in_buffer_order() {
    let w = vertex_words(&MyVertex::triangle_rgb());
    assert_eq!(
        w,
        vec![
            ZERO_BITS, HALF_BITS, ZERO_BITS, ONE_BITS, ZERO_BITS, ZERO_BITS,
            MINUS_HALF_BITS, MINUS_HALF_BITS, ZERO_BITS, ZERO_BITS, ONE_BITS, ZERO_BITS,
            HALF_BITS, MINUS_HALF_BITS, ZERO_BITS, ZERO_BITS, ZERO_BITS, ONE_BITS,
        ]
    );
    assert!(vertex_words(&Vec::new()).is_empty());
}

#[test]
fn vertex_bytes_are_the_words_bytes() {
    let t = MyVertex::triangle_rgb();
    let bytes = vertex_bytes(&t);
    assert_eq!(bytes.len() as u64, t.len() as u64 * VERTEX_SIZE);
    assert_eq!(bytes.len(), 72);
    let expected: Vec<u8> = vertex_words(&t).iter().flat_map(|w| w.to_ne_bytes()).collect();
    assert_eq!(bytes, expected);
    assert!(vertex_bytes(&Vec::new()).is_empty());
}

#[test]
fn buffer_matches_layout_on_triangle() {
    let t = MyVertex::triangle_rgb();
    let d = MyVertex::desc();
    let bytes = vertex_bytes(&t);
    for (i, v) in t.iter().enumerate() {
        for (a, attr) in d.attributes.iter().enumerate() {
            for c in 0..3usize {
                let at = i * d.array_stride as usize + attr.offset as usize + 4 * c;
                let word = u32::from_ne_bytes([bytes[at], bytes[at + 1], bytes[at + 2], bytes[at + 3]]);
                let expected = if a == 0 { v.position[c] } else { v.color[c] };
                assert_eq!(word, expected);
            }
        }
    }
}

#[test]
fn init_render_resize_before_window() {
    let mut app = MyApp::init();
    assert_eq!(app, MyApp { has_window: false, core: None });
    assert_eq!(app.render(), RenderStep::Skip);
    assert!(!app.resize(640, 480));
    assert_eq!(app, MyApp::init());
    assert_eq!(app.window_event(AppEvent::Resized { width: 1, height: 1 }), Command::Nothing);
    assert_eq!(app.window_event(AppEvent::RedrawRequested), Command::Render(RenderStep::Skip));
}

#[test]
fn resumed_sets_up_once() {
    let mut app = MyApp::init();
    assert!(app.needs_window());
    assert!(app.resumed(&caps()));
    assert!(!app.needs_window());
    let cfg = app.core.unwrap().surface_cfg;
    assert_eq!((cfg.width, cfg.height), (WINDOW_WIDTH, WINDOW_HEIGHT));
    assert_eq!((cfg.width, cfg.height), (800, 400));
    assert_eq!(cfg.format_index, 1);
    let before = app;
    assert!(!app.resumed(&SurfaceCaps { format_is_srgb: vec![true], present_mode_count: 1, alpha_mode_count: 1 }));
    assert_eq!(app, before);
}

#[test]
fn events_after_resume() {
    let mut app = MyApp::init();
    app.resumed(&caps());
    assert_eq!(app.window_event(AppEvent::RedrawRequested), Command::Render(RenderStep::Frame(Some(triangle_draw()))));
    assert_eq!(app.window_event(AppEvent::Resized { width: 300, height: 200 }), Command::Configure);
    let cfg = app.core.unwrap().surface_cfg;
    assert_eq!((cfg.width, cfg.height, cfg.format_index), (300, 200, 1));
    // this lesson does not guard against an empty size
    assert_eq!(app.window_event(AppEvent::Resized { width: 0, height: 0 }), Command::Configure);
    assert_eq!(app.core.unwrap().surface_cfg.width, 0);
    assert_eq!(app.window_event(AppEvent::CloseRequested), Command::Exit);
    assert_eq!(app.window_event(AppEvent::Other), Command::Nothing);
}

#[test]
fn last_resize_wins() {
    let mut a = MyApp::init();
    a.resumed(&caps());
    let mut b = a;
    a.resize(10, 20);
    a.resize(30, 40);
    b.resize(30, 40);
    assert_eq!(a, b);
}

#[test]
fn frame_errors() {
    let mut app = MyApp::init();
    app.resumed(&caps());
    let before = app;
    assert_eq!(app.frame_failed(FrameError::Timeout, 5, 6), Command::Nothing);
    assert_eq!(app.frame_failed(FrameError::OutOfMemory, 5, 6), Command::Nothing);
    assert_eq!(app.frame_failed(FrameError::Other, 5, 6), Command::Nothing);
    assert_eq!(app, before);
    assert_eq!(app.frame_failed(FrameError::Lost, 5, 6), Command::Configure);
    assert_eq!(app.core.unwrap().surface_cfg.width, 5);
    assert_eq!(app.frame_failed(FrameError::Outdated, 7, 8), Command::Configure);
    assert_eq!(app.core.unwrap().surface_cfg.height, 8);
}

#[test]
fn triangle_buffer_bytes_in_either_byte_order() {
    let t = MyVertex::triangle_rgb();
    let bytes = vertex_bytes(&t);
    assert_eq!(&bytes[0..4], &[0, 0, 0, 0]);
    let words = vertex_words(&t);
    let little: Vec<u8> = words.iter().flat_map(|w| w.to_le_bytes()).collect();
    let big: Vec<u8> = words.iter().flat_map(|w| w.to_be_bytes()).collect();
    assert!(bytes == little || bytes == big);
    // bytes 4..8 hold 0.5 of the top corner's y coordinate
    let y = [bytes[4], bytes[5], bytes[6], bytes[7]];
    assert_eq!(f32::from_ne_bytes(y), 0.5);
}

#[test]
fn lesson_setup_values() {
    let s = setup();
    assert_eq!(s.title, "My Exam");
    assert_eq!((s.width, s.height), (800, 400));
    assert_eq!(s.pipeline.vertex_entry_point, "vertex_main");
    assert_eq!(s.pipeline.fragment_entry_point, "fragment_main");
    assert_eq!(s.pipeline.topology, PrimitiveTopology::TriangleList);
    assert_eq!(s.pipeline.front_face, FrontFace::Ccw);
    assert_eq!(s.pipeline.cull_mode, Some(Face::Back));
    assert_eq!(s.pipeline.polygon_mode, PolygonMode::Fill);
    assert_eq!((s.pipeline.sample_count, s.pipeline.sample_mask), (1, !0u64));
    assert!(!s.pipeline.alpha_to_coverage_enabled && !s.pipeline.conservative && !s.pipeline.unclipped_depth);
    assert_eq!(s.pipeline.blend, BlendState::Replace);
    assert_eq!(s.pipeline.write_mask, ColorWrites::All);
    assert_eq!(s.pipeline.immediate_size, 0);
    assert_eq!(s.vertex_layout, MyVertex::desc());
    assert_eq!(s.vertex_buffer, vertex_bytes(&MyVertex::triangle_rgb()));
    assert_eq!(s.vertex_buffer_usage, BufferUsage::Vertex);
}

#[test]
fn gpu_state_without_window_renders_nothing() {
    let core = Core { surface_cfg: wgpu_lessons::frame::plan_surface_config(&caps(), 8, 8) };
    let app = MyApp { has_window: false, core: Some(core) };
    assert_eq!(app.render(), RenderStep::Skip);
}
