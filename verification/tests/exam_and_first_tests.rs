use wgpu_lessons::frame::{AppEvent, Command, DrawCall, FrameError, RenderStep, SurfaceCaps};
use wgpu_lessons::learn_module::_3_buffer_vertex_exam as exam;
use wgpu_lessons::learn_module::first_vertex_fragment as first;

fn caps() -> SurfaceCaps {
    SurfaceCaps { format_is_srgb: vec![false, false], present_mode_count: 2, alpha_mode_count: 2 }
}

fn draw_without_buffer() -> DrawCall {
    DrawCall { vertex_start: 0, vertex_end: 3, instance_start: 0, instance_end: 1, vertex_buffer_slot: None }
}

#[test]
fn exam_lifecycle() {
    let mut app = exam::MyApp::init();
    assert_eq!(app.render(), RenderStep::Skip);
    assert!(!app.resize(1, 1));
    assert!(app.resumed(&caps()));
    let cfg = app.core.unwrap().surface_cfg;
    assert_eq!((cfg.width, cfg.height, cfg.format_index), (800, 500, 0));
    assert_eq!((exam::WINDOW_WIDTH, exam::WINDOW_HEIGHT), (800, 500));
    assert_eq!(app.render(), RenderStep::Frame(Some(draw_without_buffer())));
    assert_eq!(app.window_event(AppEvent::Resized { width: 640, height: 360 }), Command::Configure);
    assert_eq!(app.core.unwrap().surface_cfg.width, 640);
    assert_eq!(app.frame_failed(FrameError::Outdated, 320, 180), Command::Configure);
    assert_eq!(app.core.unwrap().surface_cfg.height, 180);
    assert_eq!(app.frame_failed(FrameError::Timeout, 1, 1), Command::Nothing);
    assert_eq!(app.core.unwrap().surface_cfg.height, 180);
    assert!(!app.resumed(&caps()));
    assert_eq!(app.window_event(AppEvent::CloseRequested), Command::Exit);
}

#[test]
fn first_lesson_lifecycle() {
    let mut app = first::MyApp { has_window: false, core: None };
    assert!(app.needs_window());
    assert!(!app.resize(10, 10));
    assert_eq!(app, first::MyApp { has_window: false, core: None });
    assert!(app.resumed(&SurfaceCaps { format_is_srgb: vec![false, true, true], present_mode_count: 1, alpha_mode_count: 1 }));
    let cfg = app.core.unwrap().surface_cfg;
    assert_eq!((cfg.width, cfg.height, cfg.format_index), (800, 500, 1));
    assert_eq!(app.render(), RenderStep::Frame(Some(draw_without_buffer())));
    assert_eq!(app.window_event(AppEvent::RedrawRequested), Command::Render(RenderStep::Frame(Some(draw_without_buffer()))));
    assert_eq!(app.window_event(AppEvent::Resized { width: 2, height: 3 }), Command::Configure);
    assert_eq!(app.frame_failed(FrameError::Lost, 4, 5), Command::Configure);
    let cfg = app.core.unwrap().surface_cfg;
    assert_eq!((cfg.width, cfg.height, cfg.format_index), (4, 5, 1));
    assert_eq!(app.window_event(AppEvent::Other), Command::Nothing);
    assert_eq!(app.window_event(AppEvent::CloseRequested), Command::Exit);
}

#[test]
fn exam_and_first_setup_values() {
    let e = exam::setup();
    assert_eq!(e.title, "My Buffer Exam");
    assert_eq!((e.width, e.height), (800, 500));
    assert_eq!((e.pipeline.vertex_entry_point, e.pipeline.fragment_entry_point), ("main_vertex", "main_fragement"));
    let f = first::setup();
    assert_eq!(f.title, "my app");
    assert_eq!((f.width, f.height), (800, 500));
    assert_eq!((f.pipeline.vertex_entry_point, f.pipeline.fragment_entry_point), ("vertex_main", "fragment_main"));
    assert_eq!(e.pipeline.cull_mode, f.pipeline.cull_mode);
}
