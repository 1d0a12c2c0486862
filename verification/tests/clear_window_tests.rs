use wgpu_lessons::clear_window::{CoreMyApp, MyApp, WINDOW_HEIGHT, WINDOW_WIDTH};
use wgpu_lessons::frame::{AppEvent, Command, FrameError, RenderStep, SurfaceCaps};

fn fresh() -> MyApp {
    MyApp { has_window: false, core: None }
}

fn caps() -> SurfaceCaps {
    SurfaceCaps { format_is_srgb: vec![false, true], present_mode_count: 3, alpha_mode_count: 1 }
}

#[test]
fn nothing_before_window() {
    let mut app = fresh();
    assert_eq!(app.render(), RenderStep::Skip);
    assert_eq!(app.window_event(AppEvent::Resized { width: 100, height: 100 }), Command::Nothing);
    assert_eq!(app, fresh());
}

#[test]
fn resumed_surface_starts_unconfigured() {
    let mut app = fresh();
    assert!(app.resumed(&caps()));
    let core: CoreMyApp = app.core.unwrap();
    assert!(!core.is_surface_cfg);
    assert_eq!((core.config.width, core.config.height), (WINDOW_WIDTH, WINDOW_HEIGHT));
    assert_eq!((core.config.width, core.config.height), (800, 500));
    assert_eq!(core.config.format_index, 1);
    assert_eq!(app.render(), RenderStep::RequestRedraw);
    assert!(!app.resumed(&caps()));
}

#[test]
fn zero_size_is_ignored() {
    let mut app = fresh();
    app.resumed(&caps());
    let before = app;
    assert!(!app.resize(0, 300));
    assert!(!app.resize(300, 0));
    assert_eq!(app.window_event(AppEvent::Resized { width: 0, height: 0 }), Command::Nothing);
    assert_eq!(app, before);
    assert_eq!(app.render(), RenderStep::RequestRedraw);
}

#[test]
fn first_positive_resize_enables_frames() {
    let mut app = fresh();
    app.resumed(&caps());
    assert_eq!(app.window_event(AppEvent::Resized { width: 1280, height: 720 }), Command::Configure);
    let core = app.core.unwrap();
    assert!(core.is_surface_cfg);
    assert_eq!((core.config.width, core.config.height), (1280, 720));
    assert_eq!(app.window_event(AppEvent::RedrawRequested), Command::Render(RenderStep::Frame(None)));
    // a later empty size keeps the surface configured at its last size
    assert!(!app.resize(0, 0));
    assert_eq!(app.core.unwrap().config.width, 1280);
    assert_eq!(app.render(), RenderStep::Frame(None));
}

#[test]
fn frame_error_recovery() {
    let mut app = fresh();
    app.resumed(&caps());
    app.resize(640, 480);
    assert_eq!(app.frame_failed(FrameError::Lost, 800, 600), Command::Configure);
    assert_eq!(app.core.unwrap().config.width, 800);
    assert_eq!(app.frame_failed(FrameError::Outdated, 0, 600), Command::Nothing);
    assert_eq!(app.core.unwrap().config.width, 800);
    assert_eq!(app.frame_failed(FrameError::Timeout, 10, 10), Command::Nothing);
    assert_eq!(app.core.unwrap().config.height, 600);
    assert_eq!(app.window_event(AppEvent::CloseRequested), Command::Exit);
    assert_eq!(app.window_event(AppEvent::Other), Command::Nothing);
}

#[test]
fn clear_window_setup_values() {
    let s = wgpu_lessons::clear_window::setup();
    assert_eq!(s.title, "my app");
    assert_eq!((s.width, s.height), (800, 500));
}
