use wgpu_lessons::frame::{
    needs_reconfigure, plan_surface_config, preferred_format_index, set_size, FrameError,
    SurfaceCaps, SurfaceConfig, TextureUsage,
};

fn caps(flags: Vec<bool>) -> SurfaceCaps {
    SurfaceCaps { format_is_srgb: flags, present_mode_count: 2, alpha_mode_count: 3 }
}

#[test]
fn preferred_format_is_first_srgb() {
    assert_eq!(preferred_format_index(&vec![false, true, false, true]), 1);
    assert_eq!(preferred_format_index(&vec![true, false]), 0);
    assert_eq!(preferred_format_index(&vec![false, false, true]), 2);
}

#[test]
fn preferred_format_falls_back_to_first() {
    assert_eq!(preferred_format_index(&vec![false, false, false]), 0);
    assert_eq!(preferred_format_index(&vec![false]), 0);
}

#[test]
fn planned_config_uses_first_modes_and_latency_two() {
    let cfg = plan_surface_config(&caps(vec![false, false, true]), 800, 500);
    assert_eq!(
        cfg,
        SurfaceConfig {
            usage: TextureUsage::RenderAttachment,
            width: 800,
            height: 500,
            format_index: 2,
            present_mode_index: 0,
            alpha_mode_index: 0,
            view_format_count: 0,
            desired_maximum_frame_latency: 2,
        }
    );
}

#[test]
fn set_size_keeps_format_and_modes() {
    let mut cfg = plan_surface_config(&caps(vec![false, true]), 800, 400);
    set_size(&mut cfg, 1024, 768);
    assert_eq!(cfg.width, 1024);
    assert_eq!(cfg.height, 768);
    assert_eq!(cfg.format_index, 1);
    assert_eq!(cfg.present_mode_index, 0);
    assert_eq!(cfg.alpha_mode_index, 0);
    assert_eq!(cfg.desired_maximum_frame_latency, 2);
    assert_eq!(cfg.usage, TextureUsage::RenderAttachment);
    assert_eq!(cfg.view_format_count, 0);
}

#[test]
fn only_lost_or_outdated_frames_need_reconfigure() {
    assert!(needs_reconfigure(&FrameError::Lost));
    assert!(needs_reconfigure(&FrameError::Outdated));
    assert!(!needs_reconfigure(&FrameError::Timeout));
    assert!(!needs_reconfigure(&FrameError::OutOfMemory));
    assert!(!needs_reconfigure(&FrameError::Other));
}
