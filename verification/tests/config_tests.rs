use game_core::config::{
    parse_resolution, select_video_backend, GlobalConfig, GraphicsConfig, InputConfig,
    ResolutionError, VideoBackend,
};

#[test]
fn parses_a_plain_resolution() {
    assert_eq!(parse_resolution("1280x720"), Ok((1280, 720)));
    assert_eq!(parse_resolution("800X600"), Ok((800, 600)));
}

#[test]
fn whitespace_is_trimmed_around_string_and_segments() {
    assert_eq!(parse_resolution(" 1280X720 "), Ok((1280, 720)));
    assert_eq!(parse_resolution("1280 x 720"), Ok((1280, 720)));
    assert_eq!(parse_resolution("\t 800x600 \n"), Ok((800, 600)));
}

#[test]
fn inner_whitespace_in_a_number_still_fails() {
    assert_eq!(parse_resolution("12 80x720"), Err(ResolutionError::Width));
    assert_eq!(parse_resolution("1280x7 20"), Err(ResolutionError::Height));
}

#[test]
fn missing_separator_is_a_format_error() {
    assert_eq!(parse_resolution("1280720"), Err(ResolutionError::Format));
    assert_eq!(parse_resolution(""), Err(ResolutionError::Format));
    assert_eq!(parse_resolution("   "), Err(ResolutionError::Format));
}

#[test]
fn bad_width_segment() {
    assert_eq!(parse_resolution("x720"), Err(ResolutionError::Width));
    assert_eq!(parse_resolution(" x720"), Err(ResolutionError::Width));
    assert_eq!(parse_resolution("12a0x720"), Err(ResolutionError::Width));
    assert_eq!(parse_resolution("4294967296x720"), Err(ResolutionError::Width));
}

#[test]
fn bad_height_segment() {
    assert_eq!(parse_resolution("1280x"), Err(ResolutionError::Height));
    assert_eq!(parse_resolution("1280xabc"), Err(ResolutionError::Height));
}

#[test]
fn zero_dimension_is_rejected() {
    assert_eq!(parse_resolution("0x720"), Err(ResolutionError::NotPositive));
    assert_eq!(parse_resolution("1280x0"), Err(ResolutionError::NotPositive));
}

#[test]
fn first_separator_splits() {
    // The second `x` lands in the height segment and spoils it.
    assert_eq!(parse_resolution("1x2x3"), Err(ResolutionError::Height));
}

#[test]
fn window_size_with_fallback() {
    let g = GraphicsConfig::default();
    assert_eq!(g.window_resolution, "1270x720");
    assert_eq!(g.get_window_width(), 1270);
    assert_eq!(g.get_window_height(), 720);

    let broken = GraphicsConfig { window_resolution: "garbage".to_string(), ..g };
    assert_eq!(broken.get_window_width(), 1280);
    assert_eq!(broken.get_window_height(), 720);
}

#[test]
fn default_config_values() {
    let c = GlobalConfig::default();
    assert!(!c.graphics_config.fullscreen);
    assert!(c.graphics_config.vsync);
    assert_eq!(c.graphics_config.video_backend, "AUTO");
    let i = InputConfig::default();
    assert_eq!(i.inspector, "F1");
    assert_eq!(i.movement_jump, "Space");
    assert_eq!(i.movement_left, "A");
    assert_eq!(i.movement_right, "D");
}

#[test]
fn test_create_gpu_settings_primary() {
    assert_eq!(select_video_backend("primary"), VideoBackend::Primary);
    assert_eq!(select_video_backend("AUTO"), VideoBackend::Primary);
}

#[test]
fn test_create_gpu_settings_vulkan() {
    assert_eq!(select_video_backend("vulkan"), VideoBackend::Vulkan);
}

#[test]
fn test_create_gpu_settings_dx12() {
    assert_eq!(select_video_backend("DX12"), VideoBackend::Dx12);
}

#[test]
fn test_create_gpu_settings_metal() {
    assert_eq!(select_video_backend("metal"), VideoBackend::Metal);
}

#[test]
fn test_create_gpu_settings_invalid() {
    assert_eq!(select_video_backend("unknown-backend"), VideoBackend::Primary);
}
