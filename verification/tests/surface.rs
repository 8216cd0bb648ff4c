use overlay_shell::compositor::{compose_pass, CapturedLayer, LayerError, PassStep};
use overlay_shell::surface::{
    choose_alpha_mode, initial_surface_config, select_adapter, AcquireOutcome, AdapterKind,
    AlphaMode, FrameLoop, PixelFormat, PresentMode, SurfaceConfig, TickDirective,
};

#[test]
fn resize_clamps_to_one_by_one() {
    let mut config = SurfaceConfig {
        width: 800,
        height: 600,
        format: PixelFormat::Bgra8UnormSrgb,
        alpha_mode: AlphaMode::PreMultiplied,
        present_mode: PresentMode::Fifo,
    };
    config.on_resize(0, 0);
    assert_eq!(config.width, 1);
    assert_eq!(config.height, 1);
    config.on_resize(1024, 0);
    assert_eq!(config.width, 1024);
    assert_eq!(config.height, 1);
    config.on_resize(1280, 720);
    assert_eq!(config.width, 1280);
    assert_eq!(config.height, 720);
    assert_eq!(config.format, PixelFormat::Bgra8UnormSrgb);
    assert_eq!(config.present_mode, PresentMode::Fifo);
}

#[test]
fn alpha_mode_prefers_premultiplied() {
    let modes = vec![AlphaMode::Opaque, AlphaMode::PreMultiplied];
    assert_eq!(choose_alpha_mode(&modes), AlphaMode::PreMultiplied);
    let modes = vec![AlphaMode::Inherit, AlphaMode::Opaque];
    assert_eq!(choose_alpha_mode(&modes), AlphaMode::Inherit);
}

#[test]
fn initial_config_uses_first_format_and_clamps() {
    let formats = vec![PixelFormat::Rgba8Unorm, PixelFormat::Bgra8UnormSrgb];
    let modes = vec![AlphaMode::Opaque];
    let config = initial_surface_config(0, 600, &formats, &modes);
    assert_eq!(config.width, 1);
    assert_eq!(config.height, 600);
    assert_eq!(config.format, PixelFormat::Rgba8Unorm);
    assert_eq!(config.alpha_mode, AlphaMode::Opaque);
    assert_eq!(config.present_mode, PresentMode::Fifo);
}

#[test]
fn adapter_selection_prefers_hardware() {
    let kinds = vec![
        AdapterKind::Software,
        AdapterKind::Hardware,
        AdapterKind::Hardware,
    ];
    assert_eq!(select_adapter(&kinds, false), Some(1));
    let software_only = vec![AdapterKind::Software];
    assert_eq!(select_adapter(&software_only, false), None);
    assert_eq!(select_adapter(&software_only, true), Some(0));
    assert_eq!(select_adapter(&Vec::new(), true), None);
}

#[test]
fn surface_loss_reconfigures_then_escalates() {
    let mut frame_loop = FrameLoop::new();
    assert_eq!(
        frame_loop.on_acquire(AcquireOutcome::Acquired),
        TickDirective::Proceed
    );
    assert_eq!(
        frame_loop.on_acquire(AcquireOutcome::Lost),
        TickDirective::SkipAndReconfigure
    );
    assert_eq!(
        frame_loop.on_acquire(AcquireOutcome::OutOfMemory),
        TickDirective::Fatal
    );
}

#[test]
fn surface_recovery_resets_escalation() {
    let mut frame_loop = FrameLoop::new();
    assert_eq!(
        frame_loop.on_acquire(AcquireOutcome::Lost),
        TickDirective::SkipAndReconfigure
    );
    assert_eq!(
        frame_loop.on_acquire(AcquireOutcome::Acquired),
        TickDirective::Proceed
    );
    assert_eq!(
        frame_loop.on_acquire(AcquireOutcome::Lost),
        TickDirective::SkipAndReconfigure
    );
    assert_eq!(
        frame_loop.on_acquire(AcquireOutcome::Outdated),
        TickDirective::Skip
    );
}

#[test]
fn pass_order_blits_layer_before_base_draw() {
    assert_eq!(
        compose_pass(true),
        vec![
            PassStep::ClearBackground,
            PassStep::BlitCapturedLayer,
            PassStep::DrawBasePipeline
        ]
    );
    assert_eq!(
        compose_pass(false),
        vec![PassStep::ClearBackground, PassStep::DrawBasePipeline]
    );
}

#[test]
fn captured_layer_checks_byte_count() {
    let layer = CapturedLayer::new(2, 2, vec![0u8; 16]).unwrap();
    assert_eq!(layer.upload_layout(), (8, 2));
    let bad = CapturedLayer::new(2, 2, vec![0u8; 15]);
    assert_eq!(bad.unwrap_err(), LayerError::SizeMismatch);
}
