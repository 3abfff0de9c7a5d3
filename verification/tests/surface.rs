use rei::app::{App, FrameStart, MusicAction, State};
use rei::format::{preferred_index, surface_format};
use rei::pipeline::Pipeline;
use rei::surface::{
    depth_texture_label, msaa_texture_label, DepthTexture, PhysicalSize, PresentMode,
    SurfaceCapabilities, SurfaceCommand, SurfaceConfig, SurfaceState, TextureDescription,
    TextureDimension, TextureUsage, SAMPLE_COUNT,
};
use wgpu::{CompositeAlphaMode, TextureFormat};

type TestApp = App<u32, &'static str, u64>;

fn config() -> SurfaceConfig {
    let capabilities = SurfaceCapabilities {
        formats: vec![TextureFormat::Bgra8Unorm, TextureFormat::Bgra8UnormSrgb],
        alpha_modes: vec![CompositeAlphaMode::Opaque, CompositeAlphaMode::Auto],
    };
    SurfaceConfig::new(PhysicalSize { width: 800, height: 600 }, &capabilities)
}

#[test]
fn first_srgb_format_is_taken() {
    let formats = [
        TextureFormat::Rgba16Float,
        TextureFormat::Bgra8Unorm,
        TextureFormat::Bgra8UnormSrgb,
        TextureFormat::Rgba8UnormSrgb,
    ];
    assert_eq!(surface_format(&formats), TextureFormat::Bgra8UnormSrgb);
}

#[test]
fn first_format_is_taken_without_srgb() {
    let formats = [TextureFormat::Rgba16Float, TextureFormat::Bgra8Unorm];
    assert_eq!(surface_format(&formats), TextureFormat::Rgba16Float);
}

#[test]
fn compressed_srgb_formats_count_as_srgb() {
    let formats = [TextureFormat::Bc1RgbaUnorm, TextureFormat::Bc1RgbaUnormSrgb];
    assert_eq!(surface_format(&formats), TextureFormat::Bc1RgbaUnormSrgb);
}

#[test]
fn preferred_index_is_that_of_the_first_flag() {
    assert_eq!(preferred_index(&[false, true, true]), 1);
    assert_eq!(preferred_index(&[true]), 0);
    assert_eq!(preferred_index(&[false, false]), 0);
    assert_eq!(preferred_index(&[]), 0);
}

#[test]
fn surface_is_configured_from_its_capabilities() {
    let config = config();
    assert_eq!(config.usage, TextureUsage::RenderAttachment);
    assert_eq!(config.format, TextureFormat::Bgra8UnormSrgb);
    assert_eq!((config.width, config.height), (800, 600));
    assert_eq!(config.present_mode, PresentMode::Fifo);
    assert_eq!(config.alpha_mode, CompositeAlphaMode::Opaque);
    assert_eq!(config.view_format, None);
}

#[test]
fn capabilities_need_a_format_and_an_alpha_mode() {
    let none = SurfaceCapabilities { formats: vec![], alpha_modes: vec![CompositeAlphaMode::Auto] };
    assert!(!none.is_usable());
    let none = SurfaceCapabilities { formats: vec![TextureFormat::Bgra8Unorm], alpha_modes: vec![] };
    assert!(!none.is_usable());
    let some = SurfaceCapabilities {
        formats: vec![TextureFormat::Bgra8Unorm],
        alpha_modes: vec![CompositeAlphaMode::Auto],
    };
    assert!(some.is_usable());
}

#[test]
fn new_application_is_loading_and_empty() {
    let mut app = TestApp::new(config());
    assert_eq!(app.state, State::Loading);
    assert_eq!(*app.size(), PhysicalSize { width: 800, height: 600 });
    assert_eq!(app.surface.config(), config());
    assert!(app.rei_model.is_none());
    assert!(app.light_model.is_none());
    assert!(app.song.is_none());
    assert!(app.song_handle_mut().is_none());
    assert_eq!(app.play_music(), MusicAction::OpenAudio);
    assert!(!app.can_play());
    assert!(!app.shows_colliders());
}

#[test]
fn resize_replaces_the_attachments() {
    let mut app = TestApp::new(config());
    let commands = app.resize(PhysicalSize { width: 1024, height: 768 });
    let resized = SurfaceConfig { width: 1024, height: 768, ..config() };
    let depth = DepthTexture { width: 1024, height: 768 };
    let msaa = TextureDescription {
        width: 1024,
        height: 768,
        depth_or_array_layers: 1,
        sample_count: 4,
        dimension: TextureDimension::D2,
        format: TextureFormat::Bgra8UnormSrgb,
        usage: TextureUsage::RenderAttachment,
        mip_level_count: 1,
        view_format: None,
    };
    assert_eq!(
        commands,
        vec![
            SurfaceCommand::Configure(resized),
            SurfaceCommand::CreateDepthTexture(depth),
            SurfaceCommand::CreateMsaaTexture(msaa),
            SurfaceCommand::CreateMsaaView,
        ]
    );
    assert_eq!(*app.size(), PhysicalSize { width: 1024, height: 768 });
    assert_eq!(app.surface.config(), resized);
    assert_eq!(app.surface.depth_texture(), depth);
    assert_eq!(app.surface.msaa_texture(), msaa);
}

#[test]
fn window_without_area_is_left_alone() {
    let mut app = TestApp::new(config());
    assert!(app.resize(PhysicalSize { width: 0, height: 768 }).is_empty());
    assert!(app.resize(PhysicalSize { width: 1024, height: 0 }).is_empty());
    assert!(app.resize(PhysicalSize { width: 0, height: 0 }).is_empty());
    assert_eq!(*app.size(), PhysicalSize { width: 800, height: 600 });
    assert_eq!(app.surface.config(), config());
}

#[test]
fn last_resize_wins() {
    let mut once = TestApp::new(config());
    let mut twice = TestApp::new(config());
    let last = PhysicalSize { width: 320, height: 200 };
    twice.resize(PhysicalSize { width: 1, height: 9000 });
    assert_eq!(once.resize(last), twice.resize(last));
    assert_eq!(once.surface.config(), twice.surface.config());
    assert_eq!(once.surface.msaa_texture(), twice.surface.msaa_texture());
    assert_eq!(once.surface.depth_texture(), twice.surface.depth_texture());
}

#[test]
fn surface_has_the_last_size_with_area() {
    let mut app = TestApp::new(config());
    app.resize(PhysicalSize { width: 9, height: 8 });
    app.ui(true);
    app.resize(PhysicalSize { width: 7, height: 6 });
    app.audio_opened(Some(1));
    app.resize(PhysicalSize { width: 0, height: 5 });
    app.playback_started(Some(3));
    assert_eq!(*app.size(), PhysicalSize { width: 7, height: 6 });
    let last = SurfaceState::new(SurfaceConfig { width: 7, height: 6, ..config() });
    assert_eq!(app.surface, last);
}

#[test]
fn pipelines_fit_after_a_resize() {
    let mut app = TestApp::new(config());
    app.resize(PhysicalSize { width: 5, height: 6 });
    for pipeline in [Pipeline::Model, Pipeline::Light, Pipeline::Collider, Pipeline::Outline] {
        let description = pipeline.description(config().format, TextureFormat::Depth32Float);
        assert_eq!(description.colour_format, app.surface.msaa_texture().format);
        assert_eq!(description.sample_count, app.surface.msaa_texture().sample_count);
    }
}

#[test]
fn loaded_frame_is_laid_out_for_the_surface() {
    let mut app = TestApp::new(config());
    app.state = State::Playing;
    app.resize(PhysicalSize { width: 640, height: 480 });
    assert_eq!(
        app.render(Ok(())),
        Ok(FrameStart::RunGui(PhysicalSize { width: 640, height: 480 }))
    );
}

#[test]
fn surface_keeps_its_textures_in_step() {
    let mut surface = SurfaceState::new(config());
    assert_eq!(surface.config(), config());
    assert_eq!(*surface.size(), PhysicalSize { width: 800, height: 600 });
    assert_eq!(surface.depth_texture(), DepthTexture { width: 800, height: 600 });
    assert_eq!(surface.msaa_texture(), config().msaa_texture());
    assert!(surface.resize(PhysicalSize { width: 0, height: 7 }).is_empty());
    assert_eq!(surface, SurfaceState::new(config()));
    assert_eq!(surface.resize(PhysicalSize { width: 8, height: 7 }).len(), 4);
    assert_eq!(surface, SurfaceState::new(SurfaceConfig { width: 8, height: 7, ..config() }));
}

#[test]
fn labels_and_sample_count() {
    assert_eq!(depth_texture_label(), "depth texture");
    assert_eq!(msaa_texture_label(), "msaa texture");
    assert_eq!(SAMPLE_COUNT, 4);
}

#[test]
fn attachments_follow_the_surface() {
    let mut app = TestApp::new(config());
    app.resize(PhysicalSize { width: 33, height: 44 });
    let surface = SurfaceState::new(SurfaceConfig { width: 33, height: 44, ..config() });
    assert_eq!(app.surface, surface);
    app.ui(true);
    app.audio_opened(Some(1));
    app.playback_started(Some(2));
    assert_eq!(app.surface, surface);
    assert_eq!(app.surface.depth_texture(), app.surface.config().depth_texture());
    assert_eq!(app.surface.msaa_texture(), app.surface.config().msaa_texture());
    assert_eq!(app.surface.config().format, config().format);
}
