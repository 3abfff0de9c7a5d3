use rei::app::{App, State};
use rei::pipeline::{
    create_render_pipeline, BindGroupKind, Blend, ColourWrites, CompareFunction, DepthState, Face,
    FrontFace, Pipeline, PipelineLayout, PolygonMode, StencilFaceState, StencilOperation,
    StencilState, Topology, VertexLayout,
};
use rei::platform::{LimitsPreset, Platform};
use rei::startup::{
    AdapterRequest, Backends, DeviceRequest, Dx12Compiler, GuiSetup, InstanceSetup,
    PowerPreference, SceneSetup, Stage, Startup, StartupAction, StartupError, StartupEvent,
    UniformSetup,
};
use rei::surface::{PhysicalSize, SurfaceCapabilities, SurfaceConfig};
use wgpu::{CompositeAlphaMode, TextureFormat};

const SIZE: PhysicalSize = PhysicalSize { width: 320, height: 240 };
const DEPTH: TextureFormat = TextureFormat::Depth32Float;

fn capabilities() -> SurfaceCapabilities {
    SurfaceCapabilities {
        formats: vec![TextureFormat::Rgba8Unorm, TextureFormat::Rgba8UnormSrgb],
        alpha_modes: vec![CompositeAlphaMode::Auto],
    }
}

/// Succeeds until `stage` is reached.
fn startup_at(stage: Stage) -> Startup<&'static str> {
    let mut startup = Startup::new(Platform::Native, SIZE, DEPTH);
    while startup.stage() != stage {
        if startup.stage() == Stage::Capabilities {
            startup.advance(StartupEvent::Capabilities(capabilities()));
        } else {
            startup.advance(StartupEvent::Done);
        }
    }
    startup
}

#[test]
fn setup_runs_through_in_order() {
    let config = SurfaceConfig::new(SIZE, &capabilities());
    let format = TextureFormat::Rgba8UnormSrgb;
    let expected = vec![
        StartupAction::CreateSurface(InstanceSetup {
            backends: Backends::All,
            dx12_shader_compiler: Dx12Compiler::Fxc,
        }),
        StartupAction::RequestAdapter(AdapterRequest {
            power_preference: PowerPreference::LowPower,
            for_surface: true,
            force_fallback: false,
        }),
        StartupAction::RequestDevice(DeviceRequest { features: 0, limits: LimitsPreset::Default }),
        StartupAction::ReadCapabilities,
        StartupAction::ConfigureSurface(config),
        StartupAction::CreateScene(SceneSetup { size: SIZE, light: UniformSetup::light() }),
        StartupAction::LoadShader(Pipeline::Model),
        StartupAction::CreateDepthTexture(config.depth_texture()),
        StartupAction::CreatePipeline(Pipeline::Model.description(format, DEPTH)),
        StartupAction::LoadShader(Pipeline::Light),
        StartupAction::CreatePipeline(Pipeline::Light.description(format, DEPTH)),
        StartupAction::LoadShader(Pipeline::Collider),
        StartupAction::CreatePipeline(Pipeline::Collider.description(format, DEPTH)),
        StartupAction::LoadShader(Pipeline::Outline),
        StartupAction::CreatePipeline(Pipeline::Outline.description(format, DEPTH)),
        StartupAction::CreateMsaaTexture(config.msaa_texture()),
        StartupAction::CreateGui(GuiSetup {
            physical_width: 320,
            physical_height: 240,
            colour_format: format,
            depth_format: DEPTH,
            sample_count: 4,
        }),
        StartupAction::CreateColliders,
        StartupAction::Finish,
    ];
    let mut startup: Startup<&str> = Startup::new(Platform::Native, SIZE, DEPTH);
    for (position, action) in expected.iter().enumerate() {
        assert_eq!(startup.action(), *action);
        let event = match action {
            StartupAction::ReadCapabilities => StartupEvent::Capabilities(capabilities()),
            _ => StartupEvent::Done,
        };
        assert_eq!(*action == StartupAction::Finish, position == 18);
        if *action != StartupAction::Finish {
            startup.advance(event);
        }
    }
    assert_eq!(expected.len(), 19);
    assert_eq!(startup.stage(), Stage::Ready);
    assert_eq!(startup.config(), Some(config));
}

#[test]
fn finished_setup_gives_the_application_its_configuration() {
    let config = SurfaceConfig::new(SIZE, &capabilities());
    let startup = startup_at(Stage::Ready);
    let app: App<u32, u32, u32> = startup.finish();
    assert_eq!(app.surface.config(), config);
    assert_eq!(app.state, State::Loading);
    let app: App<u32, u32, u32> = startup.outcome().unwrap();
    assert_eq!(app.surface.config(), config);
    assert_eq!(*app.size(), SIZE);
    assert!(app.song.is_none());
}

#[test]
fn limits_depend_on_the_platform() {
    assert_eq!(Platform::Native.limits(), LimitsPreset::Default);
    let web = Platform::Web { origin: "https://example.org" };
    assert_eq!(web.limits(), LimitsPreset::DownlevelWebGl2);
    let mut startup: Startup<&str> = Startup::new(web, SIZE, DEPTH);
    startup.advance(StartupEvent::Done);
    startup.advance(StartupEvent::Done);
    assert_eq!(
        startup.action(),
        StartupAction::RequestDevice(DeviceRequest {
            features: 0,
            limits: LimitsPreset::DownlevelWebGl2,
        })
    );
}

#[test]
fn missing_adapter_ends_the_setup() {
    let mut startup = startup_at(Stage::Adapter);
    startup.advance(StartupEvent::NoAdapter);
    assert_eq!(startup.stage(), Stage::Failed);
    assert_eq!(startup.action(), StartupAction::Fail(&StartupError::Adapter));
    let error = startup.outcome::<u32, u32, u32>().unwrap_err();
    assert_eq!(error, StartupError::Adapter);
    assert_eq!(error.message(), Some("Error requesting wgpu adapter."));
}

#[test]
fn failed_step_reports_its_own_error() {
    let failures = [
        (Stage::Surface, StartupError::Surface("lost")),
        (Stage::Device, StartupError::Device("lost")),
        (Stage::Shader(Pipeline::Model), StartupError::Shader(Pipeline::Model, "lost")),
        (Stage::Shader(Pipeline::Light), StartupError::Shader(Pipeline::Light, "lost")),
        (Stage::Shader(Pipeline::Collider), StartupError::Shader(Pipeline::Collider, "lost")),
        (Stage::Shader(Pipeline::Outline), StartupError::Shader(Pipeline::Outline, "lost")),
    ];
    for (stage, error) in failures {
        let mut startup = startup_at(stage);
        startup.advance(StartupEvent::Failed("lost"));
        assert_eq!(startup.stage(), Stage::Failed);
        assert_eq!(startup.action(), StartupAction::Fail(&error));
        assert_eq!(startup.outcome::<u32, u32, u32>().unwrap_err(), error);
        assert_eq!(error.message(), None);
    }
}

#[test]
fn pipelines_follow_their_shaders() {
    for pipeline in [Pipeline::Light, Pipeline::Collider, Pipeline::Outline] {
        let mut startup = startup_at(Stage::Shader(pipeline));
        startup.advance(StartupEvent::Done);
        assert_eq!(startup.stage(), Stage::Pipeline(pipeline));
    }
    let mut startup = startup_at(Stage::Shader(Pipeline::Model));
    startup.advance(StartupEvent::Done);
    assert_eq!(startup.stage(), Stage::DepthTexture);
    startup.advance(StartupEvent::Done);
    assert_eq!(startup.stage(), Stage::Pipeline(Pipeline::Model));
}

#[test]
fn shaders_have_files_and_labels() {
    assert_eq!(Pipeline::Model.shader_path(), "shaders/model_shader.wgsl");
    assert_eq!(Pipeline::Light.shader_path(), "shaders/light_shader.wgsl");
    assert_eq!(Pipeline::Collider.shader_path(), "shaders/collider_debug_shader.wgsl");
    assert_eq!(Pipeline::Outline.shader_path(), "shaders/collider_outline_shader.wgsl");
    assert_eq!(Pipeline::Model.shader_label(), "model shader");
    assert_eq!(Pipeline::Light.shader_label(), "Light shader");
    assert_eq!(Pipeline::Collider.shader_label(), "collider shader");
    assert_eq!(Pipeline::Outline.shader_label(), "outline shader");
}

#[test]
fn model_pipeline_is_solid() {
    let ignored = StencilFaceState {
        test: CompareFunction::Always,
        fail: StencilOperation::Keep,
        depth_fail: StencilOperation::Keep,
        pass: StencilOperation::Keep,
    };
    let pipeline = Pipeline::Model.description(TextureFormat::Bgra8UnormSrgb, DEPTH);
    assert_eq!(pipeline.label, "render pipeline");
    assert_eq!(pipeline.layout.label, "pipeline layout descriptor");
    assert_eq!(
        pipeline.layout.groups,
        vec![BindGroupKind::Camera, BindGroupKind::Texture, BindGroupKind::Light]
    );
    assert_eq!(pipeline.vertex_buffers, vec![VertexLayout::Model]);
    assert_eq!(pipeline.topology, Topology::TriangleList);
    assert_eq!(pipeline.cull_mode, Some(Face::Back));
    assert_eq!(pipeline.front_face, FrontFace::Ccw);
    assert_eq!(pipeline.polygon_mode, PolygonMode::Fill);
    assert_eq!(pipeline.blend, Blend::AlphaBlending);
    assert_eq!(
        pipeline.depth,
        Some(DepthState {
            format: DEPTH,
            write_enabled: true,
            test: CompareFunction::Less,
            stencil: StencilState { front: ignored, back: ignored, read_mask: 0, write_mask: 0 },
            bias: 0,
        })
    );
    assert_eq!(pipeline.sample_count, 4);
    assert_eq!(pipeline.vertex_entry, "vs_main");
    assert_eq!(pipeline.fragment_entry, "fs_main");
    assert!(!pipeline.unclipped_depth);
    assert!(!pipeline.conservative);
}

#[test]
fn pipelines_write_everything_to_one_view() {
    let all = ColourWrites { red: true, green: true, blue: true, alpha: true };
    for pipeline in [Pipeline::Model, Pipeline::Light, Pipeline::Collider, Pipeline::Outline] {
        let description = pipeline.description(TextureFormat::Bgra8UnormSrgb, DEPTH);
        assert_eq!(description.write_mask, all);
        assert_eq!(description.strip_index_format, None);
        assert_eq!(description.sample_mask, 0xffff_ffff_ffff_ffff);
        assert!(!description.alpha_to_coverage);
        assert_eq!(description.multiview, None);
    }
}

#[test]
fn pipelines_need_no_feature() {
    for pipeline in [Pipeline::Model, Pipeline::Light, Pipeline::Collider, Pipeline::Outline] {
        let description = pipeline.description(TextureFormat::Bgra8UnormSrgb, DEPTH);
        assert_eq!(description.polygon_mode, PolygonMode::Fill);
        assert!(!description.unclipped_depth);
        assert!(!description.conservative);
        assert_eq!(description.multiview, None);
        assert!(description.layout.push_constants.is_empty());
    }
}

#[test]
fn outline_pipeline_draws_lines() {
    let pipeline = Pipeline::Outline.description(TextureFormat::Bgra8UnormSrgb, DEPTH);
    assert_eq!(pipeline.label, "Outline pipeline");
    assert_eq!(pipeline.layout.label, "outline pipeline layout");
    assert_eq!(pipeline.layout.groups, vec![BindGroupKind::Camera]);
    assert_eq!(pipeline.vertex_buffers, vec![VertexLayout::Collider, VertexLayout::Instance]);
    assert_eq!(pipeline.topology, Topology::LineList);
    assert_eq!(pipeline.cull_mode, None);
    assert_eq!(pipeline.sample_count, 4);
}

#[test]
fn light_and_collider_pipelines() {
    let light = Pipeline::Light.description(TextureFormat::Bgra8UnormSrgb, DEPTH);
    assert_eq!(light.label, "light pipeline");
    assert_eq!(light.layout.label, "Light pipeline layout");
    assert_eq!(light.layout.groups, vec![BindGroupKind::Camera, BindGroupKind::Light]);
    let collider = Pipeline::Collider.description(TextureFormat::Bgra8UnormSrgb, DEPTH);
    assert_eq!(collider.label, "collider pipeline");
    assert_eq!(collider.layout.label, "Collider pipeline layout");
    assert_eq!(collider.topology, Topology::TriangleList);
}

#[test]
fn pipeline_without_depth_format_has_no_depth_test() {
    let layout = PipelineLayout {
        label: String::from("bare layout"),
        groups: vec![],
        push_constants: vec![],
    };
    let pipeline = create_render_pipeline(
        "bare",
        layout,
        TextureFormat::Rgba8Unorm,
        None,
        vec![],
        Pipeline::Light,
        1,
    );
    assert_eq!(pipeline.label, "bare");
    assert_eq!(pipeline.layout.label, "bare layout");
    assert_eq!(pipeline.depth, None);
    assert_eq!(pipeline.sample_count, 1);
    assert_eq!(pipeline.shader, Pipeline::Light);
    assert_eq!(pipeline.colour_format, TextureFormat::Rgba8Unorm);
}

#[test]
fn light_is_one_writable_uniform() {
    let light = UniformSetup::light();
    assert_eq!(light.buffer_label, "Light buffer");
    assert_eq!(light.layout_label, "light bind group layout");
    assert_eq!(light.group_label, "light bind group");
    assert_eq!(light.binding, 0);
    assert!(light.visible_to_vertices && light.visible_to_fragments);
    assert!(!light.dynamic_offset);
    assert_eq!(light.min_size, None);
    assert_eq!(light.count, None);
    assert!(light.writable);
}

#[test]
fn setup_fits_together() {
    let mut startup = startup_at(Stage::Pipeline(Pipeline::Model));
    let msaa = startup.config().unwrap().msaa_texture();
    while startup.stage() != Stage::Ready {
        match startup.action() {
            StartupAction::CreatePipeline(pipeline) => {
                assert_eq!(pipeline.colour_format, msaa.format);
                assert_eq!(pipeline.sample_count, msaa.sample_count);
            }
            StartupAction::CreateGui(gui) => {
                assert_eq!(gui.colour_format, msaa.format);
                assert_eq!(gui.sample_count, msaa.sample_count);
                assert_eq!(gui.depth_format, DEPTH);
            }
            StartupAction::CreateMsaaTexture(texture) => assert_eq!(texture, msaa),
            _ => {}
        }
        startup.advance(StartupEvent::Done);
    }
}
