//! Setting up the graphics side, one request at a time.
//!
//! [`Startup::action`] says what to do next, and [`Startup::advance`] takes what came
//! of it, until the application is ready or something has failed. [`Startup::outcome`] is
//! what the setup comes to.
use vstd::prelude::*;

use crate::app::{App, AppView};
use crate::pipeline::{Pipeline, RenderPipeline};
use crate::platform::{LimitsPreset, Platform};
use crate::surface::{
    DepthTexture, PhysicalSize, SurfaceCapabilities, SurfaceConfig, TextureDescription,
    SAMPLE_COUNT,
};

verus! {

/// Why the application could not start, with the error `E` of the step that failed.
#[derive(Debug, PartialEq)]
pub enum StartupError<E> {
    /// There is no surface for the window.
    Surface(E),
    /// No adapter suits the surface.
    Adapter,
    /// The adapter gives no device.
    Device(E),
    /// The shader of this pipeline could not be loaded.
    Shader(Pipeline, E),
}

/// How far the setup has come: what is being done now.
#[derive(Clone, Copy, Debug, PartialEq, Eq, Structural)]
pub enum Stage {
    Surface,
    Adapter,
    Device,
    Capabilities,
    Configure,
    Scene,
    Shader(Pipeline),
    DepthTexture,
    Pipeline(Pipeline),
    MsaaTexture,
    Gui,
    Colliders,
    Ready,
    Failed,
}

/// What drawing the interface is set up with.
#[derive(Clone, Copy, Debug, PartialEq)]
pub struct GuiSetup {
    pub physical_width: u32,
    pub physical_height: u32,
    pub colour_format: wgpu::TextureFormat,
    pub depth_format: wgpu::TextureFormat,
    pub sample_count: u32,
}

/// A uniform buffer to create, with a bind group that holds it and nothing else.
#[derive(Clone, Copy, Debug, PartialEq)]
pub struct UniformSetup {
    pub buffer_label: &'static str,
    pub layout_label: &'static str,
    pub group_label: &'static str,
    /// The number of the buffer's binding within the group.
    pub binding: u32,
    pub visible_to_vertices: bool,
    pub visible_to_fragments: bool,
    pub dynamic_offset: bool,
    /// The least size that the buffer must have, if that is checked ahead.
    pub min_size: Option<u64>,
    /// The number of buffers in the binding, if it is an array of them.
    pub count: Option<u32>,
    /// Whether the buffer can be written to later.
    pub writable: bool,
}

/// What the scene is set up with: the size of the view, and the light.
#[derive(Clone, Copy, Debug, PartialEq)]
pub struct SceneSetup {
    pub size: PhysicalSize,
    pub light: UniformSetup,
}

/// The graphics interfaces to look for adapters through.
#[derive(Clone, Copy, Debug, PartialEq, Eq, Structural)]
pub enum Backends {
    /// All that there are.
    All,
    /// Those with full support.
    Primary,
    /// Those with partial support.
    Secondary,
}

/// The shader compiler for Direct3D.
#[derive(Clone, Copy, Debug, PartialEq, Eq, Structural)]
pub enum Dx12Compiler {
    Fxc,
    Dxc,
}

/// What to prefer in an adapter.
#[derive(Clone, Copy, Debug, PartialEq, Eq, Structural)]
pub enum PowerPreference {
    LowPower,
    HighPerformance,
}

/// How to reach the graphics side.
#[derive(Clone, Copy, Debug, PartialEq, Eq, Structural)]
pub struct InstanceSetup {
    pub backends: Backends,
    pub dx12_shader_compiler: Dx12Compiler,
}

/// Which adapter to request.
#[derive(Clone, Copy, Debug, PartialEq, Eq, Structural)]
pub struct AdapterRequest {
    pub power_preference: PowerPreference,
    /// Whether the adapter has to be able to draw to the surface.
    pub for_surface: bool,
    /// Whether only an adapter in software will do.
    pub force_fallback: bool,
}

/// Which device to request.
#[derive(Clone, Copy, Debug, PartialEq, Eq, Structural)]
pub struct DeviceRequest {
    /// The optional features to turn on, one bit each.
    pub features: u64,
    pub limits: LimitsPreset,
}

/// What to do next.
#[derive(Debug, PartialEq)]
pub enum StartupAction<'a, E> {
    CreateSurface(InstanceSetup),
    RequestAdapter(AdapterRequest),
    RequestDevice(DeviceRequest),
    ReadCapabilities,
    ConfigureSurface(SurfaceConfig),
    /// Create the camera and the light with their buffers and bind groups.
    CreateScene(SceneSetup),
    /// Load the shader of this pipeline.
    LoadShader(Pipeline),
    CreateDepthTexture(DepthTexture),
    CreatePipeline(RenderPipeline),
    /// Create the multisampled texture and a view of it.
    CreateMsaaTexture(TextureDescription),
    CreateGui(GuiSetup),
    CreateColliders,
    /// All is set up.
    Finish,
    /// Give up.
    Fail(&'a StartupError<E>),
}

/// What came of an action.
#[derive(Debug, PartialEq)]
pub enum StartupEvent<E> {
    Done,
    /// The step failed with this error.
    Failed(E),
    /// No adapter suits the surface.
    NoAdapter,
    Capabilities(SurfaceCapabilities),
}

/// The setup of the graphics side, with `E` for the errors of its steps.
#[derive(Debug, PartialEq)]
pub struct Startup<E> {
    limits: LimitsPreset,
    size: PhysicalSize,
    depth_format: wgpu::TextureFormat,
    config: Option<SurfaceConfig>,
    stage: Stage,
    error: Option<StartupError<E>>,
}

/// What a [`Startup`] holds.
pub struct StartupView<E> {
    pub limits: LimitsPreset,
    pub size: PhysicalSize,
    pub depth_format: wgpu::TextureFormat,
    pub config: Option<SurfaceConfig>,
    pub stage: Stage,
    pub error: Option<StartupError<E>>,
}

impl<E> View for Startup<E> {
    type V = StartupView<E>;

    closed spec fn view(&self) -> StartupView<E> {
        StartupView {
            limits: self.limits,
            size: self.size,
            depth_format: self.depth_format,
            config: self.config,
            stage: self.stage,
            error: self.error,
        }
    }
}

impl<E> StartupError<E> {
    /// The error of the step that failed, if it came with one.
    pub open spec fn cause(self) -> Option<E> {
        match self {
            StartupError::Surface(error) => Some(error),
            StartupError::Adapter => None,
            StartupError::Device(error) => Some(error),
            StartupError::Shader(_, error) => Some(error),
        }
    }

    /// What to report. Failures other than a missing adapter come with an error of
    /// their own, which is reported as it is.
    pub fn message(&self) -> (message: Option<&'static str>)
        ensures
            message is Some <==> self is Adapter,
            message matches Some(text) ==> text@ == "Error requesting wgpu adapter."@,
    {
        match self {
            StartupError::Adapter => Some("Error requesting wgpu adapter."),
            _ => None,
        }
    }
}

impl UniformSetup {
    /// This is the light's: one binding, seen by both kinds of shaders, at a fixed offset,
    /// and written to as the light moves.
    pub open spec fn is_light(self) -> bool {
        &&& self.buffer_label@ == "Light buffer"@
        &&& self.layout_label@ == "light bind group layout"@
        &&& self.group_label@ == "light bind group"@
        &&& self.binding == 0
        &&& self.visible_to_vertices
        &&& self.visible_to_fragments
        &&& !self.dynamic_offset
        &&& self.min_size is None
        &&& self.count is None
        &&& self.writable
    }

    /// The light's uniform buffer.
    pub fn light() -> (light: UniformSetup)
        ensures
            light.is_light(),
            light.binding == 0,
            light.visible_to_vertices && light.visible_to_fragments,
            light.writable,
    {
        UniformSetup {
            buffer_label: "Light buffer",
            layout_label: "light bind group layout",
            group_label: "light bind group",
            binding: 0,
            visible_to_vertices: true,
            visible_to_fragments: true,
            dynamic_offset: false,
            min_size: None,
            count: None,
            writable: true,
        }
    }
}

impl Stage {
    /// The stage that follows this one if all goes well.
    pub open spec fn following(self) -> Stage {
        match self {
            Stage::Surface => Stage::Adapter,
            Stage::Adapter => Stage::Device,
            Stage::Device => Stage::Capabilities,
            Stage::Capabilities => Stage::Configure,
            Stage::Configure => Stage::Scene,
            Stage::Scene => Stage::Shader(Pipeline::Model),
            Stage::Shader(Pipeline::Model) => Stage::DepthTexture,
            Stage::DepthTexture => Stage::Pipeline(Pipeline::Model),
            Stage::Pipeline(Pipeline::Model) => Stage::Shader(Pipeline::Light),
            Stage::Shader(Pipeline::Light) => Stage::Pipeline(Pipeline::Light),
            Stage::Pipeline(Pipeline::Light) => Stage::Shader(Pipeline::Collider),
            Stage::Shader(Pipeline::Collider) => Stage::Pipeline(Pipeline::Collider),
            Stage::Pipeline(Pipeline::Collider) => Stage::Shader(Pipeline::Outline),
            Stage::Shader(Pipeline::Outline) => Stage::Pipeline(Pipeline::Outline),
            Stage::Pipeline(Pipeline::Outline) => Stage::MsaaTexture,
            Stage::MsaaTexture => Stage::Gui,
            Stage::Gui => Stage::Colliders,
            Stage::Colliders => Stage::Ready,
            Stage::Ready => Stage::Ready,
            Stage::Failed => Stage::Failed,
        }
    }

    /// What is reported if this stage fails with `error`, for those that can.
    pub open spec fn failure<E>(self, error: E) -> Option<StartupError<E>> {
        match self {
            Stage::Surface => Some(StartupError::Surface(error)),
            Stage::Device => Some(StartupError::Device(error)),
            Stage::Shader(pipeline) => Some(StartupError::Shader(pipeline, error)),
            _ => None,
        }
    }

    /// The setup has come to its end.
    pub open spec fn over(self) -> bool {
        self is Ready || self is Failed
    }

    /// The surface's configuration is settled before this stage.
    pub open spec fn configured(self) -> bool {
        !(self is Surface || self is Adapter || self is Device || self is Capabilities
            || self is Failed)
    }

    /// The stage that follows this one if all goes well.
    fn next(self) -> (stage: Stage)
        ensures
            stage == self.following(),
    {
        match self {
            Stage::Surface => Stage::Adapter,
            Stage::Adapter => Stage::Device,
            Stage::Device => Stage::Capabilities,
            Stage::Capabilities => Stage::Configure,
            Stage::Configure => Stage::Scene,
            Stage::Scene => Stage::Shader(Pipeline::Model),
            Stage::Shader(Pipeline::Model) => Stage::DepthTexture,
            Stage::DepthTexture => Stage::Pipeline(Pipeline::Model),
            Stage::Shader(pipeline) => Stage::Pipeline(pipeline),
            Stage::Pipeline(Pipeline::Model) => Stage::Shader(Pipeline::Light),
            Stage::Pipeline(Pipeline::Light) => Stage::Shader(Pipeline::Collider),
            Stage::Pipeline(Pipeline::Collider) => Stage::Shader(Pipeline::Outline),
            Stage::Pipeline(Pipeline::Outline) => Stage::MsaaTexture,
            Stage::MsaaTexture => Stage::Gui,
            Stage::Gui => Stage::Colliders,
            Stage::Colliders => Stage::Ready,
            Stage::Ready => Stage::Ready,
            Stage::Failed => Stage::Failed,
        }
    }
}

impl<E> StartupView<E> {
    /// Once the surface's configuration is settled, it is there, and has the window's
    /// size. There is an error exactly if the setup has failed.
    pub open spec fn wf(self) -> bool {
        &&& self.stage.configured() ==> (self.config matches Some(config) && config.extent()
            == self.size)
        &&& self.stage is Failed <==> self.error is Some
    }

    /// `event` can come of what is being done: capabilities when they were asked for, a
    /// failure where one is possible, and success everywhere else.
    pub open spec fn awaits(self, event: StartupEvent<E>) -> bool {
        match event {
            StartupEvent::Done => !self.stage.over() && self.stage != Stage::Capabilities,
            StartupEvent::Failed(error) => self.stage.failure(error) is Some,
            StartupEvent::NoAdapter => self.stage == Stage::Adapter,
            StartupEvent::Capabilities(capabilities) => self.stage == Stage::Capabilities
                && capabilities.usable(),
        }
    }

    /// `action` is what to do at this stage.
    pub open spec fn asks_for(self, action: StartupAction<'_, E>) -> bool {
        match self.stage {
            Stage::Surface => action == StartupAction::<E>::CreateSurface(
                InstanceSetup {
                    backends: Backends::All,
                    dx12_shader_compiler: Dx12Compiler::Fxc,
                },
            ),
            Stage::Adapter => action == StartupAction::<E>::RequestAdapter(
                AdapterRequest {
                    power_preference: PowerPreference::LowPower,
                    for_surface: true,
                    force_fallback: false,
                },
            ),
            Stage::Device => action == StartupAction::<E>::RequestDevice(
                DeviceRequest { features: 0, limits: self.limits },
            ),
            Stage::Capabilities => action is ReadCapabilities,
            Stage::Configure => action == StartupAction::<E>::ConfigureSurface(self.config->0),
            Stage::Scene => action matches StartupAction::CreateScene(scene) && scene.size
                == self.size && scene.light.is_light(),
            Stage::Shader(pipeline) => action == StartupAction::<E>::LoadShader(pipeline),
            Stage::DepthTexture => action == StartupAction::<E>::CreateDepthTexture(
                self.config->0.depth(),
            ),
            Stage::Pipeline(pipeline) => action matches StartupAction::CreatePipeline(description)
                && description.describes(pipeline, self.config->0.format, self.depth_format),
            Stage::MsaaTexture => action == StartupAction::<E>::CreateMsaaTexture(
                self.config->0.msaa(),
            ),
            Stage::Gui => action == StartupAction::<E>::CreateGui(
                GuiSetup {
                    physical_width: self.size.width,
                    physical_height: self.size.height,
                    colour_format: self.config->0.format,
                    depth_format: self.depth_format,
                    sample_count: SAMPLE_COUNT,
                },
            ),
            Stage::Colliders => action is CreateColliders,
            Stage::Ready => action is Finish,
            Stage::Failed => action matches StartupAction::Fail(error) && Some(*error)
                == self.error,
        }
    }

    /// Where the setup stands after `event`.
    pub open spec fn stage_after(self, event: StartupEvent<E>) -> Stage {
        match event {
            StartupEvent::Failed(_) => Stage::Failed,
            StartupEvent::NoAdapter => Stage::Failed,
            _ => self.stage.following(),
        }
    }

    /// What there is to report after `event`.
    pub open spec fn error_after(self, event: StartupEvent<E>) -> Option<StartupError<E>> {
        match event {
            StartupEvent::Failed(error) => self.stage.failure(error),
            StartupEvent::NoAdapter => Some(StartupError::Adapter),
            _ => self.error,
        }
    }

    /// `event` takes the setup from here to `next`.
    pub open spec fn leads_to(self, event: StartupEvent<E>, next: StartupView<E>) -> bool {
        &&& self.awaits(event)
        &&& next.wf()
        &&& next.stage == self.stage_after(event)
        &&& next.error == self.error_after(event)
        &&& next.limits == self.limits
        &&& next.size == self.size
        &&& next.depth_format == self.depth_format
        &&& event matches StartupEvent::Capabilities(capabilities) ==> (next.config matches Some(
            config,
        ) && config.suits(self.size, capabilities))
        &&& !(event is Capabilities) ==> next.config == self.config
    }
}

impl<E> Startup<E> {
    /// From the stage that needs it on, the configuration is there; and the error is there
    /// once the setup has failed.
    #[verifier::type_invariant]
    closed spec fn consistent(self) -> bool {
        self@.wf()
    }

    /// Begins the setup for a window of `size`.
    pub fn new(
        platform: Platform<'_>,
        size: PhysicalSize,
        depth_format: wgpu::TextureFormat,
    ) -> (startup: Startup<E>)
        ensures
            startup@ == (StartupView::<E> {
                limits: if platform is Web {
                    LimitsPreset::DownlevelWebGl2
                } else {
                    LimitsPreset::Default
                },
                size,
                depth_format,
                config: None,
                stage: Stage::Surface,
                error: None,
            }),
    {
        Startup {
            limits: platform.limits(),
            size,
            depth_format,
            config: None,
            stage: Stage::Surface,
            error: None,
        }
    }

    /// How far the setup has come.
    pub fn stage(&self) -> (stage: Stage)
        ensures
            stage == self@.stage,
    {
        self.stage
    }

    /// The surface's configuration, once it is settled.
    pub fn config(&self) -> (config: Option<SurfaceConfig>)
        ensures
            config == self@.config,
            self@.wf(),
    {
        proof {
            use_type_invariant(self);
        }
        self.config
    }

    /// What to do now.
    pub fn action(&self) -> (action: StartupAction<'_, E>)
        ensures
            self@.wf(),
            self@.asks_for(action),
    {
        proof {
            use_type_invariant(self);
        }
        match self.stage {
            Stage::Surface => StartupAction::CreateSurface(
                InstanceSetup {
                    backends: Backends::All,
                    dx12_shader_compiler: Dx12Compiler::Fxc,
                },
            ),
            Stage::Adapter => StartupAction::RequestAdapter(
                AdapterRequest {
                    power_preference: PowerPreference::LowPower,
                    for_surface: true,
                    force_fallback: false,
                },
            ),
            Stage::Device => StartupAction::RequestDevice(
                DeviceRequest { features: 0, limits: self.limits },
            ),
            Stage::Capabilities => StartupAction::ReadCapabilities,
            Stage::Configure => StartupAction::ConfigureSurface(self.config.unwrap()),
            Stage::Scene => StartupAction::CreateScene(
                SceneSetup { size: self.size, light: UniformSetup::light() },
            ),
            Stage::Shader(pipeline) => StartupAction::LoadShader(pipeline),
            Stage::DepthTexture => StartupAction::CreateDepthTexture(
                self.config.unwrap().depth_texture(),
            ),
            Stage::Pipeline(pipeline) => StartupAction::CreatePipeline(
                pipeline.description(self.config.unwrap().format, self.depth_format),
            ),
            Stage::MsaaTexture => StartupAction::CreateMsaaTexture(
                self.config.unwrap().msaa_texture(),
            ),
            Stage::Gui => StartupAction::CreateGui(
                GuiSetup {
                    physical_width: self.size.width,
                    physical_height: self.size.height,
                    colour_format: self.config.unwrap().format,
                    depth_format: self.depth_format,
                    sample_count: SAMPLE_COUNT,
                },
            ),
            Stage::Colliders => StartupAction::CreateColliders,
            Stage::Ready => StartupAction::Finish,
            Stage::Failed => StartupAction::Fail(self.error.as_ref().unwrap()),
        }
    }

    /// Takes what came of the action, and goes on to the next: a failure ends the setup,
    /// the surface's capabilities settle its configuration.
    pub fn advance(&mut self, event: StartupEvent<E>)
        requires
            old(self)@.awaits(event),
        ensures
            final(self)@.wf(),
            final(self)@.stage == old(self)@.stage_after(event),
            final(self)@.error == old(self)@.error_after(event),
            final(self)@.limits == old(self)@.limits,
            final(self)@.size == old(self)@.size,
            final(self)@.depth_format == old(self)@.depth_format,
            event matches StartupEvent::Capabilities(capabilities) ==> ({
                &&& final(self)@.config matches Some(config)
                &&& config.suits(old(self)@.size, capabilities)
            }),
            !(event is Capabilities) ==> final(self)@.config == old(self)@.config,
            old(self)@.leads_to(event, final(self)@),
            event matches StartupEvent::Failed(error) ==> final(self)@.stage is Failed && ({
                &&& final(self)@.error is Some
                &&& old(self)@.stage is Surface ==> final(self)@.error->0
                    == StartupError::<E>::Surface(error)
                &&& old(self)@.stage is Device ==> final(self)@.error->0
                    == StartupError::<E>::Device(error)
                &&& old(self)@.stage matches Stage::Shader(pipeline) ==> final(self)@.error->0
                    == StartupError::<E>::Shader(pipeline, error)
            }),
            event is NoAdapter ==> final(self)@.stage is Failed && final(self)@.error is Some
                && final(self)@.error->0 is Adapter,
    {
        proof {
            use_type_invariant(&*self);
        }
        match event {
            StartupEvent::Done => {
                self.stage = self.stage.next();
            },
            StartupEvent::Failed(error) => {
                let error = match self.stage {
                    Stage::Surface => StartupError::Surface(error),
                    Stage::Shader(pipeline) => StartupError::Shader(pipeline, error),
                    _ => StartupError::Device(error),
                };
                self.fail(error);
            },
            StartupEvent::NoAdapter => {
                self.fail(StartupError::Adapter);
            },
            StartupEvent::Capabilities(capabilities) => {
                self.config = Some(SurfaceConfig::new(self.size, &capabilities));
                self.stage = self.stage.next();
            },
        }
    }

    /// Ends the setup with `error`.
    fn fail(&mut self, error: StartupError<E>)
        ensures
            final(self)@ == (StartupView {
                stage: Stage::Failed,
                error: Some(error),
                ..old(self)@
            }),
    {
        *self = Startup {
            limits: self.limits,
            size: self.size,
            depth_format: self.depth_format,
            config: self.config,
            stage: Stage::Failed,
            error: Some(error),
        };
    }

    /// The application that the setup was for, still loading, on the surface as it was
    /// configured.
    pub fn finish<A, S, H>(&self) -> (app: App<A, S, H>)
        requires
            self@.stage == Stage::Ready,
        ensures
            self@.config is Some,
            app@ == AppView::<A, S, H>::fresh(self@.config->0),
    {
        proof {
            use_type_invariant(self);
        }
        App::new(self.config.unwrap())
    }

    /// What the setup comes to once it is over: the application, or why there is none.
    pub fn outcome<A, S, H>(self) -> (outcome: Result<App<A, S, H>, StartupError<E>>)
        requires
            self@.stage.over(),
        ensures
            outcome is Ok <==> self@.stage == Stage::Ready,
            outcome matches Ok(app) ==> ({
                &&& self@.config is Some
                &&& app@ == AppView::<A, S, H>::fresh(self@.config->0)
            }),
            outcome matches Err(error) ==> Some(error) == self@.error,
    {
        proof {
            use_type_invariant(&self);
        }
        match self.stage {
            Stage::Ready => Ok(self.finish()),
            _ => Err(self.error.unwrap()),
        }
    }
}

/// The stage after `count` successes in a row.
pub open spec fn stage_after_successes(count: nat) -> Stage
    decreases count,
{
    if count == 0 {
        Stage::Surface
    } else {
        stage_after_successes((count - 1) as nat).following()
    }
}

/// The stages of a setup in which everything succeeds, in order.
pub open spec fn setup_order() -> Seq<Stage> {
    seq![
        Stage::Surface,
        Stage::Adapter,
        Stage::Device,
        Stage::Capabilities,
        Stage::Configure,
        Stage::Scene,
        Stage::Shader(Pipeline::Model),
        Stage::DepthTexture,
        Stage::Pipeline(Pipeline::Model),
        Stage::Shader(Pipeline::Light),
        Stage::Pipeline(Pipeline::Light),
        Stage::Shader(Pipeline::Collider),
        Stage::Pipeline(Pipeline::Collider),
        Stage::Shader(Pipeline::Outline),
        Stage::Pipeline(Pipeline::Outline),
        Stage::MsaaTexture,
        Stage::Gui,
        Stage::Colliders,
        Stage::Ready,
    ]
}

/// If everything succeeds, the setup goes through its stages in order, and the
/// application is ready after the last of them and no sooner.
pub proof fn lemma_setup_goes_in_order(count: nat)
    requires
        count < setup_order().len(),
    ensures
        stage_after_successes(count) == setup_order()[count as int],
        stage_after_successes(count).over() <==> count == setup_order().len() - 1,
    decreases count,
{
    if count > 0 {
        lemma_setup_goes_in_order((count - 1) as nat);
    }
}

/// Each stage asks for its own action and for no other.
pub proof fn lemma_stages_ask_for_their_own_actions<E>(
    startup: StartupView<E>,
    action: StartupAction<'_, E>,
)
    requires
        startup.wf(),
        startup.asks_for(action),
    ensures
        action is CreateSurface <==> startup.stage is Surface,
        action is RequestAdapter <==> startup.stage is Adapter,
        action is RequestDevice <==> startup.stage is Device,
        action is ReadCapabilities <==> startup.stage is Capabilities,
        action is ConfigureSurface <==> startup.stage is Configure,
        action is CreateScene <==> startup.stage is Scene,
        action is LoadShader <==> startup.stage is Shader,
        action is CreateDepthTexture <==> startup.stage is DepthTexture,
        action is CreatePipeline <==> startup.stage is Pipeline,
        action is CreateMsaaTexture <==> startup.stage is MsaaTexture,
        action is CreateGui <==> startup.stage is Gui,
        action is CreateColliders <==> startup.stage is Colliders,
        action is Finish <==> startup.stage is Ready,
        action is Fail <==> startup.stage is Failed,
        action matches StartupAction::LoadShader(pipeline) ==> startup.stage == Stage::Shader(
            pipeline,
        ),
        action matches StartupAction::CreatePipeline(description) ==> startup.stage
            == Stage::Pipeline(description.shader),
{
}

/// What each action says is what the setup was begun with and what the surface was settled
/// to: all adapters are looked through for one of low power that suits the surface; the device
/// is requested without features and with the platform's limits; and everything is as large
/// as the window.
pub proof fn lemma_actions_follow_the_window_and_the_platform<E>(
    startup: StartupView<E>,
    action: StartupAction<'_, E>,
)
    requires
        startup.wf(),
        startup.asks_for(action),
    ensures
        action matches StartupAction::CreateSurface(setup) ==> setup.backends is All
            && setup.dx12_shader_compiler is Fxc,
        action matches StartupAction::RequestAdapter(request) ==> request.for_surface
            && !request.force_fallback && request.power_preference is LowPower,
        action matches StartupAction::RequestDevice(request) ==> request.features == 0
            && request.limits == startup.limits,
        action matches StartupAction::ConfigureSurface(config) ==> startup.config == Some(config)
            && config.width == startup.size.width && config.height == startup.size.height,
        action matches StartupAction::CreateScene(scene) ==> ({
            &&& scene.size.width == startup.size.width
            &&& scene.size.height == startup.size.height
            &&& scene.light.buffer_label@ == "Light buffer"@
            &&& scene.light.layout_label@ == "light bind group layout"@
            &&& scene.light.group_label@ == "light bind group"@
            &&& scene.light.binding == 0
            &&& scene.light.visible_to_vertices
            &&& scene.light.visible_to_fragments
            &&& !scene.light.dynamic_offset
            &&& scene.light.min_size is None
            &&& scene.light.count is None
            &&& scene.light.writable
        }),
        action matches StartupAction::CreateDepthTexture(depth) ==> depth.width
            == startup.size.width && depth.height == startup.size.height,
        action matches StartupAction::CreatePipeline(description) ==> startup.config is Some
            && description.colour_format == startup.config->0.format && description.depth is Some
            && description.depth->0.format == startup.depth_format,
        action matches StartupAction::CreateMsaaTexture(msaa) ==> ({
            &&& startup.config is Some
            &&& msaa.width == startup.size.width
            &&& msaa.height == startup.size.height
            &&& msaa.format == startup.config->0.format
            &&& msaa.sample_count == 4
            &&& msaa.depth_or_array_layers == 1
            &&& msaa.mip_level_count == 1
            &&& msaa.dimension is D2
            &&& msaa.usage is RenderAttachment
            &&& msaa.view_format is None
        }),
        action matches StartupAction::CreateGui(gui) ==> ({
            &&& startup.config is Some
            &&& gui.physical_width == startup.size.width
            &&& gui.physical_height == startup.size.height
            &&& gui.colour_format == startup.config->0.format
            &&& gui.depth_format == startup.depth_format
            &&& gui.sample_count == 4
        }),
        action matches StartupAction::Fail(error) ==> startup.error == Some(*error),
{
}

/// What can come of each stage: capabilities of those that read them, if the surface offers
/// something; no adapter where one is requested; an error where a surface or a device is
/// requested or a shader loaded; and success of everything else that is to be done. Once the
/// setup is ready or has failed, nothing more can come.
pub proof fn lemma_what_can_come_of_each_stage<E>(
    startup: StartupView<E>,
    error: E,
    capabilities: SurfaceCapabilities,
)
    ensures
        startup.awaits(StartupEvent::<E>::Done) <==> !(startup.stage is Capabilities
            || startup.stage is Ready || startup.stage is Failed),
        startup.awaits(StartupEvent::Failed(error)) <==> startup.stage is Surface
            || startup.stage is Device || startup.stage is Shader,
        startup.awaits(StartupEvent::<E>::NoAdapter) <==> startup.stage is Adapter,
        startup.awaits(StartupEvent::<E>::Capabilities(capabilities))
            <==> startup.stage is Capabilities && capabilities.formats@.len() > 0
            && capabilities.alpha_modes@.len() > 0,
        startup.stage.over() <==> startup.stage is Ready || startup.stage is Failed,
        startup.stage.configured() <==> !(startup.stage is Surface || startup.stage is Adapter
            || startup.stage is Device || startup.stage is Capabilities || startup.stage is Failed),
{
}

/// A failure is named after the step that failed, and ends the setup; a success of any kind
/// reports nothing.
pub proof fn lemma_failures_name_their_step<E>(startup: StartupView<E>, event: StartupEvent<E>)
    requires
        startup.wf(),
        startup.awaits(event),
    ensures
        event is Failed || event is NoAdapter ==> startup.stage_after(event) is Failed,
        event is Done || event is Capabilities ==> !(startup.stage_after(event) is Failed)
            && startup.error_after(event) is None,
        event matches StartupEvent::Failed(error) ==> ({
            ||| startup.stage is Surface && startup.error_after(event) == Some(
                StartupError::Surface(error),
            )
            ||| startup.stage is Device && startup.error_after(event) == Some(
                StartupError::Device(error),
            )
            ||| startup.stage is Shader && startup.error_after(event) == Some(
                StartupError::Shader(startup.stage->Shader_0, error),
            )
        }),
        event is NoAdapter <==> startup.stage is Adapter && startup.stage_after(event) is Failed,
        event is Capabilities <==> startup.stage is Capabilities,
{
}

/// Nothing is awaited once the setup is over, so a failure is the end of it: nothing is
/// requested any more.
pub proof fn lemma_failure_is_final<E>(startup: StartupView<E>, event: StartupEvent<E>)
    requires
        startup.stage.over(),
    ensures
        !startup.awaits(event),
{
}

/// A step that fails with an error of its own has that very error reported. Only a missing
/// adapter is reported without one.
pub proof fn lemma_failed_step_reports_its_own_error<E>(
    startup: StartupView<E>,
    event: StartupEvent<E>,
)
    requires
        startup.wf(),
        startup.awaits(event),
    ensures
        startup.error_after(event) is Some <==> event is Failed || event is NoAdapter,
        event matches StartupEvent::Failed(error) ==> startup.error_after(event)->0.cause()
            == Some(error),
        startup.error_after(event) == Some(StartupError::<E>::Adapter) <==> event is NoAdapter,
{
}

/// The surface's configuration is settled once: capabilities are not taken again.
pub proof fn lemma_configuration_is_settled_once<E>(
    startup: StartupView<E>,
    event: StartupEvent<E>,
)
    requires
        startup.stage.configured(),
        startup.awaits(event),
    ensures
        !(event is Capabilities),
        startup.stage_after(event).configured() || startup.stage_after(event) is Failed,
{
}

/// A pipeline is only ever created once its own shader is loaded, and the model's once
/// the depth texture is there as well.
pub proof fn lemma_shaders_come_before_pipelines<E>(
    startup: StartupView<E>,
    event: StartupEvent<E>,
    pipeline: Pipeline,
)
    requires
        startup.awaits(event),
        startup.stage_after(event) == Stage::Pipeline(pipeline),
    ensures
        pipeline == Pipeline::Model ==> startup.stage == Stage::DepthTexture,
        pipeline != Pipeline::Model ==> startup.stage == Stage::Shader(pipeline),
        Stage::Shader(Pipeline::Model).following() == Stage::DepthTexture,
{
}

/// Everything that the setup creates to draw with goes together: the pipelines and the
/// interface have the format and the sample count of the multisampled texture, and the
/// format of the depth texture; and no pipeline needs a feature that the device was not
/// requested with.
pub proof fn lemma_setup_fits_together<E>(startup: StartupView<E>, action: StartupAction<'_, E>)
    requires
        startup.wf(),
        startup.asks_for(action),
    ensures
        action matches StartupAction::RequestDevice(device) ==> device.features == 0,
        action matches StartupAction::CreatePipeline(pipeline) ==> pipeline.needs_no_feature(),
        action matches StartupAction::CreatePipeline(pipeline) ==> pipeline.fits(
            startup.config->0.msaa(),
            startup.depth_format,
        ),
        action matches StartupAction::CreateGui(gui) ==> ({
            &&& gui.colour_format == startup.config->0.msaa().format
            &&& gui.sample_count == startup.config->0.msaa().sample_count
            &&& gui.depth_format == startup.depth_format
        }),
        action matches StartupAction::CreateMsaaTexture(msaa) ==> msaa
            == startup.config->0.msaa(),
        action matches StartupAction::CreateDepthTexture(depth) ==> depth.width
            == startup.size.width && depth.height == startup.size.height,
{
}

} // verus!
