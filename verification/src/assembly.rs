//! What comes of a setup of the graphics side.
//!
//! A graphics side is known by what is there. The one here is a model of this library's own:
//! it says what each action needs and adds, and is tied to nothing in `wgpu`.
use vstd::prelude::*;

use crate::pipeline::Pipeline;
use crate::startup::{
    AdapterRequest, DeviceRequest, GuiSetup, InstanceSetup, Stage, StartupAction, StartupEvent,
    StartupView,
};
use crate::surface::{DepthTexture, PhysicalSize, SurfaceConfig, TextureDescription};

verus! {

/// What there is on the graphics side.
pub struct Graphics {
    pub surface: Option<InstanceSetup>,
    pub adapter: Option<AdapterRequest>,
    pub device: Option<DeviceRequest>,
    pub config: Option<SurfaceConfig>,
    /// The size of the view of the scene, once there is a scene.
    pub scene: Option<PhysicalSize>,
    /// The pipeline whose shader was loaded last.
    pub shader: Option<Pipeline>,
    pub depth: Option<DepthTexture>,
    pub pipelines: Set<Pipeline>,
    pub msaa: Option<TextureDescription>,
    pub gui: Option<GuiSetup>,
    pub colliders: bool,
}

impl Graphics {
    /// There is nothing yet.
    pub open spec fn empty() -> Graphics {
        Graphics {
            surface: None,
            adapter: None,
            device: None,
            config: None,
            scene: None,
            shader: None,
            depth: None,
            pipelines: Set::empty(),
            msaa: None,
            gui: None,
            colliders: false,
        }
    }

    /// All that `action` needs is there, and what it adds is not there yet. A pipeline is
    /// made from the shader that was loaded last, for attachments like those of the surface.
    pub open spec fn accepts<E>(self, action: StartupAction<'_, E>) -> bool {
        match action {
            StartupAction::CreateSurface(_) => self.surface is None,
            StartupAction::RequestAdapter(_) => self.surface is Some && self.adapter is None,
            StartupAction::RequestDevice(_) => self.adapter is Some && self.device is None,
            StartupAction::ReadCapabilities => self.surface is Some && self.adapter is Some,
            StartupAction::ConfigureSurface(_) => self.surface is Some && self.device is Some
                && self.config is None,
            StartupAction::CreateScene(scene) => {
                &&& self.device is Some
                &&& self.scene is None
                &&& self.config is Some
                &&& scene.size.width == self.config->0.width
                &&& scene.size.height == self.config->0.height
            },
            StartupAction::LoadShader(pipeline) => self.device is Some && !self.pipelines.contains(
                pipeline,
            ),
            StartupAction::CreateDepthTexture(depth) => {
                &&& self.device is Some
                &&& self.depth is None
                &&& self.config is Some
                &&& depth.width == self.config->0.width
                &&& depth.height == self.config->0.height
            },
            StartupAction::CreatePipeline(description) => {
                &&& self.device is Some
                &&& self.device->0.features == 0
                &&& description.needs_no_feature()
                &&& self.scene is Some
                &&& self.depth is Some
                &&& self.shader == Some(description.shader)
                &&& !self.pipelines.contains(description.shader)
                &&& self.config is Some
                &&& description.colour_format == self.config->0.format
            },
            StartupAction::CreateMsaaTexture(msaa) => {
                &&& self.device is Some
                &&& self.msaa is None
                &&& self.config is Some
                &&& msaa.width == self.config->0.width
                &&& msaa.height == self.config->0.height
                &&& msaa.format == self.config->0.format
            },
            StartupAction::CreateGui(gui) => {
                &&& self.device is Some
                &&& self.gui is None
                &&& self.msaa is Some
                &&& gui.physical_width == self.msaa->0.width
                &&& gui.physical_height == self.msaa->0.height
                &&& gui.colour_format == self.msaa->0.format
                &&& gui.sample_count == self.msaa->0.sample_count
            },
            StartupAction::CreateColliders => self.device is Some && !self.colliders,
            StartupAction::Finish => self.complete(),
            StartupAction::Fail(_) => true,
        }
    }

    /// What there is once `action` has succeeded.
    pub open spec fn after<E>(self, action: StartupAction<'_, E>) -> Graphics {
        match action {
            StartupAction::CreateSurface(setup) => Graphics { surface: Some(setup), ..self },
            StartupAction::RequestAdapter(request) => Graphics { adapter: Some(request), ..self },
            StartupAction::RequestDevice(request) => Graphics { device: Some(request), ..self },
            StartupAction::ConfigureSurface(config) => Graphics { config: Some(config), ..self },
            StartupAction::CreateScene(scene) => Graphics { scene: Some(scene.size), ..self },
            StartupAction::LoadShader(pipeline) => Graphics { shader: Some(pipeline), ..self },
            StartupAction::CreateDepthTexture(depth) => Graphics { depth: Some(depth), ..self },
            StartupAction::CreatePipeline(description) => Graphics {
                pipelines: self.pipelines.insert(description.shader),
                ..self
            },
            StartupAction::CreateMsaaTexture(msaa) => Graphics { msaa: Some(msaa), ..self },
            StartupAction::CreateGui(gui) => Graphics { gui: Some(gui), ..self },
            StartupAction::CreateColliders => Graphics { colliders: true, ..self },
            _ => self,
        }
    }

    /// Everything that a frame needs is there.
    pub open spec fn complete(self) -> bool {
        &&& self.surface is Some
        &&& self.adapter is Some
        &&& self.device is Some
        &&& self.config is Some
        &&& self.scene is Some
        &&& self.depth is Some
        &&& self.pipelines.contains(Pipeline::Model)
        &&& self.pipelines.contains(Pipeline::Light)
        &&& self.pipelines.contains(Pipeline::Collider)
        &&& self.pipelines.contains(Pipeline::Outline)
        &&& self.msaa is Some
        &&& self.gui is Some
        &&& self.colliders
    }
}

/// One turn of a setup: what was asked for, what came of it, and where that led.
pub struct Turn<'a, E> {
    pub before: StartupView<E>,
    pub action: StartupAction<'a, E>,
    pub event: StartupEvent<E>,
    pub after: StartupView<E>,
}

/// The turns are a setup that was begun as `start`.
pub open spec fn is_run<E>(start: StartupView<E>, turns: Seq<Turn<'_, E>>) -> bool
    decreases turns.len(),
{
    turns.len() > 0 ==> {
        &&& is_run(start, turns.drop_last())
        &&& turns.last().before == end_of(start, turns.drop_last())
        &&& turns.last().before.asks_for(turns.last().action)
        &&& turns.last().before.leads_to(turns.last().event, turns.last().after)
    }
}

/// Where the turns have led.
pub open spec fn end_of<E>(start: StartupView<E>, turns: Seq<Turn<'_, E>>) -> StartupView<E> {
    if turns.len() == 0 {
        start
    } else {
        turns.last().after
    }
}

/// What there is after the turns, if none of them failed.
pub open spec fn built<E>(turns: Seq<Turn<'_, E>>) -> Graphics
    decreases turns.len(),
{
    if turns.len() == 0 {
        Graphics::empty()
    } else {
        built(turns.drop_last()).after(turns.last().action)
    }
}

/// How many stages come before this one.
spec fn rank(stage: Stage) -> int {
    match stage {
        Stage::Surface => 0,
        Stage::Adapter => 1,
        Stage::Device => 2,
        Stage::Capabilities => 3,
        Stage::Configure => 4,
        Stage::Scene => 5,
        Stage::Shader(Pipeline::Model) => 6,
        Stage::DepthTexture => 7,
        Stage::Pipeline(Pipeline::Model) => 8,
        Stage::Shader(Pipeline::Light) => 9,
        Stage::Pipeline(Pipeline::Light) => 10,
        Stage::Shader(Pipeline::Collider) => 11,
        Stage::Pipeline(Pipeline::Collider) => 12,
        Stage::Shader(Pipeline::Outline) => 13,
        Stage::Pipeline(Pipeline::Outline) => 14,
        Stage::MsaaTexture => 15,
        Stage::Gui => 16,
        Stage::Colliders => 17,
        Stage::Ready => 18,
        Stage::Failed => -1,
    }
}

/// What is there at each stage.
spec fn stands<E>(graphics: Graphics, startup: StartupView<E>) -> bool {
    let at = rank(startup.stage);
    &&& graphics.surface is Some <==> at > 0
    &&& graphics.adapter is Some <==> at > 1
    &&& graphics.device == (if at > 2 {
        Some(DeviceRequest { features: 0, limits: startup.limits })
    } else {
        None
    })
    &&& startup.config is Some <==> at > 3
    &&& graphics.config == (if at > 4 {
        startup.config
    } else {
        None
    })
    &&& graphics.scene == (if at > 5 {
        Some(startup.size)
    } else {
        None
    })
    &&& graphics.shader == (if at > 13 {
        Some(Pipeline::Outline)
    } else if at > 11 {
        Some(Pipeline::Collider)
    } else if at > 9 {
        Some(Pipeline::Light)
    } else if at > 6 {
        Some(Pipeline::Model)
    } else {
        None
    })
    &&& graphics.depth is Some <==> at > 7
    &&& graphics.depth matches Some(depth) ==> depth.width == startup.size.width && depth.height
        == startup.size.height
    &&& graphics.pipelines.contains(Pipeline::Model) <==> at > 8
    &&& graphics.pipelines.contains(Pipeline::Light) <==> at > 10
    &&& graphics.pipelines.contains(Pipeline::Collider) <==> at > 12
    &&& graphics.pipelines.contains(Pipeline::Outline) <==> at > 14
    &&& graphics.msaa is Some <==> at > 15
    &&& graphics.msaa matches Some(msaa) ==> startup.config is Some && msaa.width
        == startup.size.width && msaa.height == startup.size.height && msaa.format
        == startup.config->0.format && msaa.sample_count == 4
    &&& graphics.gui is Some <==> at > 16
    &&& graphics.colliders <==> at > 17
}

/// What is there at each stage is what the turns before it have built.
proof fn lemma_stages_stand<E>(start: StartupView<E>, turns: Seq<Turn<'_, E>>)
    requires
        start.wf(),
        start.stage is Surface,
        start.config is None,
        is_run(start, turns),
    ensures
        end_of(start, turns).wf(),
        end_of(start, turns).size == start.size,
        end_of(start, turns).limits == start.limits,
        end_of(start, turns).depth_format == start.depth_format,
        !(end_of(start, turns).stage is Failed) ==> stands(built(turns), end_of(start, turns)),
    decreases turns.len(),
{
    if turns.len() > 0 {
        let before = turns.drop_last();
        let turn = turns.last();
        lemma_stages_stand(start, before);
        lemma_turn_stands(built(before), turn);
    }
}

/// One turn leads from what is there at one stage to what is there at the next.
proof fn lemma_turn_stands<E>(graphics: Graphics, turn: Turn<'_, E>)
    requires
        turn.before.wf(),
        !(turn.before.stage is Failed) ==> stands(graphics, turn.before),
        turn.before.asks_for(turn.action),
        turn.before.leads_to(turn.event, turn.after),
    ensures
        !(turn.before.stage is Failed),
        graphics.accepts(turn.action),
        !(turn.after.stage is Failed) ==> stands(graphics.after(turn.action), turn.after),
{
    if let StartupAction::CreatePipeline(description) = turn.action {
        crate::pipeline::lemma_pipelines_need_no_feature(
            description,
            description.shader,
            turn.before.config->0.format,
            turn.before.depth_format,
        );
    }
}

/// Whatever the size of the window, whatever the surface offers and wherever a setup stops,
/// each action finds what it needs.
pub proof fn lemma_actions_find_what_they_need<E>(
    start: StartupView<E>,
    turns: Seq<Turn<'_, E>>,
    i: int,
)
    requires
        start.wf(),
        start.stage is Surface,
        start.config is None,
        is_run(start, turns),
        0 <= i < turns.len(),
    ensures
        built(turns.take(i)).accepts(turns[i].action),
    decreases turns.len(),
{
    let before = turns.drop_last();
    if i < before.len() {
        lemma_actions_find_what_they_need(start, before, i);
        assert(turns.take(i) =~= before.take(i));
    } else {
        assert(turns.take(i) =~= before);
        lemma_stages_stand(start, before);
        lemma_turn_stands(built(before), turns.last());
    }
}

/// A setup that ends ready has built everything that a frame needs, and built it to fit: the
/// surface is configured as the setup says, the scene, the textures and the interface are as
/// large as the window, and the device has the platform's limits. It took as many turns as
/// there are things to do.
pub proof fn lemma_ready_setup_is_complete<E>(start: StartupView<E>, turns: Seq<Turn<'_, E>>)
    requires
        start.wf(),
        start.stage is Surface,
        start.config is None,
        is_run(start, turns),
        end_of(start, turns).stage is Ready,
    ensures
        ({
            let graphics = built(turns);
            &&& graphics.complete()
            &&& graphics.config == end_of(start, turns).config
            &&& graphics.config->0.width == start.size.width
            &&& graphics.config->0.height == start.size.height
            &&& graphics.scene == Some(start.size)
            &&& graphics.device->0.features == 0
            &&& graphics.device->0.limits == start.limits
            &&& graphics.depth->0.width == start.size.width
            &&& graphics.depth->0.height == start.size.height
            &&& graphics.msaa->0.width == start.size.width
            &&& graphics.msaa->0.height == start.size.height
            &&& graphics.msaa->0.format == graphics.config->0.format
            &&& graphics.msaa->0.sample_count == 4
        }),
        turns.len() == 18,
{
    lemma_stages_stand(start, turns);
    lemma_turns_are_counted(start, turns);
}

/// As long as nothing has failed, there have been as many turns as stages.
proof fn lemma_turns_are_counted<E>(start: StartupView<E>, turns: Seq<Turn<'_, E>>)
    requires
        start.wf(),
        start.stage is Surface,
        is_run(start, turns),
    ensures
        !(end_of(start, turns).stage is Failed) ==> rank(end_of(start, turns).stage)
            == turns.len(),
    decreases turns.len(),
{
    if turns.len() > 0 {
        lemma_turns_are_counted(start, turns.drop_last());
    }
}

} // verus!
