//! When the commands of a frame make sense, and that those of every frame do.
//!
//! The graphics device here is a model of this library's own: it says what a device is
//! taken to have bound and to accept, and is tied to nothing in `wgpu`.
use vstd::prelude::*;

use crate::frame::{self, BindGroup, Collider, FrameCommand, GuiOutput, IndexedDraw, MeshRef};
use crate::model::Model;
use crate::pipeline::{IndexFormat, Pipeline, VertexLayout};

verus! {

/// What the commands given so far have set up.
pub struct FrameState {
    /// A pass is being recorded.
    pub in_pass: bool,
    /// The vertices of the interface are uploaded.
    pub gui_ready: bool,
    pub pipeline: Option<Pipeline>,
    /// The bind group in each slot. Setting a pipeline leaves the slots as they are.
    pub groups: Map<u32, BindGroup>,
    /// The vertex buffer in slot 0.
    pub vertices: Option<MeshRef>,
    pub indices: Option<MeshRef>,
    pub submitted: bool,
    pub presented: bool,
}

impl FrameState {
    /// Nothing has been set up yet.
    pub open spec fn fresh() -> FrameState {
        FrameState {
            in_pass: false,
            gui_ready: false,
            pipeline: None,
            groups: Map::empty(),
            vertices: None,
            indices: None,
            submitted: false,
            presented: false,
        }
    }

    /// The pipeline is set, and each slot that it reads has a bind group of its kind.
    pub open spec fn draws_with(self, pipeline: Pipeline) -> bool {
        &&& self.in_pass
        &&& self.pipeline == Some(pipeline)
        &&& forall|slot: u32|
            slot < pipeline.groups().len() ==> {
                &&& #[trigger] self.groups.dom().contains(slot)
                &&& self.groups[slot].kind() == pipeline.groups()[slot as int]
            }
    }

    /// Whether the modelled device takes `command` now. A mesh is drawn from its own buffers,
    /// whole, with the pipeline of its model and the texture of its own material. A pass
    /// reaches the surface, and starts with nothing in front of anything.
    pub open spec fn accepts(self, light: Model, rei: Model, command: FrameCommand) -> bool {
        match command {
            FrameCommand::FreeTexture(_) => !self.in_pass && !self.submitted,
            FrameCommand::UpdateTexture(_, _) => !self.in_pass && !self.submitted,
            FrameCommand::UpdateGuiBuffers => !self.in_pass && !self.submitted,
            FrameCommand::BeginPass(pass) => {
                &&& !self.in_pass
                &&& !self.submitted
                &&& pass.resolved
                &&& pass.depth is Farthest
                &&& !pass.stencil
            },
            FrameCommand::SetPipeline(_) => self.in_pass,
            FrameCommand::SetBindGroup(_, _) => self.in_pass,
            FrameCommand::SetVertexBuffer(slot, _) => self.in_pass && slot == 0,
            FrameCommand::SetIndexBuffer(_, format) => {
                &&& self.in_pass
                &&& format == IndexFormat::Uint32
            },
            FrameCommand::DrawIndexed(draw) => match self.indices {
                Some(MeshRef::Light) => {
                    &&& self.vertices == self.indices
                    &&& self.draws_with(Pipeline::Light)
                    &&& Pipeline::Light.vertices() == seq![VertexLayout::Model]
                    &&& light.meshes@.len() > 0
                    &&& draw == IndexedDraw::whole(light.meshes@[0].num_indices)
                },
                Some(MeshRef::Rei(i)) => {
                    &&& self.vertices == self.indices
                    &&& self.draws_with(Pipeline::Model)
                    &&& Pipeline::Model.vertices() == seq![VertexLayout::Model]
                    &&& i < rei.meshes@.len()
                    &&& draw == IndexedDraw::whole(rei.meshes@[i as int].num_indices)
                    &&& rei.mesh_textured(i as int)
                    &&& self.groups[1] == BindGroup::Material(rei.meshes@[i as int].material->0)
                },
                None => false,
            },
            FrameCommand::DrawOutline(_) => {
                &&& self.draws_with(Pipeline::Outline)
                &&& Pipeline::Outline.vertices() == seq![
                    VertexLayout::Collider,
                    VertexLayout::Instance,
                ]
            },
            FrameCommand::DrawCollider(_) => {
                &&& self.draws_with(Pipeline::Collider)
                &&& Pipeline::Collider.vertices() == seq![
                    VertexLayout::Collider,
                    VertexLayout::Instance,
                ]
            },
            FrameCommand::DrawGui => self.in_pass && self.gui_ready,
            FrameCommand::EndPass => self.in_pass,
            FrameCommand::Submit => !self.in_pass && !self.submitted,
            FrameCommand::Present => self.submitted && !self.presented,
        }
    }

    /// What is set up after `command`. A pass starts with nothing bound. Colliders bring
    /// buffers of their own, and the interface brings everything.
    pub open spec fn after(self, command: FrameCommand) -> FrameState {
        match command {
            FrameCommand::FreeTexture(_) => self,
            FrameCommand::UpdateTexture(_, _) => self,
            FrameCommand::UpdateGuiBuffers => FrameState { gui_ready: true, ..self },
            FrameCommand::BeginPass(_) => FrameState {
                in_pass: true,
                pipeline: None,
                groups: Map::empty(),
                vertices: None,
                indices: None,
                ..self
            },
            FrameCommand::SetPipeline(pipeline) => FrameState {
                pipeline: Some(pipeline),
                ..self
            },
            FrameCommand::SetBindGroup(slot, group) => FrameState {
                groups: self.groups.insert(slot, group),
                ..self
            },
            FrameCommand::SetVertexBuffer(_, mesh) => FrameState { vertices: Some(mesh), ..self },
            FrameCommand::SetIndexBuffer(mesh, _) => FrameState { indices: Some(mesh), ..self },
            FrameCommand::DrawIndexed(_) => self,
            FrameCommand::DrawOutline(_) => FrameState { vertices: None, indices: None, ..self },
            FrameCommand::DrawCollider(_) => FrameState { vertices: None, indices: None, ..self },
            FrameCommand::DrawGui => FrameState {
                pipeline: None,
                groups: Map::empty(),
                vertices: None,
                indices: None,
                ..self
            },
            FrameCommand::EndPass => FrameState { in_pass: false, ..self },
            FrameCommand::Submit => FrameState { submitted: true, ..self },
            FrameCommand::Present => FrameState { presented: true, ..self },
        }
    }

    /// What is set up after all of `commands`.
    pub open spec fn after_all(self, commands: Seq<FrameCommand>) -> FrameState
        decreases commands.len(),
    {
        if commands.len() == 0 {
            self
        } else {
            self.after_all(commands.drop_last()).after(commands.last())
        }
    }

    /// The device takes each of `commands` when its turn comes.
    pub open spec fn accepts_all(
        self,
        light: Model,
        rei: Model,
        commands: Seq<FrameCommand>,
    ) -> bool
        decreases commands.len(),
    {
        commands.len() == 0 || {
            &&& self.accepts_all(light, rei, commands.drop_last())
            &&& self.after_all(commands.drop_last()).accepts(light, rei, commands.last())
        }
    }
}

/// The commands are a whole frame: the device takes each of them in turn, and in the
/// end the frame has been presented.
pub open spec fn valid_frame(light: Model, rei: Model, commands: Seq<FrameCommand>) -> bool {
    &&& FrameState::fresh().accepts_all(light, rei, commands)
    &&& FrameState::fresh().after_all(commands).presented
}

/// More commands are taken if the device takes them after the others.
pub(crate) proof fn lemma_append(
    state: FrameState,
    light: Model,
    rei: Model,
    first: Seq<FrameCommand>,
    second: Seq<FrameCommand>,
)
    ensures
        state.after_all(first + second) == state.after_all(first).after_all(second),
        state.accepts_all(light, rei, first + second) == (state.accepts_all(light, rei, first)
            && state.after_all(first).accepts_all(light, rei, second)),
    decreases second.len(),
{
    if second.len() == 0 {
        assert(first + second =~= first);
    } else {
        lemma_append(state, light, rei, first, second.drop_last());
        assert((first + second).drop_last() =~= first + second.drop_last());
    }
}

/// Before the pass, textures of the interface can be freed and updated at will.
proof fn lemma_textures(
    state: FrameState,
    light: Model,
    rei: Model,
    commands: Seq<FrameCommand>,
)
    requires
        !state.in_pass,
        !state.submitted,
        forall|i: int|
            0 <= i < commands.len() ==> (#[trigger] commands[i] is FreeTexture
                || commands[i] is UpdateTexture),
    ensures
        state.after_all(commands) == state,
        state.accepts_all(light, rei, commands),
    decreases commands.len(),
{
    if commands.len() > 0 {
        lemma_textures(state, light, rei, commands.drop_last());
    }
}

/// The pass opens with everything unbound and the interface ready.
proof fn lemma_opening(state: FrameState, light: Model, rei: Model)
    requires
        !state.in_pass,
        !state.submitted,
    ensures
        state.accepts_all(light, rei, frame::opening_commands()),
        state.after_all(frame::opening_commands()) == (FrameState {
            in_pass: true,
            gui_ready: true,
            pipeline: None,
            groups: Map::empty(),
            vertices: None,
            indices: None,
            ..state
        }),
{
    reveal_with_fuel(FrameState::after_all, 3);
    reveal_with_fuel(FrameState::accepts_all, 3);
}

/// Within the pass the light can be drawn, which leaves camera and light bound.
proof fn lemma_light(state: FrameState, light: Model, rei: Model)
    requires
        state.in_pass,
        light.meshes@.len() > 0,
    ensures
        state.accepts_all(light, rei, frame::light_commands(light)),
        ({
            let end = state.after_all(frame::light_commands(light));
            &&& end.in_pass
            &&& end.groups == state.groups.insert(0, BindGroup::Camera).insert(1, BindGroup::Light)
            &&& end.gui_ready == state.gui_ready
            &&& end.submitted == state.submitted
            &&& end.presented == state.presented
        }),
{
    reveal_with_fuel(FrameState::after_all, 7);
    reveal_with_fuel(FrameState::accepts_all, 7);
}

/// With the camera bound, the model pipeline and the light's bind group can be set.
proof fn lemma_rei_setup(state: FrameState, light: Model, rei: Model)
    requires
        state.in_pass,
    ensures
        state.accepts_all(light, rei, frame::rei_setup_commands()),
        state.after_all(frame::rei_setup_commands()) == (FrameState {
            pipeline: Some(Pipeline::Model),
            groups: state.groups.insert(2, BindGroup::Light),
            ..state
        }),
{
    reveal_with_fuel(FrameState::after_all, 3);
    reveal_with_fuel(FrameState::accepts_all, 3);
}

/// The pass is open with the model pipeline set, and camera and light bound for it.
spec fn rei_ready(state: FrameState) -> bool {
    &&& state.in_pass
    &&& state.pipeline == Some(Pipeline::Model)
    &&& state.groups.dom().contains(0)
    &&& state.groups[0] == BindGroup::Camera
    &&& state.groups.dom().contains(2)
    &&& state.groups[2] == BindGroup::Light
}

/// Each mesh can be drawn, which leaves the pass ready for the next.
proof fn lemma_mesh(state: FrameState, light: Model, rei: Model, i: int)
    requires
        rei_ready(state),
        rei.mesh_textured(i),
        0 <= i < rei.meshes@.len() <= usize::MAX,
    ensures
        state.accepts_all(light, rei, frame::mesh_commands(rei, i)),
        ({
            let end = state.after_all(frame::mesh_commands(rei, i));
            &&& rei_ready(end)
            &&& end.gui_ready == state.gui_ready
            &&& end.submitted == state.submitted
            &&& end.presented == state.presented
        }),
{
    reveal_with_fuel(FrameState::after_all, 5);
    reveal_with_fuel(FrameState::accepts_all, 5);
}

/// All meshes can be drawn one after the other.
proof fn lemma_rei(state: FrameState, light: Model, rei: Model, count: nat)
    requires
        rei_ready(state),
        rei.textured(),
        count <= rei.meshes@.len() <= usize::MAX,
    ensures
        state.accepts_all(light, rei, frame::rei_commands(rei, count)),
        ({
            let end = state.after_all(frame::rei_commands(rei, count));
            &&& rei_ready(end)
            &&& end.gui_ready == state.gui_ready
            &&& end.submitted == state.submitted
            &&& end.presented == state.presented
        }),
    decreases count,
{
    if count > 0 {
        let before = frame::rei_commands(rei, (count - 1) as nat);
        lemma_rei(state, light, rei, (count - 1) as nat);
        assert(rei.mesh_textured(count - 1));
        lemma_mesh(state.after_all(before), light, rei, count - 1);
        lemma_append(state, light, rei, before, frame::mesh_commands(rei, count - 1));
    }
}

/// With the camera bound, the colliders can be drawn.
proof fn lemma_colliders(state: FrameState, light: Model, rei: Model, show: bool)
    requires
        state.in_pass,
        state.groups.dom().contains(0),
        state.groups[0] == BindGroup::Camera,
    ensures
        state.accepts_all(light, rei, frame::collider_commands(show)),
        ({
            let end = state.after_all(frame::collider_commands(show));
            &&& end.in_pass
            &&& end.gui_ready == state.gui_ready
            &&& end.submitted == state.submitted
            &&& end.presented == state.presented
        }),
{
    reveal_with_fuel(FrameState::after_all, 7);
    reveal_with_fuel(FrameState::accepts_all, 7);
}

/// With the interface ready, the frame can be finished and presented.
proof fn lemma_closing(state: FrameState, light: Model, rei: Model)
    requires
        state.in_pass,
        state.gui_ready,
        !state.submitted,
        !state.presented,
    ensures
        state.accepts_all(light, rei, frame::closing_commands()),
        state.after_all(frame::closing_commands()).presented,
{
    reveal_with_fuel(FrameState::after_all, 5);
    reveal_with_fuel(FrameState::accepts_all, 5);
}

/// The frame shown while loading is a valid frame.
pub proof fn lemma_loading_frame_is_valid(light: Model, rei: Model)
    ensures
        valid_frame(light, rei, frame::loading_commands()),
{
    reveal_with_fuel(FrameState::after_all, 5);
    reveal_with_fuel(FrameState::accepts_all, 5);
}

/// Whatever the models and whatever the interface did, the frame of the loaded scene
/// is valid: every draw finds its pipeline, bind groups and buffers set, although the
/// camera is bound only once; and the frame ends up on the screen.
pub proof fn lemma_loaded_frame_is_valid(light: Model, rei: Model, gui: GuiOutput)
    requires
        light.meshes@.len() > 0,
        rei.textured(),
    ensures
        valid_frame(light, rei, frame::loaded_commands(light, rei, gui)),
{
    assert(rei.meshes.len() == rei.meshes@.len());
    let s0 = FrameState::fresh();
    let textures = frame::free_commands(gui.freed@) + frame::update_commands(gui.updated@);
    let meshes = frame::rei_commands(rei, rei.meshes@.len());
    let colliders = frame::collider_commands(gui.show_colliders);
    let f1 = textures;
    let f2 = f1 + frame::opening_commands();
    let f3 = f2 + frame::light_commands(light);
    let f4 = f3 + frame::rei_setup_commands();
    let f5 = f4 + meshes;
    let f6 = f5 + colliders;
    lemma_textures(s0, light, rei, f1);
    lemma_opening(s0.after_all(f1), light, rei);
    lemma_append(s0, light, rei, f1, frame::opening_commands());
    lemma_light(s0.after_all(f2), light, rei);
    lemma_append(s0, light, rei, f2, frame::light_commands(light));
    lemma_rei_setup(s0.after_all(f3), light, rei);
    lemma_append(s0, light, rei, f3, frame::rei_setup_commands());
    lemma_rei(s0.after_all(f4), light, rei, rei.meshes@.len());
    lemma_append(s0, light, rei, f4, meshes);
    lemma_colliders(s0.after_all(f5), light, rei, gui.show_colliders);
    lemma_append(s0, light, rei, f5, colliders);
    lemma_closing(s0.after_all(f6), light, rei);
    lemma_append(s0, light, rei, f6, frame::closing_commands());
}

/// The block of commands for each mesh, within those for the first `count`.
proof fn lemma_mesh_blocks(rei: Model, count: nat)
    ensures
        frame::rei_commands(rei, count).len() == 4 * count,
        forall|i: int|
            0 <= i < count ==> frame::rei_commands(rei, count).subrange(4 * i, 4 * i + 4)
                == #[trigger] frame::mesh_commands(rei, i),
        forall|k: int|
            0 <= k < 4 * count ==> !(#[trigger] frame::rei_commands(rei, count)[k] is DrawCollider)
                && !(frame::rei_commands(rei, count)[k] is DrawOutline),
    decreases count,
{
    if count > 0 {
        let before = frame::rei_commands(rei, (count - 1) as nat);
        let all = frame::rei_commands(rei, count);
        lemma_mesh_blocks(rei, (count - 1) as nat);
        assert forall|i: int| 0 <= i < count implies all.subrange(4 * i, 4 * i + 4)
            == #[trigger] frame::mesh_commands(rei, i) by {
            if i < count - 1 {
                assert(all.subrange(4 * i, 4 * i + 4) =~= before.subrange(4 * i, 4 * i + 4));
            } else {
                assert(all.subrange(4 * i, 4 * i + 4) =~= frame::mesh_commands(rei, i));
            }
        }
        assert forall|k: int| 0 <= k < 4 * count implies !(#[trigger] all[k] is DrawCollider)
            && !(all[k] is DrawOutline) by {
            if k < before.len() {
                assert(all[k] == before[k]);
            } else {
                assert(all[k] == frame::mesh_commands(rei, count - 1)[k - before.len()]);
            }
        }
    }
}

/// Every mesh of Rei's model is drawn, in order, each right after the one before it
/// and the first right after the model pipeline was set up.
pub proof fn lemma_every_mesh_is_drawn(light: Model, rei: Model, gui: GuiOutput, i: int)
    requires
        0 <= i < rei.meshes@.len(),
    ensures
        ({
            let start = gui.freed@.len() + gui.updated@.len() + 10 + 4 * i;
            &&& start + 4 <= frame::loaded_commands(light, rei, gui).len()
            &&& frame::loaded_commands(light, rei, gui).subrange(start, start + 4)
                == frame::mesh_commands(rei, i)
        }),
{
    let all = frame::loaded_commands(light, rei, gui);
    let meshes = frame::rei_commands(rei, rei.meshes@.len());
    let base = gui.freed@.len() + gui.updated@.len() + 10;
    lemma_mesh_blocks(rei, rei.meshes@.len());
    assert(all.subrange(base + 4 * i, base + 4 * i + 4) =~= meshes.subrange(4 * i, 4 * i + 4));
    assert(meshes.subrange(4 * i, 4 * i + 4) == frame::mesh_commands(rei, i));
}

/// Both colliders are drawn, fill and outline, if the interface says to show them;
/// otherwise neither is.
pub proof fn lemma_colliders_are_drawn_if_shown(
    light: Model,
    rei: Model,
    gui: GuiOutput,
    collider: Collider,
)
    ensures
        frame::loaded_commands(light, rei, gui).contains(FrameCommand::DrawCollider(collider))
            == gui.show_colliders,
        frame::loaded_commands(light, rei, gui).contains(FrameCommand::DrawOutline(collider))
            == gui.show_colliders,
{
    let all = frame::loaded_commands(light, rei, gui);
    let meshes = frame::rei_commands(rei, rei.meshes@.len());
    let freed = gui.freed@.len() as int;
    let updated = gui.updated@.len() as int;
    let base = freed + updated + 10;
    let after = base + meshes.len();
    lemma_mesh_blocks(rei, rei.meshes@.len());
    if gui.show_colliders {
        let at: int = if collider == Collider::Body { 1 } else { 2 };
        assert(all[after + at] == FrameCommand::DrawOutline(collider));
        assert(all[after + at + 3] == FrameCommand::DrawCollider(collider));
    } else {
        assert forall|k: int| 0 <= k < all.len() implies !(#[trigger] all[k] is DrawCollider)
            && !(all[k] is DrawOutline) by {
            if base <= k < after {
                assert(all[k] == meshes[k - base]);
            } else if k < freed {
                assert(all[k] == frame::free_commands(gui.freed@)[k]);
            } else if k < freed + updated {
                assert(all[k] == frame::update_commands(gui.updated@)[k - freed]);
            }
        }
    }
}

} // verus!
