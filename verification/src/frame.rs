//! The commands that make up a frame, and the order they are given in.
use vstd::prelude::*;

use crate::model::Model;
use crate::pipeline::{BindGroupKind, IndexFormat, Pipeline};

verus! {

/// The identity of a texture of the interface, carried through unread.
#[verifier::external_type_specification]
#[verifier::external_body]
pub struct ExTextureId(egui::TextureId);

/// The colour that a pass starts from.
#[derive(Clone, Copy, Debug, PartialEq, Eq, Structural)]
pub enum ClearColour {
    /// Plain blue, shown while loading.
    Blue,
    /// The sky of the scene.
    Sky,
}

/// The depth that a pass starts from.
#[derive(Clone, Copy, Debug, PartialEq, Eq, Structural)]
pub enum ClearDepth {
    Nearest,
    Farthest,
}

/// A pass over the multisampled texture and the depth texture.
#[derive(Clone, Copy, Debug, PartialEq, Eq, Structural)]
pub struct PassSetup {
    pub colour: ClearColour,
    /// Whether the samples are resolved onto the surface.
    pub resolved: bool,
    /// Whether the colours are kept after the pass.
    pub store_colour: bool,
    pub depth: ClearDepth,
    /// Whether the depths are kept after the pass.
    pub store_depth: bool,
    /// Whether the pass reads or writes a stencil.
    pub stencil: bool,
}

/// Which part of the bound buffers is drawn, and how many times.
#[derive(Clone, Copy, Debug, PartialEq, Eq, Structural)]
pub struct IndexedDraw {
    pub first_index: u32,
    pub end_index: u32,
    /// Added to each index.
    pub base_vertex: i32,
    pub first_instance: u32,
    pub end_instance: u32,
}

/// A mesh of the scene.
#[derive(Clone, Copy, Debug, PartialEq, Eq, Structural)]
pub enum MeshRef {
    /// The first mesh of the light's model.
    Light,
    /// The mesh of Rei's model at this position.
    Rei(usize),
}

/// A bind group of the scene.
#[derive(Clone, Copy, Debug, PartialEq, Eq, Structural)]
pub enum BindGroup {
    Camera,
    Light,
    /// The diffuse texture of the material of Rei's model at this position.
    Material(usize),
}

/// The two debug colliders.
#[derive(Clone, Copy, Debug, PartialEq, Eq, Structural)]
pub enum Collider {
    Body,
    Head,
}

/// One command of a frame.
#[derive(Clone, Copy, Debug, PartialEq)]
pub enum FrameCommand {
    /// Frees a texture of the interface.
    FreeTexture(egui::TextureId),
    /// Creates or updates a texture of the interface, from the update at this position.
    UpdateTexture(usize, egui::TextureId),
    /// Uploads the vertices of the interface.
    UpdateGuiBuffers,
    BeginPass(PassSetup),
    SetPipeline(Pipeline),
    SetBindGroup(u32, BindGroup),
    SetVertexBuffer(u32, MeshRef),
    SetIndexBuffer(MeshRef, IndexFormat),
    DrawIndexed(IndexedDraw),
    DrawOutline(Collider),
    DrawCollider(Collider),
    DrawGui,
    EndPass,
    Submit,
    Present,
}

/// What running the interface left behind: whether colliders are to be shown, and
/// which of its textures are to be freed and updated.
#[derive(Debug, PartialEq)]
pub struct GuiOutput {
    pub show_colliders: bool,
    pub freed: Vec<egui::TextureId>,
    pub updated: Vec<egui::TextureId>,
}

impl PassSetup {
    /// A pass that starts from `colour` with the depth at its farthest, goes to the
    /// surface, and keeps colours and depths. There is no stencil.
    pub open spec fn over(colour: ClearColour) -> PassSetup {
        PassSetup {
            colour,
            resolved: true,
            store_colour: true,
            depth: ClearDepth::Farthest,
            store_depth: true,
            stencil: false,
        }
    }

    /// A pass that starts from `colour`.
    pub fn new(colour: ClearColour) -> (pass: PassSetup)
        ensures
            pass == PassSetup::over(colour),
    {
        PassSetup {
            colour,
            resolved: true,
            store_colour: true,
            depth: ClearDepth::Farthest,
            store_depth: true,
            stencil: false,
        }
    }
}

impl IndexedDraw {
    /// All of `num_indices` indices, as they are, once.
    pub open spec fn whole(num_indices: u32) -> IndexedDraw {
        IndexedDraw {
            first_index: 0,
            end_index: num_indices,
            base_vertex: 0,
            first_instance: 0,
            end_instance: 1,
        }
    }

    /// All of `num_indices` indices, once.
    pub fn new(num_indices: u32) -> (draw: IndexedDraw)
        ensures
            draw == IndexedDraw::whole(num_indices),
    {
        IndexedDraw {
            first_index: 0,
            end_index: num_indices,
            base_vertex: 0,
            first_instance: 0,
            end_instance: 1,
        }
    }
}

impl BindGroup {
    /// The kind of resources in the bind group.
    pub open spec fn kind(self) -> BindGroupKind {
        match self {
            BindGroup::Camera => BindGroupKind::Camera,
            BindGroup::Light => BindGroupKind::Light,
            BindGroup::Material(_) => BindGroupKind::Texture,
        }
    }
}

/// The frame shown while loading: an empty pass.
pub open spec fn loading_commands() -> Seq<FrameCommand> {
    seq![
        FrameCommand::BeginPass(PassSetup::over(ClearColour::Blue)),
        FrameCommand::EndPass,
        FrameCommand::Submit,
        FrameCommand::Present,
    ]
}

/// Textures of the interface that are no longer needed are freed in order.
pub open spec fn free_commands(freed: Seq<egui::TextureId>) -> Seq<FrameCommand> {
    freed.map_values(|id: egui::TextureId| FrameCommand::FreeTexture(id))
}

/// Textures of the interface are brought up to date in order.
pub open spec fn update_commands(updated: Seq<egui::TextureId>) -> Seq<FrameCommand> {
    Seq::new(updated.len(), |i: int| FrameCommand::UpdateTexture(i as usize, updated[i]))
}

/// The interface is readied and the pass begun.
pub open spec fn opening_commands() -> Seq<FrameCommand> {
    seq![FrameCommand::UpdateGuiBuffers, FrameCommand::BeginPass(PassSetup::over(ClearColour::Sky))]
}

/// The light's model is drawn with the light's pipeline.
pub open spec fn light_commands(light: Model) -> Seq<FrameCommand> {
    seq![
        FrameCommand::SetPipeline(Pipeline::Light),
        FrameCommand::SetBindGroup(0, BindGroup::Camera),
        FrameCommand::SetBindGroup(1, BindGroup::Light),
        FrameCommand::SetVertexBuffer(0, MeshRef::Light),
        FrameCommand::SetIndexBuffer(MeshRef::Light, IndexFormat::Uint32),
        FrameCommand::DrawIndexed(IndexedDraw::whole(light.meshes@[0].num_indices)),
    ]
}

/// The model pipeline is set up for Rei. The camera stays where it was bound.
pub open spec fn rei_setup_commands() -> Seq<FrameCommand> {
    seq![
        FrameCommand::SetPipeline(Pipeline::Model),
        FrameCommand::SetBindGroup(2, BindGroup::Light),
    ]
}

/// Mesh `i` of Rei's model is drawn with its own material.
pub open spec fn mesh_commands(rei: Model, i: int) -> Seq<FrameCommand> {
    seq![
        FrameCommand::SetBindGroup(1, BindGroup::Material(rei.meshes@[i].material->0)),
        FrameCommand::SetVertexBuffer(0, MeshRef::Rei(i as usize)),
        FrameCommand::SetIndexBuffer(MeshRef::Rei(i as usize), IndexFormat::Uint32),
        FrameCommand::DrawIndexed(IndexedDraw::whole(rei.meshes@[i].num_indices)),
    ]
}

/// The first `count` meshes of Rei's model are drawn in order.
pub open spec fn rei_commands(rei: Model, count: nat) -> Seq<FrameCommand>
    decreases count,
{
    if count == 0 {
        seq![]
    } else {
        rei_commands(rei, (count - 1) as nat) + mesh_commands(rei, count - 1)
    }
}

/// If they are shown, the colliders are drawn: first both outlines, then both fills.
pub open spec fn collider_commands(show: bool) -> Seq<FrameCommand> {
    if show {
        seq![
            FrameCommand::SetPipeline(Pipeline::Outline),
            FrameCommand::DrawOutline(Collider::Body),
            FrameCommand::DrawOutline(Collider::Head),
            FrameCommand::SetPipeline(Pipeline::Collider),
            FrameCommand::DrawCollider(Collider::Body),
            FrameCommand::DrawCollider(Collider::Head),
        ]
    } else {
        seq![]
    }
}

/// The interface is drawn on top, and the frame goes to the screen.
pub open spec fn closing_commands() -> Seq<FrameCommand> {
    seq![
        FrameCommand::DrawGui,
        FrameCommand::EndPass,
        FrameCommand::Submit,
        FrameCommand::Present,
    ]
}

/// The frame of the loaded scene.
pub open spec fn loaded_commands(light: Model, rei: Model, gui: GuiOutput) -> Seq<FrameCommand> {
    free_commands(gui.freed@) + update_commands(gui.updated@) + opening_commands()
        + light_commands(light) + rei_setup_commands() + rei_commands(rei, rei.meshes@.len())
        + collider_commands(gui.show_colliders) + closing_commands()
}

/// The frame shown while loading.
pub fn loading_frame() -> (commands: Vec<FrameCommand>)
    ensures
        commands@ == loading_commands(),
{
    vec![
        FrameCommand::BeginPass(PassSetup::new(ClearColour::Blue)),
        FrameCommand::EndPass,
        FrameCommand::Submit,
        FrameCommand::Present,
    ]
}

/// Adds what draws the light's model.
fn draw_light(light: &Model, commands: &mut Vec<FrameCommand>)
    requires
        light.meshes@.len() > 0,
    ensures
        final(commands)@ == old(commands)@ + light_commands(*light),
{
    commands.push(FrameCommand::SetPipeline(Pipeline::Light));
    commands.push(FrameCommand::SetBindGroup(0, BindGroup::Camera));
    commands.push(FrameCommand::SetBindGroup(1, BindGroup::Light));
    commands.push(FrameCommand::SetVertexBuffer(0, MeshRef::Light));
    commands.push(FrameCommand::SetIndexBuffer(MeshRef::Light, IndexFormat::Uint32));
    commands.push(FrameCommand::DrawIndexed(IndexedDraw::new(light.meshes[0].num_indices)));
}

/// Adds what draws Rei's model, mesh by mesh.
fn draw_rei(rei: &Model, commands: &mut Vec<FrameCommand>)
    requires
        rei.textured(),
    ensures
        final(commands)@ == old(commands)@ + rei_setup_commands() + rei_commands(
            *rei,
            rei.meshes@.len(),
        ),
{
    commands.push(FrameCommand::SetPipeline(Pipeline::Model));
    commands.push(FrameCommand::SetBindGroup(2, BindGroup::Light));
    let ghost start = commands@;
    assert(start =~= old(commands)@ + rei_setup_commands());
    let mut i: usize = 0;
    while i < rei.meshes.len()
        invariant
            0 <= i <= rei.meshes@.len(),
            rei.textured(),
            commands@ == start + rei_commands(*rei, i as nat),
        decreases rei.meshes@.len() - i,
    {
        let mesh = rei.meshes[i];
        assert(rei.mesh_textured(i as int));
        let material: usize = mesh.material.unwrap();
        commands.push(FrameCommand::SetBindGroup(1, BindGroup::Material(material)));
        commands.push(FrameCommand::SetVertexBuffer(0, MeshRef::Rei(i)));
        commands.push(FrameCommand::SetIndexBuffer(MeshRef::Rei(i), IndexFormat::Uint32));
        commands.push(FrameCommand::DrawIndexed(IndexedDraw::new(mesh.num_indices)));
        assert(commands@ =~= start + (rei_commands(*rei, i as nat) + mesh_commands(
            *rei,
            i as int,
        )));
        i = i + 1;
    }
}

/// Adds what draws the colliders, if they are shown.
fn draw_colliders(show: bool, commands: &mut Vec<FrameCommand>)
    ensures
        final(commands)@ == old(commands)@ + collider_commands(show),
{
    if show {
        commands.push(FrameCommand::SetPipeline(Pipeline::Outline));
        commands.push(FrameCommand::DrawOutline(Collider::Body));
        commands.push(FrameCommand::DrawOutline(Collider::Head));
        commands.push(FrameCommand::SetPipeline(Pipeline::Collider));
        commands.push(FrameCommand::DrawCollider(Collider::Body));
        commands.push(FrameCommand::DrawCollider(Collider::Head));
    }
}

/// Adds what brings the textures of the interface up to date: first what is freed,
/// then what is updated.
fn update_textures(gui: &GuiOutput, commands: &mut Vec<FrameCommand>)
    ensures
        final(commands)@ == old(commands)@ + free_commands(gui.freed@) + update_commands(
            gui.updated@,
        ),
{
    let ghost start = commands@;
    let mut i: usize = 0;
    while i < gui.freed.len()
        invariant
            0 <= i <= gui.freed@.len(),
            commands@ == start + free_commands(gui.freed@.take(i as int)),
        decreases gui.freed@.len() - i,
    {
        commands.push(FrameCommand::FreeTexture(gui.freed[i]));
        i = i + 1;
        assert(commands@ =~= start + free_commands(gui.freed@.take(i as int)));
    }
    assert(gui.freed@.take(i as int) =~= gui.freed@);
    let ghost middle = commands@;
    let mut k: usize = 0;
    while k < gui.updated.len()
        invariant
            0 <= k <= gui.updated@.len(),
            commands@ == middle + update_commands(gui.updated@.take(k as int)),
        decreases gui.updated@.len() - k,
    {
        commands.push(FrameCommand::UpdateTexture(k, gui.updated[k]));
        k = k + 1;
        assert(commands@ =~= middle + update_commands(gui.updated@.take(k as int)));
    }
    assert(gui.updated@.take(k as int) =~= gui.updated@);
}

/// The frame of the loaded scene: the light, Rei, the colliders if the interface says
/// to show them, and the interface itself.
pub fn loaded_frame(light: &Model, rei: &Model, gui: &GuiOutput) -> (commands: Vec<FrameCommand>)
    requires
        light.meshes@.len() > 0,
        rei.textured(),
    ensures
        commands@ == loaded_commands(*light, *rei, *gui),
{
    let mut commands: Vec<FrameCommand> = Vec::new();
    update_textures(gui, &mut commands);
    commands.push(FrameCommand::UpdateGuiBuffers);
    commands.push(FrameCommand::BeginPass(PassSetup::new(ClearColour::Sky)));
    draw_light(light, &mut commands);
    draw_rei(rei, &mut commands);
    draw_colliders(gui.show_colliders, &mut commands);
    commands.push(FrameCommand::DrawGui);
    commands.push(FrameCommand::EndPass);
    commands.push(FrameCommand::Submit);
    commands.push(FrameCommand::Present);
    commands
}

/// The debug label of the encoder that records a frame.
pub fn encoder_label() -> (label: &'static str)
    ensures
        label@ == "Render Encoder"@,
{
    "Render Encoder"
}

/// The debug label of a pass.
pub fn pass_label() -> (label: &'static str)
    ensures
        label@ == "Render pass"@,
{
    "Render pass"
}

} // verus!
