//! What the commands of a frame put on the screen.
//!
//! A frame is known by its draws: what is drawn, in which order, and what is bound then.
use vstd::prelude::*;

use crate::frame::{self, BindGroup, Collider, FrameCommand, GuiOutput, MeshRef};
use crate::model::Model;
use crate::pipeline::{Pipeline, RenderPipeline, VertexLayout};
use crate::validity::FrameState;

verus! {

/// A draw, and what is set up when it is given.
pub struct DrawCall {
    pub state: FrameState,
    pub command: FrameCommand,
}

/// The command puts something on the screen.
pub open spec fn is_draw(command: FrameCommand) -> bool {
    command is DrawIndexed || command is DrawOutline || command is DrawCollider
        || command is DrawGui
}

impl FrameState {
    /// The draws among `commands`, given from this state on.
    pub open spec fn draws(self, commands: Seq<FrameCommand>) -> Seq<DrawCall>
        decreases commands.len(),
    {
        if commands.len() == 0 {
            seq![]
        } else {
            let before = self.draws(commands.drop_last());
            if is_draw(commands.last()) {
                before.push(
                    DrawCall {
                        state: self.after_all(commands.drop_last()),
                        command: commands.last(),
                    },
                )
            } else {
                before
            }
        }
    }
}

/// The draws of commands that follow others.
proof fn lemma_draws_append(
    state: FrameState,
    first: Seq<FrameCommand>,
    second: Seq<FrameCommand>,
)
    ensures
        state.draws(first + second) == state.draws(first) + state.after_all(first).draws(second),
        state.after_all(first + second) == state.after_all(first).after_all(second),
    decreases second.len(),
{
    if second.len() == 0 {
        assert(first + second =~= first);
        assert(state.draws(first) + state.after_all(first).draws(second) =~= state.draws(first));
    } else {
        let init = second.drop_last();
        lemma_draws_append(state, first, init);
        assert((first + second).drop_last() =~= first + init);
        assert((first + second).last() == second.last());
        assert(state.draws(first + second) =~= state.draws(first) + state.after_all(first).draws(
            second,
        ));
    }
}

/// Each draw is one of the commands, given after those before it.
proof fn lemma_draw_has_a_position(state: FrameState, commands: Seq<FrameCommand>, k: int)
    requires
        0 <= k < state.draws(commands).len(),
    ensures
        exists|at: int|
            0 <= at < commands.len() && #[trigger] commands[at] == state.draws(commands)[k].command
                && state.after_all(commands.take(at)) == state.draws(commands)[k].state,
    decreases commands.len(),
{
    if commands.len() > 0 {
        let init = commands.drop_last();
        let calls = state.draws(commands);
        if k < state.draws(init).len() {
            lemma_draw_has_a_position(state, init, k);
            let at = choose|at: int|
                0 <= at < init.len() && #[trigger] init[at] == state.draws(init)[k].command
                    && state.after_all(init.take(at)) == state.draws(init)[k].state;
            assert(commands.take(at) =~= init.take(at));
            assert(commands[at] == calls[k].command);
        } else {
            let at = commands.len() - 1;
            assert(commands.take(at) =~= init);
            assert(commands[at] == calls[k].command);
        }
    }
}

/// The pass is open with the model pipeline set, and camera and light bound for it.
spec fn ready_for_rei(state: FrameState) -> bool {
    &&& state.in_pass
    &&& state.pipeline == Some(Pipeline::Model)
    &&& state.groups.dom().contains(0)
    &&& state.groups[0] == BindGroup::Camera
    &&& state.groups.dom().contains(2)
    &&& state.groups[2] == BindGroup::Light
}

/// `call` draws all of a mesh once, from its own buffers.
pub open spec fn draws_whole_mesh(call: DrawCall, mesh: MeshRef, num_indices: u32) -> bool {
    &&& call.state.in_pass
    &&& call.state.vertices == Some(mesh)
    &&& call.state.indices == Some(mesh)
    &&& call.command matches FrameCommand::DrawIndexed(draw) && ({
        &&& draw.first_index == 0
        &&& draw.end_index == num_indices
        &&& draw.base_vertex == 0
        &&& draw.first_instance == 0
        &&& draw.end_instance == 1
    })
}

/// One mesh takes one draw.
proof fn lemma_mesh_draw(state: FrameState, rei: Model, i: int)
    requires
        ready_for_rei(state),
        0 <= i < rei.meshes@.len() <= usize::MAX,
    ensures
        ({
            let calls = state.draws(frame::mesh_commands(rei, i));
            let end = state.after_all(frame::mesh_commands(rei, i));
            &&& calls.len() == 1
            &&& draws_whole_mesh(calls[0], MeshRef::Rei(i as usize), rei.meshes@[i].num_indices)
            &&& calls[0].state.pipeline == Some(Pipeline::Model)
            &&& calls[0].state.groups.dom().contains(0)
            &&& calls[0].state.groups[0] == BindGroup::Camera
            &&& calls[0].state.groups.dom().contains(1)
            &&& calls[0].state.groups[1] == BindGroup::Material(rei.meshes@[i].material->0)
            &&& calls[0].state.groups.dom().contains(2)
            &&& calls[0].state.groups[2] == BindGroup::Light
            &&& ready_for_rei(end)
            &&& end.gui_ready == state.gui_ready
        }),
{
    reveal_with_fuel(FrameState::after_all, 5);
    reveal_with_fuel(FrameState::draws, 5);
}

/// The meshes take one draw each, in order.
proof fn lemma_rei_draws(state: FrameState, rei: Model, count: nat)
    requires
        ready_for_rei(state),
        count <= rei.meshes@.len() <= usize::MAX,
    ensures
        ({
            let calls = state.draws(frame::rei_commands(rei, count));
            let end = state.after_all(frame::rei_commands(rei, count));
            &&& calls.len() == count
            &&& ready_for_rei(end)
            &&& end.gui_ready == state.gui_ready
            &&& forall|i: int|
                0 <= i < count ==> {
                    &&& draws_whole_mesh(
                        #[trigger] calls[i],
                        MeshRef::Rei(i as usize),
                        rei.meshes@[i].num_indices,
                    )
                    &&& calls[i].state.pipeline == Some(Pipeline::Model)
                    &&& calls[i].state.groups.dom().contains(0)
                    &&& calls[i].state.groups[0] == BindGroup::Camera
                    &&& calls[i].state.groups.dom().contains(1)
                    &&& calls[i].state.groups[1] == BindGroup::Material(
                        rei.meshes@[i].material->0,
                    )
                    &&& calls[i].state.groups.dom().contains(2)
                    &&& calls[i].state.groups[2] == BindGroup::Light
                }
        }),
    decreases count,
{
    if count > 0 {
        let before = frame::rei_commands(rei, (count - 1) as nat);
        let mesh = frame::mesh_commands(rei, count - 1);
        lemma_rei_draws(state, rei, (count - 1) as nat);
        lemma_mesh_draw(state.after_all(before), rei, count - 1);
        lemma_draws_append(state, before, mesh);
    }
}

/// Handling textures draws nothing and binds nothing.
proof fn lemma_textures_draw_nothing(state: FrameState, commands: Seq<FrameCommand>)
    requires
        forall|i: int|
            0 <= i < commands.len() ==> (#[trigger] commands[i] is FreeTexture
                || commands[i] is UpdateTexture),
    ensures
        state.draws(commands).len() == 0,
        state.after_all(commands) == state,
    decreases commands.len(),
{
    if commands.len() > 0 {
        lemma_textures_draw_nothing(state, commands.drop_last());
    }
}

/// The picture of the loaded scene, draw by draw: first the light, whole, lit by itself;
/// then every mesh of Rei's model, in order, whole, with its own material and lit by the
/// light; then, if they are shown, the outlines of body and head and the two themselves; and
/// last the interface. All of the scene is seen through the camera. Nothing is missing,
/// nothing is drawn twice, and nothing else is drawn.
pub proof fn lemma_picture_of_the_loaded_scene(light: Model, rei: Model, gui: GuiOutput)
    ensures
        ({
            let calls = FrameState::fresh().draws(frame::loaded_commands(light, rei, gui));
            let n = rei.meshes@.len() as int;
            &&& calls.len() == (if gui.show_colliders {
                n + 6
            } else {
                n + 2
            })
            &&& draws_whole_mesh(calls[0], MeshRef::Light, light.meshes@[0].num_indices)
            &&& calls[0].state.pipeline == Some(Pipeline::Light)
            &&& calls[0].state.groups.dom().contains(0)
            &&& calls[0].state.groups[0] == BindGroup::Camera
            &&& calls[0].state.groups.dom().contains(1)
            &&& calls[0].state.groups[1] == BindGroup::Light
            &&& forall|k: int|
                1 <= k <= n ==> {
                    let mesh = rei.meshes@[k - 1];
                    let call = #[trigger] calls[k];
                    &&& draws_whole_mesh(call, MeshRef::Rei((k - 1) as usize), mesh.num_indices)
                    &&& call.state.pipeline == Some(Pipeline::Model)
                    &&& call.state.groups.dom().contains(0)
                    &&& call.state.groups[0] == BindGroup::Camera
                    &&& call.state.groups.dom().contains(1)
                    &&& call.state.groups[1] == BindGroup::Material(mesh.material->0)
                    &&& call.state.groups.dom().contains(2)
                    &&& call.state.groups[2] == BindGroup::Light
                }
            &&& gui.show_colliders ==> {
                &&& calls[n + 1].command == FrameCommand::DrawOutline(Collider::Body)
                &&& calls[n + 2].command == FrameCommand::DrawOutline(Collider::Head)
                &&& calls[n + 3].command == FrameCommand::DrawCollider(Collider::Body)
                &&& calls[n + 4].command == FrameCommand::DrawCollider(Collider::Head)
                &&& forall|k: int|
                    n < k < n + 5 ==> {
                        let call = #[trigger] calls[k];
                        &&& call.state.in_pass
                        &&& call.state.pipeline == Some(
                            if k < n + 3 {
                                Pipeline::Outline
                            } else {
                                Pipeline::Collider
                            },
                        )
                        &&& call.state.groups.dom().contains(0)
                        &&& call.state.groups[0] == BindGroup::Camera
                    }
            }
            &&& calls.last().command is DrawGui
            &&& calls.last().state.in_pass
            &&& calls.last().state.gui_ready
        }),
{
    assert(rei.meshes.len() == rei.meshes@.len());
    let n = rei.meshes@.len() as int;
    let (s2, s4, s5, s6) = lemma_draws_of_the_parts(light, rei, gui);
    let calls = FrameState::fresh().draws(frame::loaded_commands(light, rei, gui));
    let lights = s2.draws(frame::light_commands(light));
    let meshes = s4.draws(frame::rei_commands(rei, rei.meshes@.len()));
    let colliders = s5.draws(frame::collider_commands(gui.show_colliders));
    let last = s6.draws(frame::closing_commands());
    lemma_light_draw(s2, light);
    lemma_rei_draws(s4, rei, rei.meshes@.len());
    lemma_collider_draws(s5, gui.show_colliders);
    assert(calls[0] == lights[0]);
    assert forall|k: int| 1 <= k <= n implies #[trigger] calls[k] == meshes[k - 1] by {}
    if gui.show_colliders {
        assert forall|k: int| n < k < n + 5 implies #[trigger] calls[k] == colliders[k - n
            - 1] by {}
    }
    assert(calls.last() == last[0]);
}

/// The draws of the loaded scene are those of its parts. Gives the states that the light,
/// Rei, the colliders and the interface are drawn from.
proof fn lemma_draws_of_the_parts(light: Model, rei: Model, gui: GuiOutput) -> (states: (
    FrameState,
    FrameState,
    FrameState,
    FrameState,
))
    ensures
        states.0.in_pass,
        ready_for_rei(states.1),
        ready_for_rei(states.2),
        states.3.in_pass,
        states.3.gui_ready,
        FrameState::fresh().draws(frame::loaded_commands(light, rei, gui)) == states.0.draws(
            frame::light_commands(light),
        ) + states.1.draws(frame::rei_commands(rei, rei.meshes@.len())) + states.2.draws(
            frame::collider_commands(gui.show_colliders),
        ) + states.3.draws(frame::closing_commands()),
        states.3.draws(frame::closing_commands()).len() == 1,
        states.3.draws(frame::closing_commands())[0].command is DrawGui,
        states.3.draws(frame::closing_commands())[0].state == states.3,
{
    assert(rei.meshes.len() == rei.meshes@.len());
    let s0 = FrameState::fresh();
    let f1 = frame::free_commands(gui.freed@) + frame::update_commands(gui.updated@);
    let f2 = f1 + frame::opening_commands();
    let f3 = f2 + frame::light_commands(light);
    let f4 = f3 + frame::rei_setup_commands();
    let meshes = frame::rei_commands(rei, rei.meshes@.len());
    let f5 = f4 + meshes;
    let colliders = frame::collider_commands(gui.show_colliders);
    let f6 = f5 + colliders;
    let s1 = s0.after_all(f1);
    let s2 = s0.after_all(f2);
    let s3 = s0.after_all(f3);
    let s4 = s0.after_all(f4);
    let s5 = s0.after_all(f5);
    let s6 = s0.after_all(f6);
    lemma_textures_draw_nothing(s0, f1);
    lemma_draws_append(s0, f1, frame::opening_commands());
    lemma_opening_draws_nothing(s1);
    lemma_draws_append(s0, f2, frame::light_commands(light));
    lemma_light_draw(s2, light);
    lemma_draws_append(s0, f3, frame::rei_setup_commands());
    lemma_setup_draws_nothing(s3);
    lemma_draws_append(s0, f4, meshes);
    lemma_rei_draws(s4, rei, rei.meshes@.len());
    lemma_draws_append(s0, f5, colliders);
    lemma_collider_draws(s5, gui.show_colliders);
    lemma_draws_append(s0, f6, frame::closing_commands());
    lemma_closing_draw(s6);
    assert(s0.draws(f2) =~= seq![]);
    assert(s0.draws(f4) =~= s2.draws(frame::light_commands(light)));
    (s2, s4, s5, s6)
}

/// Opening the pass draws nothing.
proof fn lemma_opening_draws_nothing(state: FrameState)
    ensures
        state.draws(frame::opening_commands()).len() == 0,
        state.after_all(frame::opening_commands()).in_pass,
        state.after_all(frame::opening_commands()).gui_ready,
{
    reveal_with_fuel(FrameState::after_all, 3);
    reveal_with_fuel(FrameState::draws, 3);
}

/// Setting up for Rei draws nothing.
proof fn lemma_setup_draws_nothing(state: FrameState)
    requires
        state.in_pass,
        state.groups.dom().contains(0),
        state.groups[0] == BindGroup::Camera,
    ensures
        state.draws(frame::rei_setup_commands()).len() == 0,
        ready_for_rei(state.after_all(frame::rei_setup_commands())),
        state.after_all(frame::rei_setup_commands()).gui_ready == state.gui_ready,
{
    reveal_with_fuel(FrameState::after_all, 3);
    reveal_with_fuel(FrameState::draws, 3);
}

/// The interface takes one draw.
proof fn lemma_closing_draw(state: FrameState)
    ensures
        state.draws(frame::closing_commands()).len() == 1,
        state.draws(frame::closing_commands())[0].command is DrawGui,
        state.draws(frame::closing_commands())[0].state == state,
{
    reveal_with_fuel(FrameState::after_all, 5);
    reveal_with_fuel(FrameState::draws, 5);
}

/// The light takes one draw.
proof fn lemma_light_draw(state: FrameState, light: Model)
    requires
        state.in_pass,
    ensures
        ({
            let calls = state.draws(frame::light_commands(light));
            let end = state.after_all(frame::light_commands(light));
            &&& calls.len() == 1
            &&& draws_whole_mesh(calls[0], MeshRef::Light, light.meshes@[0].num_indices)
            &&& calls[0].state.pipeline == Some(Pipeline::Light)
            &&& calls[0].state.groups.dom().contains(0)
            &&& calls[0].state.groups[0] == BindGroup::Camera
            &&& calls[0].state.groups.dom().contains(1)
            &&& calls[0].state.groups[1] == BindGroup::Light
            &&& end.in_pass
            &&& end.gui_ready == state.gui_ready
            &&& end.groups.dom().contains(0)
            &&& end.groups[0] == BindGroup::Camera
        }),
{
    reveal_with_fuel(FrameState::after_all, 7);
    reveal_with_fuel(FrameState::draws, 7);
}

/// The colliders take two draws each, or none.
proof fn lemma_collider_draws(state: FrameState, show: bool)
    requires
        state.in_pass,
        state.groups.dom().contains(0),
        state.groups[0] == BindGroup::Camera,
    ensures
        ({
            let calls = state.draws(frame::collider_commands(show));
            let end = state.after_all(frame::collider_commands(show));
            &&& end.in_pass
            &&& end.gui_ready == state.gui_ready
            &&& !show ==> calls.len() == 0
            &&& show ==> {
                &&& calls.len() == 4
                &&& calls[0].command == FrameCommand::DrawOutline(Collider::Body)
                &&& calls[1].command == FrameCommand::DrawOutline(Collider::Head)
                &&& calls[2].command == FrameCommand::DrawCollider(Collider::Body)
                &&& calls[3].command == FrameCommand::DrawCollider(Collider::Head)
                &&& forall|k: int|
                    0 <= k < 4 ==> {
                        let call = #[trigger] calls[k];
                        &&& call.state.in_pass
                        &&& call.state.pipeline == Some(
                            if k < 2 {
                                Pipeline::Outline
                            } else {
                                Pipeline::Collider
                            },
                        )
                        &&& call.state.groups.dom().contains(0)
                        &&& call.state.groups[0] == BindGroup::Camera
                    }
            }
        }),
{
    reveal_with_fuel(FrameState::after_all, 7);
    reveal_with_fuel(FrameState::draws, 7);
}

/// Every mesh of Rei's model is drawn: somewhere in the frame stands a draw of all its
/// indices, once and as they are, given while its own buffers are bound. The light is drawn
/// in the same way.
pub proof fn lemma_every_mesh_reaches_the_screen(
    light: Model,
    rei: Model,
    gui: GuiOutput,
    i: int,
)
    requires
        0 <= i < rei.meshes@.len(),
    ensures
        exists|at: int|
            0 <= at < frame::loaded_commands(light, rei, gui).len() && draws_whole_mesh(
                DrawCall {
                    state: FrameState::fresh().after_all(
                        frame::loaded_commands(light, rei, gui).take(at),
                    ),
                    command: #[trigger] frame::loaded_commands(light, rei, gui)[at],
                },
                MeshRef::Rei(i as usize),
                rei.meshes@[i].num_indices,
            ),
        exists|at: int|
            0 <= at < frame::loaded_commands(light, rei, gui).len() && draws_whole_mesh(
                DrawCall {
                    state: FrameState::fresh().after_all(
                        frame::loaded_commands(light, rei, gui).take(at),
                    ),
                    command: #[trigger] frame::loaded_commands(light, rei, gui)[at],
                },
                MeshRef::Light,
                light.meshes@[0].num_indices,
            ),
{
    let commands = frame::loaded_commands(light, rei, gui);
    let calls = FrameState::fresh().draws(commands);
    lemma_picture_of_the_loaded_scene(light, rei, gui);
    lemma_draw_has_a_position(FrameState::fresh(), commands, i + 1);
    lemma_draw_has_a_position(FrameState::fresh(), commands, 0);
    assert(draws_whole_mesh(
        calls[i + 1],
        MeshRef::Rei(i as usize),
        rei.meshes@[i].num_indices,
    ));
    let at = choose|at: int|
        0 <= at < commands.len() && #[trigger] commands[at] == calls[i + 1].command
            && FrameState::fresh().after_all(commands.take(at)) == calls[i + 1].state;
    assert(draws_whole_mesh(
        DrawCall {
            state: FrameState::fresh().after_all(commands.take(at)),
            command: commands[at],
        },
        MeshRef::Rei(i as usize),
        rei.meshes@[i].num_indices,
    ));
    let first = choose|at: int|
        0 <= at < commands.len() && #[trigger] commands[at] == calls[0].command
            && FrameState::fresh().after_all(commands.take(at)) == calls[0].state;
    assert(draws_whole_mesh(
        DrawCall {
            state: FrameState::fresh().after_all(commands.take(first)),
            command: commands[first],
        },
        MeshRef::Light,
        light.meshes@[0].num_indices,
    ));
}

/// At each draw of the scene the pipeline that is set is one that was made for it: it expects
/// the vertices that there are, and each bind group that it reads is bound and of the right
/// kind. Meshes hold model vertices; colliders bring their own vertices and their instances.
pub proof fn lemma_draws_find_the_layouts_they_expect(
    light: Model,
    rei: Model,
    gui: GuiOutput,
    k: int,
    description: RenderPipeline,
    colour_format: wgpu::TextureFormat,
    depth_format: wgpu::TextureFormat,
)
    requires
        0 <= k < FrameState::fresh().draws(frame::loaded_commands(light, rei, gui)).len() - 1,
        description.describes(
            FrameState::fresh().draws(
                frame::loaded_commands(light, rei, gui),
            )[k].state.pipeline->0,
            colour_format,
            depth_format,
        ),
    ensures
        ({
            let call = FrameState::fresh().draws(frame::loaded_commands(light, rei, gui))[k];
            &&& call.state.pipeline is Some
            &&& call.command is DrawIndexed ==> description.vertex_buffers@ == seq![
                VertexLayout::Model,
            ]
            &&& call.command is DrawOutline || call.command is DrawCollider
                ==> description.vertex_buffers@ == seq![
                VertexLayout::Collider,
                VertexLayout::Instance,
            ]
            &&& forall|slot: u32|
                slot < description.layout.groups@.len() ==> {
                    &&& #[trigger] call.state.groups.dom().contains(slot)
                    &&& call.state.groups[slot].kind() == description.layout.groups@[slot as int]
                }
        }),
{
    lemma_picture_of_the_loaded_scene(light, rei, gui);
    let calls = FrameState::fresh().draws(frame::loaded_commands(light, rei, gui));
    let n = rei.meshes@.len() as int;
    let call = calls[k];
    if 1 <= k <= n {
        assert(calls[k].state.pipeline == Some(Pipeline::Model));
    } else if n < k {
        assert(k == n + 1 || k == n + 2 || k == n + 3 || k == n + 4);
    }
    crate::pipeline::lemma_pipelines_read_what_they_draw(
        description,
        call.state.pipeline->0,
        colour_format,
        depth_format,
    );
}

/// None of these commands are of the kind asked for.
proof fn lemma_filter_none(commands: Seq<FrameCommand>, kind: spec_fn(FrameCommand) -> bool)
    requires
        forall|i: int| 0 <= i < commands.len() ==> !kind(#[trigger] commands[i]),
    ensures
        commands.filter(kind) == Seq::<FrameCommand>::empty(),
    decreases commands.len(),
{
    reveal(Seq::filter);
    if commands.len() > 0 {
        lemma_filter_none(commands.drop_last(), kind);
    }
}

/// All of these commands are of the kind asked for.
proof fn lemma_filter_all(commands: Seq<FrameCommand>, kind: spec_fn(FrameCommand) -> bool)
    requires
        forall|i: int| 0 <= i < commands.len() ==> kind(#[trigger] commands[i]),
    ensures
        commands.filter(kind) == commands,
    decreases commands.len(),
{
    reveal(Seq::filter);
    if commands.len() > 0 {
        lemma_filter_all(commands.drop_last(), kind);
        assert(commands.drop_last().push(commands.last()) =~= commands);
    }
}

/// What of a kind there is in the commands of a frame is what there is in its parts.
proof fn lemma_filter_parts(
    light: Model,
    rei: Model,
    gui: GuiOutput,
    kind: spec_fn(FrameCommand) -> bool,
)
    ensures
        frame::loaded_commands(light, rei, gui).filter(kind) == frame::free_commands(
            gui.freed@,
        ).filter(kind) + frame::update_commands(gui.updated@).filter(kind)
            + frame::opening_commands().filter(kind) + frame::light_commands(light).filter(kind)
            + frame::rei_setup_commands().filter(kind) + frame::rei_commands(
            rei,
            rei.meshes@.len(),
        ).filter(kind) + frame::collider_commands(gui.show_colliders).filter(kind)
            + frame::closing_commands().filter(kind),
{
    let f1 = frame::free_commands(gui.freed@);
    let f2 = f1 + frame::update_commands(gui.updated@);
    let f3 = f2 + frame::opening_commands();
    let f4 = f3 + frame::light_commands(light);
    let f5 = f4 + frame::rei_setup_commands();
    let f6 = f5 + frame::rei_commands(rei, rei.meshes@.len());
    let f7 = f6 + frame::collider_commands(gui.show_colliders);
    Seq::filter_distributes_over_add(f1, frame::update_commands(gui.updated@), kind);
    Seq::filter_distributes_over_add(f2, frame::opening_commands(), kind);
    Seq::filter_distributes_over_add(f3, frame::light_commands(light), kind);
    Seq::filter_distributes_over_add(f4, frame::rei_setup_commands(), kind);
    Seq::filter_distributes_over_add(f5, frame::rei_commands(rei, rei.meshes@.len()), kind);
    Seq::filter_distributes_over_add(f6, frame::collider_commands(gui.show_colliders), kind);
    Seq::filter_distributes_over_add(f7, frame::closing_commands(), kind);
}

/// The commands for Rei's meshes bind and draw.
proof fn lemma_kinds_of_mesh_commands(rei: Model, count: nat)
    ensures
        forall|k: int|
            0 <= k < frame::rei_commands(rei, count).len() ==> {
                let command = #[trigger] frame::rei_commands(rei, count)[k];
                command is SetBindGroup || command is SetVertexBuffer || command is SetIndexBuffer
                    || command is DrawIndexed
            },
    decreases count,
{
    if count > 0 {
        let before = frame::rei_commands(rei, (count - 1) as nat);
        let mesh = frame::mesh_commands(rei, count - 1);
        lemma_kinds_of_mesh_commands(rei, (count - 1) as nat);
        assert forall|k: int| 0 <= k < frame::rei_commands(rei, count).len() implies ({
            let command = #[trigger] frame::rei_commands(rei, count)[k];
            command is SetBindGroup || command is SetVertexBuffer || command is SetIndexBuffer
                || command is DrawIndexed
        }) by {
            if k < before.len() {
                assert(frame::rei_commands(rei, count)[k] == before[k]);
            } else {
                assert(frame::rei_commands(rei, count)[k] == mesh[k - before.len()]);
            }
        }
    }
}

/// The textures that the interface no longer needs are freed: all of them and no others, in
/// order.
#[verifier::spinoff_prover]
pub proof fn lemma_textures_are_freed_one_by_one(light: Model, rei: Model, gui: GuiOutput)
    ensures
        frame::loaded_commands(light, rei, gui).filter(
            |command: FrameCommand| command is FreeTexture,
        ) == gui.freed@.map_values(|id: egui::TextureId| FrameCommand::FreeTexture(id)),
{
    let frees = |command: FrameCommand| command is FreeTexture;
    lemma_kinds_of_mesh_commands(rei, rei.meshes@.len());
    lemma_filter_parts(light, rei, gui, frees);
    lemma_filter_all(frame::free_commands(gui.freed@), frees);
    lemma_filter_none(frame::update_commands(gui.updated@), frees);
    lemma_filter_none(frame::opening_commands(), frees);
    lemma_filter_none(frame::light_commands(light), frees);
    lemma_filter_none(frame::rei_setup_commands(), frees);
    lemma_filter_none(frame::rei_commands(rei, rei.meshes@.len()), frees);
    lemma_filter_none(frame::collider_commands(gui.show_colliders), frees);
    lemma_filter_none(frame::closing_commands(), frees);
    assert(frame::loaded_commands(light, rei, gui).filter(frees) =~= frame::free_commands(
        gui.freed@,
    ));
}

/// The textures that the interface has updates for are updated: all of them and no others, in
/// order, each from its own update.
#[verifier::spinoff_prover]
pub proof fn lemma_textures_are_updated_one_by_one(light: Model, rei: Model, gui: GuiOutput)
    ensures
        frame::loaded_commands(light, rei, gui).filter(
            |command: FrameCommand| command is UpdateTexture,
        ) == Seq::new(
            gui.updated@.len(),
            |i: int| FrameCommand::UpdateTexture(i as usize, gui.updated@[i]),
        ),
{
    let updates = |command: FrameCommand| command is UpdateTexture;
    lemma_kinds_of_mesh_commands(rei, rei.meshes@.len());
    lemma_filter_parts(light, rei, gui, updates);
    lemma_filter_none(frame::free_commands(gui.freed@), updates);
    lemma_filter_all(frame::update_commands(gui.updated@), updates);
    lemma_filter_none(frame::opening_commands(), updates);
    lemma_filter_none(frame::light_commands(light), updates);
    lemma_filter_none(frame::rei_setup_commands(), updates);
    lemma_filter_none(frame::rei_commands(rei, rei.meshes@.len()), updates);
    lemma_filter_none(frame::collider_commands(gui.show_colliders), updates);
    lemma_filter_none(frame::closing_commands(), updates);
    assert(frame::loaded_commands(light, rei, gui).filter(updates) =~= frame::update_commands(
        gui.updated@,
    ));
}

/// The draws of meshes among the commands for the first `count` meshes.
#[verifier::spinoff_prover]
proof fn lemma_mesh_draws_are_counted(rei: Model, count: nat)
    ensures
        frame::rei_commands(rei, count).filter(
            |command: FrameCommand| command is DrawIndexed,
        ).len() == count,
    decreases count,
{
    let draws = |command: FrameCommand| command is DrawIndexed;
    if count == 0 {
        lemma_filter_none(frame::rei_commands(rei, count), draws);
    } else {
        let before = frame::rei_commands(rei, (count - 1) as nat);
        let mesh = frame::mesh_commands(rei, count - 1);
        lemma_mesh_draws_are_counted(rei, (count - 1) as nat);
        Seq::filter_distributes_over_add(before, mesh, draws);
        assert(mesh.filter(draws).len() == 1) by {
            reveal_with_fuel(Seq::filter, 5);
        }
    }
}

/// There are as many draws of meshes as there are meshes: one for the light and one for each
/// mesh of Rei's model.
#[verifier::spinoff_prover]
pub proof fn lemma_meshes_are_drawn_once_each(light: Model, rei: Model, gui: GuiOutput)
    ensures
        frame::loaded_commands(light, rei, gui).filter(
            |command: FrameCommand| command is DrawIndexed,
        ).len() == 1 + rei.meshes@.len(),
{
    let draws = |command: FrameCommand| command is DrawIndexed;
    lemma_filter_parts(light, rei, gui, draws);
    lemma_only_meshes_are_drawn_by_index(gui, draws);
    lemma_light_draws_are_counted(light);
    lemma_mesh_draws_are_counted(rei, rei.meshes@.len());
}

/// Nothing but the light and Rei's model is drawn from indices.
#[verifier::spinoff_prover]
proof fn lemma_only_meshes_are_drawn_by_index(
    gui: GuiOutput,
    draws: spec_fn(FrameCommand) -> bool,
)
    requires
        forall|command: FrameCommand| #[trigger] draws(command) <==> command is DrawIndexed,
    ensures
        frame::free_commands(gui.freed@).filter(draws).len() == 0,
        frame::update_commands(gui.updated@).filter(draws).len() == 0,
        frame::opening_commands().filter(draws).len() == 0,
        frame::rei_setup_commands().filter(draws).len() == 0,
        frame::collider_commands(gui.show_colliders).filter(draws).len() == 0,
        frame::closing_commands().filter(draws).len() == 0,
{
    lemma_filter_none(frame::free_commands(gui.freed@), draws);
    lemma_filter_none(frame::update_commands(gui.updated@), draws);
    lemma_filter_none(frame::opening_commands(), draws);
    lemma_filter_none(frame::rei_setup_commands(), draws);
    lemma_filter_none(frame::collider_commands(gui.show_colliders), draws);
    lemma_filter_none(frame::closing_commands(), draws);
}

/// The draws of meshes among the commands for the light.
#[verifier::spinoff_prover]
proof fn lemma_light_draws_are_counted(light: Model)
    ensures
        frame::light_commands(light).filter(
            |command: FrameCommand| command is DrawIndexed,
        ).len() == 1,
{
    reveal_with_fuel(Seq::filter, 7);
}

/// How far a frame has come once a command is given: textures are freed, then updated, then
/// the interface is uploaded, then the pass is begun, filled and ended, and then the frame is
/// submitted and presented.
pub open spec fn phase(command: FrameCommand) -> int {
    match command {
        FrameCommand::FreeTexture(_) => 0,
        FrameCommand::UpdateTexture(_, _) => 1,
        FrameCommand::UpdateGuiBuffers => 2,
        FrameCommand::BeginPass(_) => 3,
        FrameCommand::EndPass => 5,
        FrameCommand::Submit => 6,
        FrameCommand::Present => 7,
        _ => 4,
    }
}

/// A frame of the loaded scene goes through its phases in order. The interface is uploaded
/// once, there is one pass, and the frame is submitted and presented once. The pass starts
/// from the sky with the depth at its farthest, goes to the surface and keeps everything.
pub proof fn lemma_loaded_frame_goes_through_its_phases(light: Model, rei: Model, gui: GuiOutput)
    ensures
        ({
            let commands = frame::loaded_commands(light, rei, gui);
            let start = (gui.freed@.len() + gui.updated@.len()) as int;
            let end = commands.len() - 3;
            &&& forall|i: int, j: int|
                0 <= i <= j < commands.len() ==> phase(#[trigger] commands[i]) <= phase(
                    #[trigger] commands[j],
                )
            &&& forall|i: int|
                0 <= i < commands.len() ==> {
                    &&& phase(#[trigger] commands[i]) < 2 <==> i < start
                    &&& commands[i] is UpdateGuiBuffers <==> i == start
                    &&& commands[i] is BeginPass <==> i == start + 1
                    &&& commands[i] is EndPass <==> i == end
                    &&& commands[i] is Submit <==> i == end + 1
                    &&& commands[i] is Present <==> i == end + 2
                }
            &&& start + 1 < end
            &&& commands[start + 1] matches FrameCommand::BeginPass(pass) && ({
                &&& pass.colour is Sky
                &&& pass.resolved
                &&& pass.store_colour
                &&& pass.depth is Farthest
                &&& pass.store_depth
                &&& !pass.stencil
            })
        }),
{
    let all = frame::loaded_commands(light, rei, gui);
    let freed = gui.freed@.len() as int;
    let start = freed + gui.updated@.len();
    let meshes = frame::rei_commands(rei, rei.meshes@.len());
    let colliders = frame::collider_commands(gui.show_colliders);
    let end = all.len() - 3;
    lemma_kinds_of_mesh_commands(rei, rei.meshes@.len());
    assert(all.len() == start + 10 + meshes.len() + colliders.len() + 4);
    assert forall|i: int| 0 <= i < all.len() implies phase(#[trigger] all[i]) == (if i < freed {
        0int
    } else if i < start {
        1int
    } else if i == start {
        2int
    } else if i == start + 1 {
        3int
    } else if i < end {
        4int
    } else if i == end {
        5int
    } else if i == end + 1 {
        6int
    } else {
        7int
    }) by {
        if i < freed {
            assert(all[i] == frame::free_commands(gui.freed@)[i]);
        } else if i < start {
            assert(all[i] == frame::update_commands(gui.updated@)[i - freed]);
        } else if i < start + 2 {
            assert(all[i] == frame::opening_commands()[i - start]);
        } else if i < start + 8 {
            assert(all[i] == frame::light_commands(light)[i - start - 2]);
        } else if i < start + 10 {
            assert(all[i] == frame::rei_setup_commands()[i - start - 8]);
        } else if i < start + 10 + meshes.len() {
            assert(all[i] == meshes[i - start - 10]);
        } else if i < start + 10 + meshes.len() + colliders.len() {
            assert(all[i] == colliders[i - start - 10 - meshes.len()]);
        } else {
            assert(all[i] == frame::closing_commands()[i - (end - 1)]);
        }
    }
    assert(all[start + 1] == frame::opening_commands()[1]);
}

/// The frame that is shown while loading draws nothing: it is a pass that starts from blue
/// with the depth at its farthest, goes to the surface and keeps everything, and is then
/// submitted and presented.
pub proof fn lemma_loading_frame_is_plain_blue()
    ensures
        ({
            let commands = frame::loading_commands();
            &&& FrameState::fresh().draws(commands).len() == 0
            &&& commands.len() == 4
            &&& commands[0] matches FrameCommand::BeginPass(pass) && ({
                &&& pass.colour is Blue
                &&& pass.resolved
                &&& pass.store_colour
                &&& pass.depth is Farthest
                &&& pass.store_depth
                &&& !pass.stencil
            })
            &&& commands[1] is EndPass
            &&& commands[2] is Submit
            &&& commands[3] is Present
        }),
{
    reveal_with_fuel(FrameState::draws, 5);
}

/// The picture depends on the models and on whether colliders are shown, and on nothing else:
/// two frames with these in common draw the same things in the same order.
pub proof fn lemma_textures_do_not_change_the_picture(
    light: Model,
    rei: Model,
    gui: GuiOutput,
    other: GuiOutput,
    k: int,
)
    requires
        gui.show_colliders == other.show_colliders,
        0 <= k < FrameState::fresh().draws(frame::loaded_commands(light, rei, gui)).len(),
    ensures
        FrameState::fresh().draws(frame::loaded_commands(light, rei, gui)).len()
            == FrameState::fresh().draws(frame::loaded_commands(light, rei, other)).len(),
        FrameState::fresh().draws(frame::loaded_commands(light, rei, gui))[k].command
            == FrameState::fresh().draws(frame::loaded_commands(light, rei, other))[k].command,
{
    lemma_picture_of_the_loaded_scene(light, rei, gui);
    lemma_picture_of_the_loaded_scene(light, rei, other);
    let n = rei.meshes@.len() as int;
    let calls = FrameState::fresh().draws(frame::loaded_commands(light, rei, gui));
    let others = FrameState::fresh().draws(frame::loaded_commands(light, rei, other));
    if 1 <= k <= n {
        assert(draws_whole_mesh(
            calls[k],
            MeshRef::Rei((k - 1) as usize),
            rei.meshes@[k - 1].num_indices,
        ));
        assert(draws_whole_mesh(
            others[k],
            MeshRef::Rei((k - 1) as usize),
            rei.meshes@[k - 1].num_indices,
        ));
    } else if n < k < calls.len() - 1 {
        assert(k == n + 1 || k == n + 2 || k == n + 3 || k == n + 4);
    }
}

} // verus!
