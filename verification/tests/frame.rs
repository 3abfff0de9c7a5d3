use egui::TextureId;
use rei::app::{App, FrameStart, MusicAction, State, UpdateCommand};
use rei::frame::{
    encoder_label, pass_label, BindGroup, ClearColour, ClearDepth, Collider, FrameCommand,
    GuiOutput, IndexedDraw, MeshRef, PassSetup,
};
use rei::input::{ElementState, InputCommand, KeyCode, WindowEvent};
use rei::model::{Material, Mesh, Model};
use rei::pipeline::{IndexFormat, Pipeline};
use rei::surface::{PhysicalSize, SurfaceCapabilities, SurfaceConfig};
use wgpu::{CompositeAlphaMode, SurfaceError, TextureFormat};

type TestApp = App<u32, &'static str, u64>;

fn app() -> TestApp {
    let capabilities = SurfaceCapabilities {
        formats: vec![TextureFormat::Bgra8UnormSrgb],
        alpha_modes: vec![CompositeAlphaMode::Auto],
    };
    App::new(SurfaceConfig::new(PhysicalSize { width: 64, height: 48 }, &capabilities))
}

fn light() -> Model {
    Model { meshes: vec![Mesh { num_indices: 36, material: None }], materials: vec![] }
}

fn rei() -> Model {
    Model {
        meshes: vec![
            Mesh { num_indices: 300, material: Some(1) },
            Mesh { num_indices: 600, material: Some(0) },
        ],
        materials: vec![Material { has_diffuse: true }, Material { has_diffuse: true }],
    }
}

fn playing_app() -> TestApp {
    let mut app = app();
    app.state = State::Playing;
    app.light_model = Some(light());
    app.rei_model = Some(rei());
    app
}

fn gui(show_colliders: bool) -> GuiOutput {
    GuiOutput { show_colliders, freed: vec![], updated: vec![] }
}

fn pass(colour: ClearColour) -> PassSetup {
    PassSetup {
        colour,
        resolved: true,
        store_colour: true,
        depth: ClearDepth::Farthest,
        store_depth: true,
        stencil: false,
    }
}

fn whole(num_indices: u32) -> IndexedDraw {
    IndexedDraw {
        first_index: 0,
        end_index: num_indices,
        base_vertex: 0,
        first_instance: 0,
        end_instance: 1,
    }
}

#[test]
fn loading_frame_only_clears() {
    let expected = vec![
        FrameCommand::BeginPass(pass(ClearColour::Blue)),
        FrameCommand::EndPass,
        FrameCommand::Submit,
        FrameCommand::Present,
    ];
    assert_eq!(app().render_loading(Ok(())), Ok(expected));
    let expected = app().render_loading(Ok(())).unwrap();
    assert_eq!(app().render(Ok(())), Ok(FrameStart::Commands(expected)));
}

#[test]
fn no_texture_means_no_frame() {
    for error in
        [SurfaceError::Timeout, SurfaceError::Outdated, SurfaceError::Lost, SurfaceError::OutOfMemory]
    {
        assert_eq!(app().render(Err(error.clone())), Err(error.clone()));
        assert_eq!(playing_app().render(Err(error.clone())), Err(error.clone()));
        assert_eq!(app().render_loading(Err(error.clone())), Err(error.clone()));
        assert_eq!(playing_app().render_loaded(Err(error.clone())), Err(error));
    }
}

#[test]
fn loaded_frame_draws_light_then_rei_then_interface() {
    let mut app = playing_app();
    let gui = GuiOutput {
        show_colliders: false,
        freed: vec![TextureId::Managed(3)],
        updated: vec![TextureId::Managed(0), TextureId::User(7)],
    };
    let expected = vec![
        FrameCommand::FreeTexture(TextureId::Managed(3)),
        FrameCommand::UpdateTexture(0, TextureId::Managed(0)),
        FrameCommand::UpdateTexture(1, TextureId::User(7)),
        FrameCommand::UpdateGuiBuffers,
        FrameCommand::BeginPass(pass(ClearColour::Sky)),
        FrameCommand::SetPipeline(Pipeline::Light),
        FrameCommand::SetBindGroup(0, BindGroup::Camera),
        FrameCommand::SetBindGroup(1, BindGroup::Light),
        FrameCommand::SetVertexBuffer(0, MeshRef::Light),
        FrameCommand::SetIndexBuffer(MeshRef::Light, IndexFormat::Uint32),
        FrameCommand::DrawIndexed(whole(36)),
        FrameCommand::SetPipeline(Pipeline::Model),
        FrameCommand::SetBindGroup(2, BindGroup::Light),
        FrameCommand::SetBindGroup(1, BindGroup::Material(1)),
        FrameCommand::SetVertexBuffer(0, MeshRef::Rei(0)),
        FrameCommand::SetIndexBuffer(MeshRef::Rei(0), IndexFormat::Uint32),
        FrameCommand::DrawIndexed(whole(300)),
        FrameCommand::SetBindGroup(1, BindGroup::Material(0)),
        FrameCommand::SetVertexBuffer(0, MeshRef::Rei(1)),
        FrameCommand::SetIndexBuffer(MeshRef::Rei(1), IndexFormat::Uint32),
        FrameCommand::DrawIndexed(whole(600)),
        FrameCommand::DrawGui,
        FrameCommand::EndPass,
        FrameCommand::Submit,
        FrameCommand::Present,
    ];
    assert!(app.can_draw());
    assert_eq!(app.draw_loaded(&gui), expected);
}

#[test]
fn colliders_are_drawn_if_shown() {
    let mut app = playing_app();
    let hidden = app.draw_loaded(&gui(false));
    assert!(!app.shows_colliders());
    let shown = app.draw_loaded(&gui(true));
    assert!(app.shows_colliders());
    let expected = [
        FrameCommand::SetPipeline(Pipeline::Outline),
        FrameCommand::DrawOutline(Collider::Body),
        FrameCommand::DrawOutline(Collider::Head),
        FrameCommand::SetPipeline(Pipeline::Collider),
        FrameCommand::DrawCollider(Collider::Body),
        FrameCommand::DrawCollider(Collider::Head),
    ];
    let end = hidden.len() - 4;
    assert_eq!(shown[..end], hidden[..end]);
    assert_eq!(shown[end..end + 6], expected);
    assert_eq!(shown[end + 6..], hidden[end..]);
}

#[test]
fn every_mesh_is_drawn_after_the_setup() {
    let mut app = playing_app();
    let commands = app.draw_loaded(&gui(false));
    for (i, mesh) in rei().meshes.iter().enumerate() {
        let expected = [
            FrameCommand::SetBindGroup(1, BindGroup::Material(mesh.material.unwrap())),
            FrameCommand::SetVertexBuffer(0, MeshRef::Rei(i)),
            FrameCommand::SetIndexBuffer(MeshRef::Rei(i), IndexFormat::Uint32),
            FrameCommand::DrawIndexed(whole(mesh.num_indices)),
        ];
        assert_eq!(commands[10 + 4 * i..14 + 4 * i], expected);
    }
}

#[test]
fn camera_is_bound_once() {
    let mut app = playing_app();
    let commands = app.draw_loaded(&gui(true));
    let camera = FrameCommand::SetBindGroup(0, BindGroup::Camera);
    assert_eq!(commands.iter().filter(|command| **command == camera).count(), 1);
    let first_draw =
        commands.iter().position(|command| matches!(command, FrameCommand::DrawIndexed(_)));
    assert!(commands.iter().position(|command| *command == camera) < first_draw);
}

#[test]
fn model_without_meshes_draws_nothing() {
    let mut app = playing_app();
    app.rei_model = Some(Model { meshes: vec![], materials: vec![] });
    assert!(app.can_draw());
    let commands = app.draw_loaded(&gui(false));
    assert_eq!(
        commands.iter().filter(|command| matches!(command, FrameCommand::DrawIndexed(_))).count(),
        1
    );
}

#[test]
fn missing_parts_cannot_be_drawn() {
    assert!(!app().can_draw());
    let mut app = playing_app();
    app.light_model = None;
    assert!(!app.can_draw());
    app.light_model = Some(Model { meshes: vec![], materials: vec![] });
    assert!(!app.can_draw());
    app.light_model = Some(light());
    assert!(app.can_draw());
    app.rei_model = None;
    assert!(!app.can_draw());
    let mut model = rei();
    model.meshes[1].material = None;
    app.rei_model = Some(model);
    assert!(!app.can_draw());
    let mut model = rei();
    model.meshes[0].material = Some(2);
    app.rei_model = Some(model);
    assert!(!app.can_draw());
    let mut model = rei();
    model.materials[1].has_diffuse = false;
    app.rei_model = Some(model);
    assert!(!app.can_draw());
}

#[test]
fn only_pressing_h_is_used() {
    let app = app();
    let key = |state, virtual_keycode| WindowEvent::KeyboardInput { state, virtual_keycode };
    assert!(app.process_input(&key(ElementState::Pressed, Some(KeyCode::H))));
    assert!(!app.process_input(&key(ElementState::Released, Some(KeyCode::H))));
    assert!(!app.process_input(&key(ElementState::Pressed, Some(KeyCode::Other))));
    assert!(!app.process_input(&key(ElementState::Pressed, None)));
    assert!(!app.process_input(&WindowEvent::Other));
}

#[test]
fn keyboard_sees_every_event() {
    let app = app();
    let key = |state, virtual_keycode| WindowEvent::KeyboardInput { state, virtual_keycode };
    assert_eq!(
        app.input_commands(&key(ElementState::Pressed, Some(KeyCode::H))),
        vec![InputCommand::WatchKeyboard, InputCommand::Greet]
    );
    for event in [
        key(ElementState::Released, Some(KeyCode::H)),
        key(ElementState::Pressed, Some(KeyCode::Other)),
        key(ElementState::Released, None),
        WindowEvent::Other,
    ] {
        assert_eq!(app.input_commands(&event), vec![InputCommand::WatchKeyboard]);
    }
}

#[test]
fn frames_and_passes_are_labelled() {
    assert_eq!(encoder_label(), "Render Encoder");
    assert_eq!(pass_label(), "Render pass");
}

#[test]
fn update_moves_the_light_before_writing_it() {
    assert_eq!(
        app().update(),
        vec![
            UpdateCommand::MoveLight,
            UpdateCommand::WriteLightBuffer(0),
            UpdateCommand::MoveCamera,
            UpdateCommand::UpdateBodyCapsule,
            UpdateCommand::UpdateHeadRoundCylinder,
        ]
    );
}

#[test]
fn sound_device_is_opened_once() {
    let mut app = app();
    app.song = Some("song");
    assert_eq!(app.play_music(), MusicAction::OpenAudio);
    app.audio_opened(None);
    assert_eq!(app.play_music(), MusicAction::OpenAudio);
    app.audio_opened(Some(1));
    assert_eq!(app.play_music(), MusicAction::Play);
    let (device, song) = app.playback();
    assert_eq!((*device, *song), (1, "song"));
    *device = 2;
    app.playback_started(Some(42));
    assert_eq!(*app.playback().0, 2);
    assert_eq!(app.play_music(), MusicAction::Play);
    assert_eq!(app.song_handle_mut(), Some(&mut 42));
    app.playback_started(None);
    assert_eq!(app.song_handle_mut(), None);
    assert_eq!(app.play_music(), MusicAction::Play);
}

#[test]
fn playing_takes_a_sound_device_and_a_song() {
    let mut app = app();
    assert!(!app.can_play());
    app.song = Some("song");
    assert!(!app.can_play());
    app.audio_opened(None);
    assert!(!app.can_play());
    app.audio_opened(Some(1));
    assert!(app.can_play());
    app.song = None;
    assert!(!app.can_play());
}

#[test]
fn song_handle_is_the_latest() {
    let mut app = app();
    app.playback_started(Some(1));
    app.resize(PhysicalSize { width: 2, height: 2 });
    app.playback_started(None);
    assert_eq!(app.song_handle_mut(), None);
    app.playback_started(Some(5));
    app.audio_opened(None);
    app.ui(true);
    assert_eq!(app.song_handle_mut(), Some(&mut 5));
}

#[test]
fn song_handle_can_be_changed_in_place() {
    let mut app = app();
    assert_eq!(app.song_handle_mut(), None);
    app.playback_started(Some(1));
    *app.song_handle_mut().unwrap() = 9;
    assert_eq!(app.song_handle_mut(), Some(&mut 9));
}
