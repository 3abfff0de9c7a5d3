//! The application: its state, and what it decides to do.
//!
//! The application does not touch the graphics device, the sound device or the window.
//! It says what is to be done to them, and is told what came of it.
use vstd::prelude::*;

use crate::frame::{loaded_frame, loading_frame, FrameCommand, GuiOutput};
use crate::input::{ElementState, InputCommand, KeyCode, WindowEvent};
use crate::model::Model;
use crate::pipeline::{Pipeline, RenderPipeline};
use crate::surface::{
    Attachments, PhysicalSize, SurfaceCommand, SurfaceConfig, SurfaceState, SurfaceView,
};

verus! {

/// Why there is no surface texture to draw to, carried through unread.
#[verifier::external_type_specification]
#[verifier::external_body]
pub struct ExSurfaceError(wgpu::SurfaceError);

/// Whether the scene is loaded yet.
#[derive(Clone, Copy, Debug, PartialEq, Eq, Structural)]
pub enum State {
    Loading,
    Playing,
}

/// How a frame goes on once there is a surface texture to draw to.
#[derive(Debug, PartialEq)]
pub enum FrameStart {
    /// These commands are the whole frame.
    Commands(Vec<FrameCommand>),
    /// The interface runs first, for a screen of this size. What it leaves behind goes to
    /// [`App::draw_loaded`].
    RunGui(PhysicalSize),
}

/// One step of an update between two frames.
#[derive(Clone, Copy, Debug, PartialEq, Eq, Structural)]
pub enum UpdateCommand {
    /// Let the light move on.
    MoveLight,
    /// Write the light to its buffer, from this offset.
    WriteLightBuffer(u64),
    /// Let the camera follow the keyboard.
    MoveCamera,
    /// Rebuild the capsule of the body's collider.
    UpdateBodyCapsule,
    /// Rebuild the round cylinder of the head's collider.
    UpdateHeadRoundCylinder,
}

/// What starting the music takes next.
#[derive(Clone, Copy, Debug, PartialEq, Eq, Structural)]
pub enum MusicAction {
    /// Open the sound device, and hand the outcome to [`App::audio_opened`].
    OpenAudio,
    /// Play the song that [`App::playback`] gives, and hand the outcome to
    /// [`App::playback_started`].
    Play,
}

/// What the application keeps to itself while it runs: the open sound device, the handle
/// of the song that plays, and whether colliders are shown.
#[derive(Debug)]
pub struct Session<A, H> {
    audio_manager: Option<A>,
    song_handle: Option<H>,
    show_colliders: bool,
}

/// What a [`Session`] holds.
pub struct SessionView<A, H> {
    pub audio_manager: Option<A>,
    pub song_handle: Option<H>,
    pub show_colliders: bool,
}

impl<A, H> View for Session<A, H> {
    type V = SessionView<A, H>;

    closed spec fn view(&self) -> SessionView<A, H> {
        SessionView {
            audio_manager: self.audio_manager,
            song_handle: self.song_handle,
            show_colliders: self.show_colliders,
        }
    }
}

/// The application, with `A` for the open sound device, `S` for a song and `H` for the
/// handle of a song that plays.
#[derive(Debug)]
pub struct App<A, S, H> {
    pub surface: SurfaceState,
    pub state: State,
    pub rei_model: Option<Model>,
    pub light_model: Option<Model>,
    pub song: Option<S>,
    pub session: Session<A, H>,
}

/// What an [`App`] holds.
pub struct AppView<A, S, H> {
    pub surface: SurfaceView,
    pub state: State,
    pub rei_model: Option<Model>,
    pub light_model: Option<Model>,
    pub song: Option<S>,
    pub session: SessionView<A, H>,
}

impl<A, S, H> View for App<A, S, H> {
    type V = AppView<A, S, H>;

    open spec fn view(&self) -> AppView<A, S, H> {
        AppView {
            surface: self.surface@,
            state: self.state,
            rei_model: self.rei_model,
            light_model: self.light_model,
            song: self.song,
            session: self.session@,
        }
    }
}

impl<A, S, H> AppView<A, S, H> {
    /// The application at its start, on a surface configured as `config`: still loading,
    /// and with nothing there yet.
    pub open spec fn fresh(config: SurfaceConfig) -> AppView<A, S, H> {
        AppView {
            surface: SurfaceView::configured(config),
            state: State::Loading,
            rei_model: None,
            light_model: None,
            song: None,
            session: SessionView { audio_manager: None, song_handle: None, show_colliders: false },
        }
    }

    /// All that drawing the loaded scene needs is there: a mesh for the light, and for
    /// Rei a model whose meshes all have a texture.
    pub open spec fn drawable(self) -> bool {
        &&& self.light_model matches Some(light) && light.meshes@.len() > 0
        &&& self.rei_model matches Some(rei) && rei.textured()
    }

    /// A sound device is open, and there is a song to play on it.
    pub open spec fn playable(self) -> bool {
        self.session.audio_manager is Some && self.song is Some
    }

    /// The application after its window was resized.
    pub open spec fn resized(self, size: PhysicalSize) -> AppView<A, S, H> {
        AppView { surface: self.surface.resized(size), ..self }
    }

    /// The application with colliders shown or hidden.
    pub open spec fn with_colliders(self, show_colliders: bool) -> AppView<A, S, H> {
        AppView { session: SessionView { show_colliders, ..self.session }, ..self }
    }

    /// What starting the music takes: the sound device, unless it is open already.
    pub open spec fn music_action(self) -> MusicAction {
        if self.session.audio_manager is None {
            MusicAction::OpenAudio
        } else {
            MusicAction::Play
        }
    }

    /// The application with this outcome of opening the sound device.
    pub open spec fn with_audio(self, audio_manager: Option<A>) -> AppView<A, S, H> {
        AppView { session: SessionView { audio_manager, ..self.session }, ..self }
    }

    /// The application with this outcome of playing a song.
    pub open spec fn with_song_handle(self, song_handle: Option<H>) -> AppView<A, S, H> {
        AppView { session: SessionView { song_handle, ..self.session }, ..self }
    }
}

/// What happens between two frames.
pub open spec fn update_steps() -> Seq<UpdateCommand> {
    seq![
        UpdateCommand::MoveLight,
        UpdateCommand::WriteLightBuffer(0),
        UpdateCommand::MoveCamera,
        UpdateCommand::UpdateBodyCapsule,
        UpdateCommand::UpdateHeadRoundCylinder,
    ]
}

impl<A, S, H> App<A, S, H> {
    /// An application that is still loading, on a surface configured as `config`.
    pub fn new(config: SurfaceConfig) -> (app: Self)
        ensures
            app@ == AppView::<A, S, H>::fresh(config),
            app@.surface.config == config,
            app@.state is Loading,
            app@.rei_model is None,
            app@.light_model is None,
            app@.song is None,
            app@.session.audio_manager is None,
            app@.session.song_handle is None,
            !app@.session.show_colliders,
    {
        App {
            surface: SurfaceState::new(config),
            state: State::Loading,
            rei_model: None,
            light_model: None,
            song: None,
            session: Session { audio_manager: None, song_handle: None, show_colliders: false },
        }
    }

    /// Begins a frame, given what came of asking for a surface texture. Without one there
    /// is no frame.
    pub fn render(&self, target: Result<(), wgpu::SurfaceError>) -> (start: Result<
        FrameStart,
        wgpu::SurfaceError,
    >)
        ensures
            start is Ok <==> target is Ok,
            target matches Err(error) ==> start == Err::<FrameStart, wgpu::SurfaceError>(error),
            target is Ok && self.state == State::Loading ==> (start matches Ok(
                FrameStart::Commands(commands),
            ) && commands@ == crate::frame::loading_commands()),
            target is Ok && self.state == State::Playing ==> start == Ok::<
                FrameStart,
                wgpu::SurfaceError,
            >(FrameStart::RunGui(self@.surface.config.extent())),
            target is Ok && self.state == State::Playing ==> (start matches Ok(
                FrameStart::RunGui(screen),
            ) && screen.width == self@.surface.config.width && screen.height
                == self@.surface.config.height),
    {
        match self.state {
            State::Loading => match self.render_loading(target) {
                Ok(commands) => Ok(FrameStart::Commands(commands)),
                Err(error) => Err(error),
            },
            State::Playing => match self.render_loaded(target) {
                Ok(screen) => Ok(FrameStart::RunGui(screen)),
                Err(error) => Err(error),
            },
        }
    }

    /// The frame that is shown while loading.
    pub fn render_loading(&self, target: Result<(), wgpu::SurfaceError>) -> (frame: Result<
        Vec<FrameCommand>,
        wgpu::SurfaceError,
    >)
        ensures
            frame is Ok <==> target is Ok,
            target matches Err(error) ==> frame == Err::<Vec<FrameCommand>, wgpu::SurfaceError>(
                error,
            ),
            frame matches Ok(commands) ==> commands@ == crate::frame::loading_commands(),
    {
        match target {
            Ok(_) => Ok(loading_frame()),
            Err(error) => Err(error),
        }
    }

    /// Begins the frame of the loaded scene: the size of the screen that the interface is
    /// laid out for. The frame goes on with [`App::draw_loaded`].
    pub fn render_loaded(&self, target: Result<(), wgpu::SurfaceError>) -> (screen: Result<
        PhysicalSize,
        wgpu::SurfaceError,
    >)
        ensures
            screen == (match target {
                Ok(_) => Ok::<PhysicalSize, wgpu::SurfaceError>(self@.surface.config.extent()),
                Err(error) => Err(error),
            }),
            screen matches Ok(screen) ==> screen.width == self@.surface.config.width
                && screen.height == self@.surface.config.height,
    {
        match target {
            Ok(_) => {
                let config = self.surface.config();
                Ok(PhysicalSize { width: config.width, height: config.height })
            },
            Err(error) => Err(error),
        }
    }

    /// Whether all that drawing the loaded scene needs is there.
    pub fn can_draw(&self) -> (drawable: bool)
        ensures
            drawable == self@.drawable(),
            drawable <==> ({
                &&& self.light_model is Some
                &&& self.light_model->0.meshes@.len() > 0
                &&& self.rei_model is Some
                &&& forall|i: int|
                    0 <= i < self.rei_model->0.meshes@.len() ==> {
                        let mesh = #[trigger] self.rei_model->0.meshes@[i];
                        &&& mesh.material is Some
                        &&& mesh.material->0 < self.rei_model->0.materials@.len()
                        &&& self.rei_model->0.materials@[mesh.material->0 as int].has_diffuse
                    }
            }),
    {
        let light = match &self.light_model {
            Some(light) => light.meshes.len() > 0,
            None => false,
        };
        let rei = match &self.rei_model {
            Some(rei) => rei.is_textured(),
            None => false,
        };
        light && rei
    }

    /// Takes what the interface left behind, and gives the rest of the frame of the loaded
    /// scene. What the interface says of the colliders holds for this frame already.
    pub fn draw_loaded(&mut self, gui: &GuiOutput) -> (commands: Vec<FrameCommand>)
        requires
            old(self)@.drawable(),
        ensures
            final(self)@ == old(self)@.with_colliders(gui.show_colliders),
            final(self)@.session.show_colliders == gui.show_colliders,
            final(self)@.session.audio_manager == old(self)@.session.audio_manager,
            final(self)@.session.song_handle == old(self)@.session.song_handle,
            final(self)@ == (AppView { session: final(self)@.session, ..old(self)@ }),
            commands@ == crate::frame::loaded_commands(
                old(self)@.light_model->0,
                old(self)@.rei_model->0,
                *gui,
            ),
    {
        self.ui(gui.show_colliders);
        let light = self.light_model.as_ref().unwrap();
        let rei = self.rei_model.as_ref().unwrap();
        loaded_frame(light, rei, gui)
    }

    /// Takes what the interface has of its own from the user: whether to show colliders.
    pub fn ui(&mut self, show_colliders: bool)
        ensures
            final(self)@ == old(self)@.with_colliders(show_colliders),
            final(self)@.session.show_colliders == show_colliders,
            final(self)@.session.audio_manager == old(self)@.session.audio_manager,
            final(self)@.session.song_handle == old(self)@.session.song_handle,
            final(self)@ == (AppView { session: final(self)@.session, ..old(self)@ }),
    {
        self.session.show_colliders = show_colliders;
    }

    /// Whether colliders are shown.
    pub fn shows_colliders(&self) -> (show: bool)
        ensures
            show == self@.session.show_colliders,
    {
        self.session.show_colliders
    }

    /// Whether the application has a use for the event: it has one for the key H going
    /// down, and for nothing else.
    pub fn process_input(&self, event: &WindowEvent) -> (used: bool)
        ensures
            used == event.greets(),
            used <==> (event matches WindowEvent::KeyboardInput { state, virtual_keycode }
                && state is Pressed && virtual_keycode is Some && virtual_keycode->0 is H),
    {
        match event {
            WindowEvent::KeyboardInput {
                state: ElementState::Pressed,
                virtual_keycode: Some(KeyCode::H),
            } => true,
            _ => false,
        }
    }

    /// What taking the event in means. Beside what [`App::process_input`] has a use for,
    /// the keyboard is kept track of.
    pub fn input_commands(&self, event: &WindowEvent) -> (commands: Vec<InputCommand>)
        ensures
            commands@ == event.commands(),
            commands@.len() == 1 || commands@.len() == 2,
            commands@[0] is WatchKeyboard,
            commands@.len() == 2 ==> commands@[1] is Greet,
            commands@.len() == 2 <==> (event matches WindowEvent::KeyboardInput {
                state,
                virtual_keycode,
            } && state is Pressed && virtual_keycode is Some && virtual_keycode->0 is H),
    {
        let mut commands: Vec<InputCommand> = vec![InputCommand::WatchKeyboard];
        if self.process_input(event) {
            commands.push(InputCommand::Greet);
        }
        commands
    }

    /// What happens between two frames. The light has moved by the time it is written.
    pub fn update(&self) -> (commands: Vec<UpdateCommand>)
        ensures
            commands@ == seq![
                UpdateCommand::MoveLight,
                UpdateCommand::WriteLightBuffer(0),
                UpdateCommand::MoveCamera,
                UpdateCommand::UpdateBodyCapsule,
                UpdateCommand::UpdateHeadRoundCylinder,
            ],
            commands@ == update_steps(),
    {
        vec![
            UpdateCommand::MoveLight,
            UpdateCommand::WriteLightBuffer(0),
            UpdateCommand::MoveCamera,
            UpdateCommand::UpdateBodyCapsule,
            UpdateCommand::UpdateHeadRoundCylinder,
        ]
    }

    /// Takes a new size of the window, and gives what it takes to follow it: the surface
    /// is configured anew and its attachments are replaced. A window without area is left
    /// alone.
    pub fn resize(&mut self, size: PhysicalSize) -> (commands: Vec<SurfaceCommand>)
        ensures
            final(self)@ == old(self)@.resized(size),
            final(self)@.surface.wf(),
            commands@ == crate::surface::resize_commands(old(self)@.surface.config, size),
            Attachments::of(old(self)@.surface).after_all(commands@) == Attachments::of(
                final(self)@.surface,
            ),
            size.width > 0 && size.height > 0 ==> {
                &&& final(self)@.surface.size == size
                &&& commands@ == seq![
                    SurfaceCommand::Configure(final(self)@.surface.config),
                    SurfaceCommand::CreateDepthTexture(final(self)@.surface.depth_texture),
                    SurfaceCommand::CreateMsaaTexture(final(self)@.surface.msaa_texture),
                    SurfaceCommand::CreateMsaaView,
                ]
            },
            size.width == 0 || size.height == 0 ==> final(self)@ == old(self)@ && commands@.len()
                == 0,
    {
        self.surface.resize(size)
    }

    /// The size of the window, as far as it is known to have area.
    pub fn size(&self) -> (size: &PhysicalSize)
        ensures
            *size == self@.surface.size,
            self@.surface.wf(),
    {
        self.surface.size()
    }

    /// Begins to play the song: the sound device is opened unless it is open already.
    pub fn play_music(&self) -> (action: MusicAction)
        ensures
            action == self@.music_action(),
            action is OpenAudio <==> self@.session.audio_manager is None,
    {
        if self.session.audio_manager.is_none() {
            MusicAction::OpenAudio
        } else {
            MusicAction::Play
        }
    }

    /// Takes what came of opening the sound device.
    pub fn audio_opened(&mut self, audio_manager: Option<A>)
        ensures
            final(self)@ == old(self)@.with_audio(audio_manager),
            final(self)@.session.audio_manager == audio_manager,
            final(self)@.session.song_handle == old(self)@.session.song_handle,
            final(self)@.session.show_colliders == old(self)@.session.show_colliders,
            final(self)@ == (AppView { session: final(self)@.session, ..old(self)@ }),
    {
        self.session.audio_manager = audio_manager;
    }

    /// Whether there are a sound device and a song to play on it.
    pub fn can_play(&self) -> (playable: bool)
        ensures
            playable == self@.playable(),
            playable <==> self@.session.audio_manager is Some && self@.song is Some,
    {
        self.session.audio_manager.is_some() && self.song.is_some()
    }

    /// The sound device, and the song to play on it.
    pub fn playback(&mut self) -> (parts: (&mut A, &S))
        requires
            old(self)@.playable(),
        ensures
            *parts.0 == old(self)@.session.audio_manager->0,
            *parts.1 == old(self)@.song->0,
            final(self)@ == old(self)@.with_audio(Some(*final(parts.0))),
    {
        (self.session.audio_manager.as_mut().unwrap(), self.song.as_ref().unwrap())
    }

    /// Takes what came of playing the song: its handle, or nothing.
    pub fn playback_started(&mut self, song_handle: Option<H>)
        ensures
            final(self)@ == old(self)@.with_song_handle(song_handle),
            final(self)@.session.song_handle == song_handle,
            final(self)@.session.audio_manager == old(self)@.session.audio_manager,
            final(self)@.session.show_colliders == old(self)@.session.show_colliders,
            final(self)@ == (AppView { session: final(self)@.session, ..old(self)@ }),
    {
        self.session.song_handle = song_handle;
    }

    /// The handle of the song that plays.
    pub fn song_handle_mut(&mut self) -> (handle: Option<&mut H>)
        ensures
            handle is Some <==> old(self)@.session.song_handle is Some,
            handle matches Some(handle) ==> ({
                &&& *handle == old(self)@.session.song_handle->0
                &&& final(self)@ == old(self)@.with_song_handle(Some(*final(handle)))
            }),
            handle is None ==> final(self)@ == old(self)@,
    {
        self.session.song_handle.as_mut()
    }
}

/// Something that the application is told.
pub enum Change<A, H> {
    Resized(PhysicalSize),
    ShowColliders(bool),
    AudioOpened(Option<A>),
    PlaybackStarted(Option<H>),
}

impl<A, H> Change<A, H> {
    /// The window has a new size, with area.
    pub open spec fn gives_area(self) -> bool {
        self matches Change::Resized(size) && size.width > 0 && size.height > 0
    }
}

impl<A, S, H> AppView<A, S, H> {
    /// The application after one change.
    pub open spec fn after(self, change: Change<A, H>) -> AppView<A, S, H> {
        match change {
            Change::Resized(size) => self.resized(size),
            Change::ShowColliders(show_colliders) => self.with_colliders(show_colliders),
            Change::AudioOpened(audio_manager) => self.with_audio(audio_manager),
            Change::PlaybackStarted(song_handle) => self.with_song_handle(song_handle),
        }
    }

    /// The application after all of `changes`.
    pub open spec fn after_all(self, changes: Seq<Change<A, H>>) -> AppView<A, S, H>
        decreases changes.len(),
    {
        if changes.len() == 0 {
            self
        } else {
            self.after_all(changes.drop_last()).after(changes.last())
        }
    }
}

/// Whatever else happens, the surface is that of the last size with area, and keeps size and
/// attachments in step. `last` is the position of that size, or -1 if there is none.
pub proof fn lemma_surface_has_the_last_size<A, S, H>(
    app: AppView<A, S, H>,
    changes: Seq<Change<A, H>>,
    last: int,
)
    requires
        app.surface.wf(),
        -1 <= last < changes.len(),
        last >= 0 ==> changes[last].gives_area(),
        forall|i: int| last < i < changes.len() ==> !(#[trigger] changes[i]).gives_area(),
    ensures
        app.after_all(changes).surface == (if last >= 0 {
            app.surface.resized(changes[last]->Resized_0)
        } else {
            app.surface
        }),
        app.after_all(changes).surface.wf(),
    decreases changes.len(),
{
    if changes.len() > 0 {
        let before = changes.drop_last();
        if last == before.len() {
            lemma_surface_changes_in_size_only(app, before);
        } else {
            lemma_surface_has_the_last_size(app, before, last);
        }
    }
}

/// Whatever happens, the surface stays consistent and changes in nothing but its size.
proof fn lemma_surface_changes_in_size_only<A, S, H>(
    app: AppView<A, S, H>,
    changes: Seq<Change<A, H>>,
)
    requires
        app.surface.wf(),
    ensures
        app.after_all(changes).surface.wf(),
        app.after_all(changes).surface.config == app.surface.config.with_size(
            app.after_all(changes).surface.size,
        ),
    decreases changes.len(),
{
    if changes.len() > 0 {
        lemma_surface_changes_in_size_only(app, changes.drop_last());
    }
}

/// Whatever else happens, the handle of the song is what came of the latest attempt to play
/// one. `last` is the position of that attempt, or -1 if there is none.
pub proof fn lemma_song_handle_is_the_latest<A, S, H>(
    app: AppView<A, S, H>,
    changes: Seq<Change<A, H>>,
    last: int,
)
    requires
        -1 <= last < changes.len(),
        last >= 0 ==> changes[last] is PlaybackStarted,
        forall|i: int| last < i < changes.len() ==> !(#[trigger] changes[i] is PlaybackStarted),
    ensures
        app.after_all(changes).session.song_handle == (if last >= 0 {
            changes[last]->PlaybackStarted_0
        } else {
            app.session.song_handle
        }),
    decreases changes.len(),
{
    if changes.len() > 0 && last < changes.len() - 1 {
        lemma_song_handle_is_the_latest(app, changes.drop_last(), last);
    }
}

/// Everything that moves is moved once between two frames, and the light has moved by the time
/// it is written, from the start of its buffer. The camera follows, and then the colliders.
pub proof fn lemma_update_moves_everything_once()
    ensures
        ({
            let steps = update_steps();
            &&& steps.len() == 5
            &&& forall|i: int|
                0 <= i < steps.len() ==> {
                    &&& #[trigger] steps[i] is MoveLight <==> i == 0
                    &&& steps[i] is WriteLightBuffer <==> i == 1
                    &&& steps[i] is MoveCamera <==> i == 2
                    &&& steps[i] is UpdateBodyCapsule <==> i == 3
                    &&& steps[i] is UpdateHeadRoundCylinder <==> i == 4
                    &&& steps[i] matches UpdateCommand::WriteLightBuffer(offset) ==> offset == 0
                }
        }),
{
}

/// An application starts out loading, with nothing there but its surface, whatever the
/// surface is like.
pub proof fn lemma_application_starts_empty<A, S, H>(config: SurfaceConfig)
    ensures
        ({
            let app = AppView::<A, S, H>::fresh(config);
            &&& app.surface.wf()
            &&& app.surface.config == config
            &&& app.surface.size.width == config.width
            &&& app.surface.size.height == config.height
            &&& app.state is Loading
            &&& app.rei_model is None
            &&& app.light_model is None
            &&& app.song is None
            &&& app.session.audio_manager is None
            &&& app.session.song_handle is None
            &&& !app.session.show_colliders
            &&& !app.drawable()
            &&& !app.playable()
            &&& app.music_action() is OpenAudio
        }),
{
    crate::surface::lemma_configuration_settles_the_surface(
        config,
        SurfaceView::configured(config),
    );
}

/// Each thing that the application is told is taken as it is told, and touches nothing else.
pub proof fn lemma_changes_touch_one_thing_each<A, S, H>(
    app: AppView<A, S, H>,
    size: PhysicalSize,
    show_colliders: bool,
    audio_manager: Option<A>,
    song_handle: Option<H>,
)
    ensures
        app.with_colliders(show_colliders).session == (SessionView {
            audio_manager: app.session.audio_manager,
            song_handle: app.session.song_handle,
            show_colliders,
        }),
        app.with_audio(audio_manager).session == (SessionView {
            audio_manager,
            song_handle: app.session.song_handle,
            show_colliders: app.session.show_colliders,
        }),
        app.with_song_handle(song_handle).session == (SessionView {
            audio_manager: app.session.audio_manager,
            song_handle,
            show_colliders: app.session.show_colliders,
        }),
        app.resized(size).session == app.session,
        forall|other: AppView<A, S, H>|
            #![trigger other.state]
            (other == app.with_colliders(show_colliders) || other == app.with_audio(audio_manager)
                || other == app.with_song_handle(song_handle)) ==> {
                &&& other.surface == app.surface
                &&& other.state == app.state
                &&& other.rei_model == app.rei_model
                &&& other.light_model == app.light_model
                &&& other.song == app.song
            },
        app.resized(size).state == app.state,
        app.resized(size).rei_model == app.rei_model,
        app.resized(size).light_model == app.light_model,
        app.resized(size).song == app.song,
        app.surface.wf() && size.width > 0 && size.height > 0 ==> app.resized(size).surface.size
            == size,
        size.width == 0 || size.height == 0 ==> app.resized(size) == app,
{
}

/// The scene can be drawn exactly if the light has a mesh, and Rei's model is there with a
/// texture for every mesh. Nothing that the application is told while it runs changes that.
pub proof fn lemma_scene_needs_light_and_textures<A, S, H>(
    app: AppView<A, S, H>,
    changes: Seq<Change<A, H>>,
)
    ensures
        app.drawable() <==> ({
            &&& app.light_model is Some
            &&& app.light_model->0.meshes@.len() > 0
            &&& app.rei_model is Some
            &&& forall|i: int|
                0 <= i < app.rei_model->0.meshes@.len() ==> {
                    let mesh = #[trigger] app.rei_model->0.meshes@[i];
                    &&& mesh.material is Some
                    &&& mesh.material->0 < app.rei_model->0.materials@.len()
                    &&& app.rei_model->0.materials@[mesh.material->0 as int].has_diffuse
                }
        }),
        app.after_all(changes).drawable() <==> app.drawable(),
        app.after_all(changes).state == app.state,
        app.after_all(changes).song == app.song,
        app.after_all(changes).light_model == app.light_model,
        app.after_all(changes).rei_model == app.rei_model,
    decreases changes.len(),
{
    if let Some(rei) = app.rei_model {
        if rei.textured() {
            assert forall|i: int| 0 <= i < rei.meshes@.len() implies ({
                let mesh = #[trigger] rei.meshes@[i];
                &&& mesh.material is Some
                &&& mesh.material->0 < rei.materials@.len()
                &&& rei.materials@[mesh.material->0 as int].has_diffuse
            }) by {
                assert(rei.mesh_textured(i));
            }
        }
    }
    if changes.len() > 0 {
        lemma_scene_needs_light_and_textures(app, changes.drop_last());
    }
}

/// The sound device is opened exactly if none is open; the music can play exactly if one is
/// and there is a song. A device that was opened stays until another outcome replaces it.
pub proof fn lemma_music_needs_a_device_and_a_song<A, S, H>(
    app: AppView<A, S, H>,
    audio_manager: Option<A>,
)
    ensures
        app.music_action() is OpenAudio <==> app.session.audio_manager is None,
        app.music_action() is Play <==> app.session.audio_manager is Some,
        app.playable() <==> app.session.audio_manager is Some && app.song is Some,
        app.with_audio(audio_manager).playable() <==> audio_manager is Some && app.song is Some,
{
}

/// Colliders are shown exactly if the latest word on them was to show them. `last` is the
/// position of that word, or -1 if there is none.
pub proof fn lemma_colliders_follow_the_latest_word<A, S, H>(
    app: AppView<A, S, H>,
    changes: Seq<Change<A, H>>,
    last: int,
)
    requires
        -1 <= last < changes.len(),
        last >= 0 ==> changes[last] is ShowColliders,
        forall|i: int| last < i < changes.len() ==> !(#[trigger] changes[i] is ShowColliders),
    ensures
        app.after_all(changes).session.show_colliders == (if last >= 0 {
            changes[last]->ShowColliders_0
        } else {
            app.session.show_colliders
        }),
    decreases changes.len(),
{
    if changes.len() > 0 && last < changes.len() - 1 {
        lemma_colliders_follow_the_latest_word(app, changes.drop_last(), last);
    }
}

/// Of two sizes in a row only the last counts, if it has area.
pub proof fn lemma_last_resize_wins<A, S, H>(
    app: AppView<A, S, H>,
    first: PhysicalSize,
    last: PhysicalSize,
)
    requires
        last.width > 0,
        last.height > 0,
    ensures
        app.resized(first).resized(last) == app.resized(last),
{
}

/// The size and the attachments stay those of the surface's configuration, whatever the
/// application is told; and only a change of size changes them.
pub proof fn lemma_attachments_follow_the_surface<A, S, H>(
    app: AppView<A, S, H>,
    size: PhysicalSize,
    show_colliders: bool,
    audio_manager: Option<A>,
    song_handle: Option<H>,
)
    requires
        app.surface.wf(),
    ensures
        app.resized(size).surface.wf(),
        app.with_colliders(show_colliders).surface.wf(),
        app.with_audio(audio_manager).surface.wf(),
        app.with_song_handle(song_handle).surface.wf(),
        app.with_colliders(show_colliders).surface == app.surface,
        app.with_audio(audio_manager).surface == app.surface,
        app.with_song_handle(song_handle).surface == app.surface,
        app.resized(size).surface.config.format == app.surface.config.format,
{
}

/// A pipeline described for the surface's format can draw over the application's
/// attachments, now and after every change of size.
pub proof fn lemma_pipelines_fit_at_any_size<A, S, H>(
    app: AppView<A, S, H>,
    size: PhysicalSize,
    pipeline: Pipeline,
    description: RenderPipeline,
    depth_format: wgpu::TextureFormat,
)
    requires
        app.surface.wf(),
        description.describes(pipeline, app.surface.config.format, depth_format),
    ensures
        description.fits(app.surface.msaa_texture, depth_format),
        description.fits(app.resized(size).surface.msaa_texture, depth_format),
        description.describes(pipeline, app.resized(size).surface.config.format, depth_format),
{
}

/// The sound device is opened once: after that, songs are played on it whatever comes of
/// playing them. When songs are to be played, all it takes is a song.
pub proof fn lemma_sound_device_is_opened_once<A, S, H>(
    app: AppView<A, S, H>,
    device: A,
    song_handle: Option<H>,
)
    ensures
        app.with_audio(Some(device)).music_action() == MusicAction::Play,
        app.with_audio(Some(device)).with_song_handle(song_handle).music_action()
            == MusicAction::Play,
        app.with_audio(None).music_action() == MusicAction::OpenAudio,
        app.playable() <==> app.music_action() == MusicAction::Play && app.song is Some,
{
}

} // verus!
