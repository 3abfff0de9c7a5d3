//! The window surface and the textures that are drawn into and resolved onto it.
use vstd::prelude::*;

use crate::format::surface_format;

verus! {

/// How many samples each pixel of a multisampled attachment has.
pub const SAMPLE_COUNT: u32 = 4;

/// A way of blending the surface into the desktop, carried through unread.
#[verifier::external_type_specification]
#[verifier::external_body]
pub struct ExCompositeAlphaMode(wgpu::CompositeAlphaMode);

/// A size in physical pixels.
#[derive(Clone, Copy, Debug, PartialEq, Eq, Structural)]
pub struct PhysicalSize {
    pub width: u32,
    pub height: u32,
}

/// What a surface can be configured with, in the adapter's order of preference.
#[derive(Debug, PartialEq)]
pub struct SurfaceCapabilities {
    pub formats: Vec<wgpu::TextureFormat>,
    pub alpha_modes: Vec<wgpu::CompositeAlphaMode>,
}

/// When a finished image goes to the screen.
#[derive(Clone, Copy, Debug, PartialEq, Eq, Structural)]
pub enum PresentMode {
    AutoVsync,
    AutoNoVsync,
    Fifo,
    FifoRelaxed,
    Immediate,
    Mailbox,
}

/// What a texture is used as.
#[derive(Clone, Copy, Debug, PartialEq, Eq, Structural)]
pub enum TextureUsage {
    CopySource,
    CopyDestination,
    TextureBinding,
    StorageBinding,
    RenderAttachment,
}

/// How many dimensions a texture has.
#[derive(Clone, Copy, Debug, PartialEq, Eq, Structural)]
pub enum TextureDimension {
    D1,
    D2,
    D3,
}

/// The configuration of the window surface.
#[derive(Clone, Copy, Debug, PartialEq)]
pub struct SurfaceConfig {
    pub usage: TextureUsage,
    pub format: wgpu::TextureFormat,
    pub width: u32,
    pub height: u32,
    pub present_mode: PresentMode,
    pub alpha_mode: wgpu::CompositeAlphaMode,
    /// A further format that views can have, if any.
    pub view_format: Option<wgpu::TextureFormat>,
}

/// The depth texture: its size follows the surface.
#[derive(Clone, Copy, Debug, PartialEq, Eq, Structural)]
pub struct DepthTexture {
    pub width: u32,
    pub height: u32,
}

/// A texture to create.
#[derive(Clone, Copy, Debug, PartialEq)]
pub struct TextureDescription {
    pub width: u32,
    pub height: u32,
    pub depth_or_array_layers: u32,
    pub sample_count: u32,
    pub dimension: TextureDimension,
    pub format: wgpu::TextureFormat,
    pub usage: TextureUsage,
    pub mip_level_count: u32,
    /// A further format that views can have, if any.
    pub view_format: Option<wgpu::TextureFormat>,
}

/// One step of bringing the surface and its attachments up to a new configuration.
#[derive(Clone, Copy, Debug, PartialEq)]
pub enum SurfaceCommand {
    Configure(SurfaceConfig),
    CreateDepthTexture(DepthTexture),
    CreateMsaaTexture(TextureDescription),
    CreateMsaaView,
}

impl SurfaceCapabilities {
    /// The surface offers at least one format and one alpha mode.
    pub open spec fn usable(&self) -> bool {
        &&& self.formats@.len() > 0
        &&& self.alpha_modes@.len() > 0
    }

    /// Whether the surface offers at least one format and one alpha mode.
    pub fn is_usable(&self) -> (usable: bool)
        ensures
            usable == self.usable(),
            usable <==> self.formats@.len() > 0 && self.alpha_modes@.len() > 0,
    {
        self.formats.len() > 0 && self.alpha_modes.len() > 0
    }
}

impl SurfaceConfig {
    /// This is what a window of `size` configures a surface of `capabilities` with.
    pub open spec fn suits(self, size: PhysicalSize, capabilities: SurfaceCapabilities) -> bool {
        &&& self.usage == TextureUsage::RenderAttachment
        &&& crate::format::is_surface_format(capabilities.formats@, self.format)
        &&& self.width == size.width
        &&& self.height == size.height
        &&& self.present_mode == PresentMode::Fifo
        &&& self.alpha_mode == capabilities.alpha_modes@[0]
        &&& self.view_format is None
    }

    /// This configuration at another size.
    pub open spec fn with_size(self, size: PhysicalSize) -> SurfaceConfig {
        SurfaceConfig { width: size.width, height: size.height, ..self }
    }

    /// The size of the configured surface.
    pub open spec fn extent(self) -> PhysicalSize {
        PhysicalSize { width: self.width, height: self.height }
    }

    /// The depth texture that goes with this configuration.
    pub open spec fn depth(self) -> DepthTexture {
        DepthTexture { width: self.width, height: self.height }
    }

    /// The multisampled texture that goes with this configuration.
    pub open spec fn msaa(self) -> TextureDescription {
        TextureDescription {
            width: self.width,
            height: self.height,
            depth_or_array_layers: 1,
            sample_count: SAMPLE_COUNT,
            dimension: TextureDimension::D2,
            format: self.format,
            usage: TextureUsage::RenderAttachment,
            mip_level_count: 1,
            view_format: None,
        }
    }

    /// What to configure a surface of `capabilities` with for a window of `size`: the
    /// first sRGB format (else the first format), the first alpha mode, and
    /// presentation in step with the display.
    pub fn new(size: PhysicalSize, capabilities: &SurfaceCapabilities) -> (config: SurfaceConfig)
        requires
            capabilities.usable(),
        ensures
            config.suits(size, *capabilities),
            config.width == size.width,
            config.height == size.height,
            config.usage is RenderAttachment,
            config.present_mode is Fifo,
            config.alpha_mode == capabilities.alpha_modes@[0],
            config.view_format is None,
            capabilities.formats@.contains(config.format),
    {
        let format = surface_format(capabilities.formats.as_slice());
        proof {
            crate::format::lemma_surface_format_is_srgb_if_offered(capabilities.formats@, format);
        }
        SurfaceConfig {
            usage: TextureUsage::RenderAttachment,
            format,
            width: size.width,
            height: size.height,
            present_mode: PresentMode::Fifo,
            alpha_mode: capabilities.alpha_modes[0],
            view_format: None,
        }
    }

    /// The depth texture that goes with this configuration.
    pub fn depth_texture(&self) -> (depth: DepthTexture)
        ensures
            depth == self.depth(),
            depth.width == self.width,
            depth.height == self.height,
    {
        DepthTexture { width: self.width, height: self.height }
    }

    /// The multisampled texture that goes with this configuration: one layer, one mip
    /// level, the surface's size and format, [`SAMPLE_COUNT`] samples to a pixel.
    pub fn msaa_texture(&self) -> (msaa: TextureDescription)
        ensures
            msaa == self.msaa(),
            msaa.width == self.width,
            msaa.height == self.height,
            msaa.format == self.format,
            msaa.sample_count == SAMPLE_COUNT,
            msaa.depth_or_array_layers == 1,
            msaa.mip_level_count == 1,
            msaa.dimension is D2,
            msaa.usage is RenderAttachment,
            msaa.view_format is None,
    {
        TextureDescription {
            width: self.width,
            height: self.height,
            depth_or_array_layers: 1,
            sample_count: SAMPLE_COUNT,
            dimension: TextureDimension::D2,
            format: self.format,
            usage: TextureUsage::RenderAttachment,
            mip_level_count: 1,
            view_format: None,
        }
    }
}

/// The surface as it is now: its configuration, the size of its window, and the textures
/// that go with it.
#[derive(Debug, PartialEq)]
pub struct SurfaceState {
    config: SurfaceConfig,
    size: PhysicalSize,
    depth_texture: DepthTexture,
    msaa_texture: TextureDescription,
}

/// What a [`SurfaceState`] holds.
pub struct SurfaceView {
    pub config: SurfaceConfig,
    pub size: PhysicalSize,
    pub depth_texture: DepthTexture,
    pub msaa_texture: TextureDescription,
}

impl View for SurfaceState {
    type V = SurfaceView;

    closed spec fn view(&self) -> SurfaceView {
        SurfaceView {
            config: self.config,
            size: self.size,
            depth_texture: self.depth_texture,
            msaa_texture: self.msaa_texture,
        }
    }
}

impl SurfaceView {
    /// The surface configured as `config`, with what goes with it.
    pub open spec fn configured(config: SurfaceConfig) -> SurfaceView {
        SurfaceView {
            config,
            size: config.extent(),
            depth_texture: config.depth(),
            msaa_texture: config.msaa(),
        }
    }

    /// The size and the textures are those of the configuration.
    pub open spec fn wf(self) -> bool {
        self == SurfaceView::configured(self.config)
    }

    /// The surface after its window was resized. A window without area, such as one that is
    /// minimised, changes nothing.
    pub open spec fn resized(self, size: PhysicalSize) -> SurfaceView {
        if size.width > 0 && size.height > 0 {
            SurfaceView::configured(self.config.with_size(size))
        } else {
            self
        }
    }
}

/// What resizing the window to `size` takes, for a surface that was configured as `config`.
pub open spec fn resize_commands(config: SurfaceConfig, size: PhysicalSize) -> Seq<SurfaceCommand> {
    if size.width > 0 && size.height > 0 {
        seq![
            SurfaceCommand::Configure(config.with_size(size)),
            SurfaceCommand::CreateDepthTexture(config.with_size(size).depth()),
            SurfaceCommand::CreateMsaaTexture(config.with_size(size).msaa()),
            SurfaceCommand::CreateMsaaView,
        ]
    } else {
        seq![]
    }
}

/// What there is on a graphics device for the surface. A view is one of the texture that
/// was there when it was made.
pub struct Attachments {
    pub surface: SurfaceConfig,
    pub depth: DepthTexture,
    pub msaa: TextureDescription,
    pub view: TextureDescription,
}

impl Attachments {
    /// What there is for a surface as it is now.
    pub open spec fn of(surface: SurfaceView) -> Attachments {
        Attachments {
            surface: surface.config,
            depth: surface.depth_texture,
            msaa: surface.msaa_texture,
            view: surface.msaa_texture,
        }
    }

    /// What there is after `command`.
    pub open spec fn after(self, command: SurfaceCommand) -> Attachments {
        match command {
            SurfaceCommand::Configure(surface) => Attachments { surface, ..self },
            SurfaceCommand::CreateDepthTexture(depth) => Attachments { depth, ..self },
            SurfaceCommand::CreateMsaaTexture(msaa) => Attachments { msaa, ..self },
            SurfaceCommand::CreateMsaaView => Attachments { view: self.msaa, ..self },
        }
    }

    /// What there is after all of `commands`.
    pub open spec fn after_all(self, commands: Seq<SurfaceCommand>) -> Attachments
        decreases commands.len(),
    {
        if commands.len() == 0 {
            self
        } else {
            self.after_all(commands.drop_last()).after(commands.last())
        }
    }

    /// A pass can be drawn over them and resolved onto the surface: all are as large as it,
    /// and the view is one of the multisampled texture there is, in the surface's format.
    pub open spec fn in_step(self) -> bool {
        &&& self.depth.width == self.surface.width
        &&& self.depth.height == self.surface.height
        &&& self.msaa.width == self.surface.width
        &&& self.msaa.height == self.surface.height
        &&& self.msaa.format == self.surface.format
        &&& self.msaa.sample_count > 1
        &&& self.view == self.msaa
    }
}

/// The configuration of a surface follows its window and what it offers: the size is the
/// window's, the format is the first sRGB one on offer or the first of all, the alpha mode is
/// the first on offer, images wait for the display, and nothing further is asked for.
pub proof fn lemma_configuration_follows_the_window(
    config: SurfaceConfig,
    size: PhysicalSize,
    capabilities: SurfaceCapabilities,
)
    requires
        config.suits(size, capabilities),
    ensures
        config.width == size.width,
        config.height == size.height,
        config.usage is RenderAttachment,
        config.present_mode is Fifo,
        config.alpha_mode == capabilities.alpha_modes@[0],
        config.view_format is None,
        exists|index: int|
            0 <= index < capabilities.formats@.len() && config.format
                == #[trigger] capabilities.formats@[index] && (forall|i: int|
                0 <= i < index ==> !crate::format::format_is_srgb(
                    #[trigger] capabilities.formats@[i],
                )) && (crate::format::format_is_srgb(config.format) || index == 0),
        !crate::format::format_is_srgb(config.format) ==> forall|i: int|
            0 <= i < capabilities.formats@.len() ==> !crate::format::format_is_srgb(
                #[trigger] capabilities.formats@[i],
            ),
{
    crate::format::lemma_surface_format_is_the_first_srgb(capabilities.formats@, config.format);
}

/// A surface is usable exactly if it offers a format and an alpha mode; more offers do no harm.
pub proof fn lemma_usable_means_one_of_each(
    capabilities: SurfaceCapabilities,
    more: SurfaceCapabilities,
)
    requires
        capabilities.formats@.len() <= more.formats@.len(),
        capabilities.alpha_modes@.len() <= more.alpha_modes@.len(),
    ensures
        capabilities.usable() <==> capabilities.formats@.len() != 0
            && capabilities.alpha_modes@.len() != 0,
        capabilities.usable() ==> more.usable(),
{
}

/// Two windows on a surface that offers the same get configurations that differ in nothing
/// but their sizes.
pub proof fn lemma_configurations_differ_in_size_only(
    config: SurfaceConfig,
    size: PhysicalSize,
    other: SurfaceConfig,
    other_size: PhysicalSize,
    capabilities: SurfaceCapabilities,
)
    requires
        config.suits(size, capabilities),
        other.suits(other_size, capabilities),
    ensures
        other == (SurfaceConfig { width: other_size.width, height: other_size.height, ..config }),
{
    crate::format::lemma_surface_format_is_unique(
        capabilities.formats@,
        config.format,
        other.format,
    );
}

/// A consistent surface is as large as it is configured to be, and so are its textures. The
/// multisampled one is flat, has one layer and one level, the surface's format, and
/// [`SAMPLE_COUNT`] samples to a pixel.
pub proof fn lemma_textures_are_as_large_as_the_surface(surface: SurfaceView)
    requires
        surface.wf(),
    ensures
        surface.size.width == surface.config.width,
        surface.size.height == surface.config.height,
        surface.depth_texture.width == surface.config.width,
        surface.depth_texture.height == surface.config.height,
        surface.msaa_texture.width == surface.config.width,
        surface.msaa_texture.height == surface.config.height,
        surface.msaa_texture.format == surface.config.format,
        surface.msaa_texture.sample_count == 4,
        surface.msaa_texture.depth_or_array_layers == 1,
        surface.msaa_texture.mip_level_count == 1,
        surface.msaa_texture.dimension is D2,
        surface.msaa_texture.usage is RenderAttachment,
        surface.msaa_texture.view_format is None,
        Attachments::of(surface).in_step(),
{
}

/// Every configuration has a consistent surface, and only one.
pub proof fn lemma_configuration_settles_the_surface(config: SurfaceConfig, surface: SurfaceView)
    ensures
        SurfaceView::configured(config).wf(),
        SurfaceView::configured(config).config == config,
        surface.wf() && surface.config == config ==> surface == SurfaceView::configured(config),
        config.extent().width == config.width,
        config.extent().height == config.height,
{
}

/// A size with area is taken as it is, and the rest of the configuration stays. A size
/// without area is not taken at all.
pub proof fn lemma_size_with_area_is_taken(surface: SurfaceView, size: PhysicalSize)
    requires
        surface.wf(),
    ensures
        size.width > 0 && size.height > 0 ==> {
            let resized = surface.resized(size);
            &&& resized.size == size
            &&& resized.config == (SurfaceConfig {
                width: size.width,
                height: size.height,
                ..surface.config
            })
            &&& resized.wf()
            &&& Attachments::of(resized).in_step()
        },
        size.width == 0 || size.height == 0 ==> surface.resized(size) == surface,
{
}

/// Performing what a change of size takes, on a device that holds the attachments of the
/// surface as it was, leaves exactly those of the surface as it is then. Whatever is replaced
/// is replaced once, and nothing is replaced for a window without area.
pub proof fn lemma_resize_brings_the_attachments_along(surface: SurfaceView, size: PhysicalSize)
    requires
        surface.wf(),
    ensures
        Attachments::of(surface).after_all(resize_commands(surface.config, size))
            == Attachments::of(surface.resized(size)),
        Attachments::of(surface).after_all(resize_commands(surface.config, size)).in_step(),
        size.width > 0 && size.height > 0 ==> {
            let commands = resize_commands(surface.config, size);
            let resized = surface.resized(size);
            &&& commands.len() == 4
            &&& commands.contains(SurfaceCommand::Configure(resized.config))
            &&& commands.contains(SurfaceCommand::CreateDepthTexture(resized.depth_texture))
            &&& commands.contains(SurfaceCommand::CreateMsaaTexture(resized.msaa_texture))
            &&& commands[0] is Configure
            &&& commands.last() is CreateMsaaView
        },
        size.width == 0 || size.height == 0 ==> resize_commands(surface.config, size).len() == 0,
{
    reveal_with_fuel(Attachments::after_all, 5);
    let commands = resize_commands(surface.config, size);
    if size.width > 0 && size.height > 0 {
        assert(commands[0] == SurfaceCommand::Configure(surface.resized(size).config));
        assert(commands[1] == SurfaceCommand::CreateDepthTexture(
            surface.resized(size).depth_texture,
        ));
        assert(commands[2] == SurfaceCommand::CreateMsaaTexture(
            surface.resized(size).msaa_texture,
        ));
    }
}

/// Whatever a device held before, after a change to a size with area it holds the
/// attachments of that size.
pub proof fn lemma_resize_leaves_nothing_behind(
    attachments: Attachments,
    surface: SurfaceView,
    size: PhysicalSize,
)
    requires
        surface.wf(),
        size.width > 0,
        size.height > 0,
    ensures
        attachments.after_all(resize_commands(surface.config, size)) == Attachments::of(
            surface.resized(size),
        ),
{
    reveal_with_fuel(Attachments::after_all, 5);
}

impl SurfaceState {
    /// The size and the textures never get out of step with the configuration.
    #[verifier::type_invariant]
    closed spec fn consistent(self) -> bool {
        self@.wf()
    }

    /// The surface configured as `config`, with what goes with it.
    pub fn new(config: SurfaceConfig) -> (surface: SurfaceState)
        ensures
            surface@ == SurfaceView::configured(config),
            surface@.config == config,
            surface@.size.width == config.width,
            surface@.size.height == config.height,
    {
        SurfaceState {
            config,
            size: PhysicalSize { width: config.width, height: config.height },
            depth_texture: config.depth_texture(),
            msaa_texture: config.msaa_texture(),
        }
    }

    /// The configuration of the surface.
    pub fn config(&self) -> (config: SurfaceConfig)
        ensures
            config == self@.config,
            self@.wf(),
    {
        proof {
            use_type_invariant(self);
        }
        self.config
    }

    /// The size of the window, as far as it is known to have area.
    pub fn size(&self) -> (size: &PhysicalSize)
        ensures
            *size == self@.size,
            self@.wf(),
    {
        proof {
            use_type_invariant(self);
        }
        &self.size
    }

    /// The depth texture that goes with the surface.
    pub fn depth_texture(&self) -> (depth: DepthTexture)
        ensures
            depth == self@.depth_texture,
            self@.wf(),
    {
        proof {
            use_type_invariant(self);
        }
        self.depth_texture
    }

    /// The multisampled texture that goes with the surface.
    pub fn msaa_texture(&self) -> (msaa: TextureDescription)
        ensures
            msaa == self@.msaa_texture,
            self@.wf(),
    {
        proof {
            use_type_invariant(self);
        }
        self.msaa_texture
    }

    /// Takes a new size of the window, and gives what it takes to follow it: the surface
    /// is configured anew and its attachments are replaced. A window without area is left
    /// alone.
    pub fn resize(&mut self, size: PhysicalSize) -> (commands: Vec<SurfaceCommand>)
        ensures
            final(self)@ == old(self)@.resized(size),
            final(self)@.wf(),
            commands@ == resize_commands(old(self)@.config, size),
            Attachments::of(old(self)@).after_all(commands@) == Attachments::of(final(self)@),
            size.width > 0 && size.height > 0 ==> {
                &&& final(self)@.size == size
                &&& commands@ == seq![
                    SurfaceCommand::Configure(final(self)@.config),
                    SurfaceCommand::CreateDepthTexture(final(self)@.depth_texture),
                    SurfaceCommand::CreateMsaaTexture(final(self)@.msaa_texture),
                    SurfaceCommand::CreateMsaaView,
                ]
            },
            size.width == 0 || size.height == 0 ==> final(self)@ == old(self)@ && commands@.len()
                == 0,
    {
        proof {
            use_type_invariant(&*self);
        }
        let mut commands: Vec<SurfaceCommand> = Vec::new();
        if size.width > 0 && size.height > 0 {
            let config = SurfaceConfig { width: size.width, height: size.height, ..self.config };
            *self = SurfaceState::new(config);
            commands.push(SurfaceCommand::Configure(self.config));
            commands.push(SurfaceCommand::CreateDepthTexture(self.depth_texture));
            commands.push(SurfaceCommand::CreateMsaaTexture(self.msaa_texture));
            commands.push(SurfaceCommand::CreateMsaaView);
        }
        proof {
            lemma_resize_brings_the_attachments_along(old(self)@, size);
        }
        commands
    }
}

/// The debug label of the depth texture.
pub fn depth_texture_label() -> (label: &'static str)
    ensures
        label@ == "depth texture"@,
{
    "depth texture"
}

/// The debug label of the multisampled texture.
pub fn msaa_texture_label() -> (label: &'static str)
    ensures
        label@ == "msaa texture"@,
{
    "msaa texture"
}

} // verus!
