//! The render pipelines: what each of them draws with, and what it expects bound.
use vstd::prelude::*;

use crate::surface::{TextureDescription, SAMPLE_COUNT};

verus! {

/// The pipelines of the application, each with a shader of its own.
#[derive(Clone, Copy, Debug, PartialEq, Eq, Structural)]
pub enum Pipeline {
    Model,
    Light,
    Collider,
    Outline,
}

/// What kind of resources a bind group holds.
#[derive(Clone, Copy, Debug, PartialEq, Eq, Structural)]
pub enum BindGroupKind {
    Camera,
    Texture,
    Light,
}

/// The layout of the elements of a vertex buffer.
#[derive(Clone, Copy, Debug, PartialEq, Eq, Structural)]
pub enum VertexLayout {
    Model,
    Collider,
    Instance,
}

/// How vertices are joined into shapes.
#[derive(Clone, Copy, Debug, PartialEq, Eq, Structural)]
pub enum Topology {
    PointList,
    LineList,
    LineStrip,
    TriangleList,
    TriangleStrip,
}

/// The order of corners that makes a triangle face the viewer.
#[derive(Clone, Copy, Debug, PartialEq, Eq, Structural)]
pub enum FrontFace {
    Ccw,
    Cw,
}

/// A side of a triangle.
#[derive(Clone, Copy, Debug, PartialEq, Eq, Structural)]
pub enum Face {
    Front,
    Back,
}

/// What of a polygon is drawn.
#[derive(Clone, Copy, Debug, PartialEq, Eq, Structural)]
pub enum PolygonMode {
    Fill,
    Line,
    Point,
}

/// How a new colour is combined with the one already there.
#[derive(Clone, Copy, Debug, PartialEq, Eq, Structural)]
pub enum Blend {
    Replace,
    AlphaBlending,
    PremultipliedAlphaBlending,
}

/// Which new values pass against the one already there.
#[derive(Clone, Copy, Debug, PartialEq, Eq, Structural)]
pub enum CompareFunction {
    Never,
    Less,
    Equal,
    LessEqual,
    Greater,
    NotEqual,
    GreaterEqual,
    Always,
}

/// The type of the indices in an index buffer.
#[derive(Clone, Copy, Debug, PartialEq, Eq, Structural)]
pub enum IndexFormat {
    Uint16,
    Uint32,
}

/// What is done to a stencil value.
#[derive(Clone, Copy, Debug, PartialEq, Eq, Structural)]
pub enum StencilOperation {
    Keep,
    Zero,
    Replace,
    Invert,
    IncrementClamp,
    DecrementClamp,
    IncrementWrap,
    DecrementWrap,
}

/// The stencil test for one side of a triangle.
#[derive(Clone, Copy, Debug, PartialEq, Eq, Structural)]
pub struct StencilFaceState {
    pub test: CompareFunction,
    pub fail: StencilOperation,
    pub depth_fail: StencilOperation,
    pub pass: StencilOperation,
}

/// The stencil side of a pipeline.
#[derive(Clone, Copy, Debug, PartialEq, Eq, Structural)]
pub struct StencilState {
    pub front: StencilFaceState,
    pub back: StencilFaceState,
    pub read_mask: u32,
    pub write_mask: u32,
}

/// The depth side of a pipeline. Depths are moved by the constant `bias`; there is no bias
/// by slope and no clamping of it.
#[derive(Clone, Copy, Debug, PartialEq)]
pub struct DepthState {
    pub format: wgpu::TextureFormat,
    pub write_enabled: bool,
    pub test: CompareFunction,
    pub stencil: StencilState,
    pub bias: i32,
}

/// Which colour channels are written.
#[derive(Clone, Copy, Debug, PartialEq, Eq, Structural)]
pub struct ColourWrites {
    pub red: bool,
    pub green: bool,
    pub blue: bool,
    pub alpha: bool,
}

/// A range of bytes that is pushed to the shaders without a buffer.
#[derive(Clone, Copy, Debug, PartialEq, Eq, Structural)]
pub struct PushConstantRange {
    pub visible_to_vertices: bool,
    pub visible_to_fragments: bool,
    pub start: u32,
    pub end: u32,
}

/// What a pipeline reads besides its vertices: its bind groups, slot by slot, and its
/// push constants.
#[derive(Debug, PartialEq)]
pub struct PipelineLayout {
    pub label: String,
    pub groups: Vec<BindGroupKind>,
    pub push_constants: Vec<PushConstantRange>,
}

/// A render pipeline to create.
#[derive(Debug, PartialEq)]
pub struct RenderPipeline {
    pub label: String,
    pub layout: PipelineLayout,
    /// The pipeline whose shader this one runs.
    pub shader: Pipeline,
    pub vertex_entry: String,
    pub vertex_buffers: Vec<VertexLayout>,
    pub fragment_entry: String,
    pub colour_format: wgpu::TextureFormat,
    pub blend: Blend,
    pub write_mask: ColourWrites,
    pub topology: Topology,
    pub strip_index_format: Option<IndexFormat>,
    pub front_face: FrontFace,
    pub cull_mode: Option<Face>,
    pub polygon_mode: PolygonMode,
    pub unclipped_depth: bool,
    pub conservative: bool,
    pub depth: Option<DepthState>,
    pub sample_count: u32,
    /// The samples of a pixel that are written, one bit each.
    pub sample_mask: u64,
    pub alpha_to_coverage: bool,
    /// The number of layers that are drawn at once, if several are.
    pub multiview: Option<u32>,
}

/// The stencil test that lets everything pass and changes nothing.
pub open spec fn stencil_ignored() -> StencilFaceState {
    StencilFaceState {
        test: CompareFunction::Always,
        fail: StencilOperation::Keep,
        depth_fail: StencilOperation::Keep,
        pass: StencilOperation::Keep,
    }
}

/// The depth state for a depth attachment of `format`: nearer fragments win and are
/// recorded, without bias and without a stencil test.
pub open spec fn depth_state(format: wgpu::TextureFormat) -> DepthState {
    DepthState {
        format,
        write_enabled: true,
        test: CompareFunction::Less,
        stencil: StencilState {
            front: stencil_ignored(),
            back: stencil_ignored(),
            read_mask: 0,
            write_mask: 0,
        },
        bias: 0,
    }
}

/// The depth state for a depth attachment of `format`.
fn nearer_wins(format: wgpu::TextureFormat) -> (depth: DepthState)
    ensures
        depth == depth_state(format),
{
    let ignored = StencilFaceState {
        test: CompareFunction::Always,
        fail: StencilOperation::Keep,
        depth_fail: StencilOperation::Keep,
        pass: StencilOperation::Keep,
    };
    DepthState {
        format,
        write_enabled: true,
        test: CompareFunction::Less,
        stencil: StencilState { front: ignored, back: ignored, read_mask: 0, write_mask: 0 },
        bias: 0,
    }
}

impl RenderPipeline {
    /// What all pipelines have in common: the entry points, alpha blending into all
    /// channels, filled polygons with counter-clockwise fronts, clipped depth, no
    /// conservative rasterisation, no strips, all samples, and a single view.
    pub open spec fn conventional(self) -> bool {
        &&& self.vertex_entry@ == "vs_main"@
        &&& self.fragment_entry@ == "fs_main"@
        &&& self.blend == Blend::AlphaBlending
        &&& self.front_face == FrontFace::Ccw
        &&& self.polygon_mode == PolygonMode::Fill
        &&& !self.unclipped_depth
        &&& !self.conservative
        &&& self.write_mask == ColourWrites { red: true, green: true, blue: true, alpha: true }
        &&& self.strip_index_format is None
        &&& self.sample_mask == u64::MAX
        &&& !self.alpha_to_coverage
        &&& self.multiview is None
    }

    /// This pipeline has none of what takes an optional feature of a device: polygons that
    /// are not filled, unclipped depth, conservative rasterisation, several views at once
    /// or push constants.
    pub open spec fn needs_no_feature(self) -> bool {
        &&& self.polygon_mode == PolygonMode::Fill
        &&& !self.unclipped_depth
        &&& !self.conservative
        &&& self.multiview is None
        &&& self.layout.push_constants@.len() == 0
    }

    /// This pipeline can draw in a pass over a multisampled texture made like `msaa` and a
    /// depth texture of `depth_format`.
    pub open spec fn fits(
        self,
        msaa: TextureDescription,
        depth_format: wgpu::TextureFormat,
    ) -> bool {
        &&& self.colour_format == msaa.format
        &&& self.sample_count == msaa.sample_count
        &&& self.depth matches Some(depth) && depth.format == depth_format
    }

    /// This is the description of `pipeline` for attachments of the two formats.
    pub open spec fn describes(
        self,
        pipeline: Pipeline,
        colour_format: wgpu::TextureFormat,
        depth_format: wgpu::TextureFormat,
    ) -> bool {
        &&& self.conventional()
        &&& self.label@ == pipeline.label_text()
        &&& self.layout.label@ == pipeline.layout_label_text()
        &&& self.layout.groups@ == pipeline.groups()
        &&& self.layout.push_constants@.len() == 0
        &&& self.shader == pipeline
        &&& self.vertex_buffers@ == pipeline.vertices()
        &&& self.colour_format == colour_format
        &&& self.topology == (if pipeline == Pipeline::Outline {
            Topology::LineList
        } else {
            Topology::TriangleList
        })
        &&& self.cull_mode == (if pipeline == Pipeline::Outline {
            None
        } else {
            Some(Face::Back)
        })
        &&& self.depth == Some(depth_state(depth_format))
        &&& self.sample_count == SAMPLE_COUNT
    }
}

/// Describes a pipeline for solid shapes: triangles, with those that face away left
/// out, drawn with `shader` over `samples` samples, and with a depth test if there is
/// a depth attachment.
pub fn create_render_pipeline(
    label: &str,
    layout: PipelineLayout,
    colour_format: wgpu::TextureFormat,
    depth_format: Option<wgpu::TextureFormat>,
    vertex_layouts: Vec<VertexLayout>,
    shader: Pipeline,
    samples: u32,
) -> (pipeline: RenderPipeline)
    ensures
        pipeline.conventional(),
        pipeline.vertex_entry@ == "vs_main"@,
        pipeline.fragment_entry@ == "fs_main"@,
        pipeline.blend is AlphaBlending,
        pipeline.write_mask.red && pipeline.write_mask.green && pipeline.write_mask.blue
            && pipeline.write_mask.alpha,
        pipeline.strip_index_format is None,
        pipeline.front_face is Ccw,
        pipeline.polygon_mode is Fill,
        !pipeline.unclipped_depth,
        !pipeline.conservative,
        pipeline.sample_mask == 0xffff_ffff_ffff_ffff,
        !pipeline.alpha_to_coverage,
        pipeline.multiview is None,
        pipeline.label@ == label@,
        pipeline.layout == layout,
        pipeline.shader == shader,
        pipeline.vertex_buffers == vertex_layouts,
        pipeline.colour_format == colour_format,
        pipeline.topology == Topology::TriangleList,
        pipeline.cull_mode == Some(Face::Back),
        depth_format is None ==> pipeline.depth is None,
        depth_format matches Some(format) ==> pipeline.depth == Some(depth_state(format)),
        depth_format matches Some(format) ==> (pipeline.depth matches Some(depth) && depth.format
            == format && depth.write_enabled && depth.test is Less && depth.bias == 0),
        pipeline.sample_count == samples,
{
    let depth = match depth_format {
        Some(format) => Some(nearer_wins(format)),
        None => None,
    };
    RenderPipeline {
        label: label.to_owned(),
        layout,
        shader,
        vertex_entry: "vs_main".to_owned(),
        vertex_buffers: vertex_layouts,
        fragment_entry: "fs_main".to_owned(),
        colour_format,
        blend: Blend::AlphaBlending,
        write_mask: ColourWrites { red: true, green: true, blue: true, alpha: true },
        topology: Topology::TriangleList,
        strip_index_format: None,
        front_face: FrontFace::Ccw,
        cull_mode: Some(Face::Back),
        polygon_mode: PolygonMode::Fill,
        unclipped_depth: false,
        conservative: false,
        depth,
        sample_count: samples,
        sample_mask: u64::MAX,
        alpha_to_coverage: false,
        multiview: None,
    }
}

impl Pipeline {
    /// The debug label of the pipeline.
    pub open spec fn label_text(self) -> Seq<char> {
        match self {
            Pipeline::Model => "render pipeline"@,
            Pipeline::Light => "light pipeline"@,
            Pipeline::Collider => "collider pipeline"@,
            Pipeline::Outline => "Outline pipeline"@,
        }
    }

    /// The debug label of the pipeline's layout.
    pub open spec fn layout_label_text(self) -> Seq<char> {
        match self {
            Pipeline::Model => "pipeline layout descriptor"@,
            Pipeline::Light => "Light pipeline layout"@,
            Pipeline::Collider => "Collider pipeline layout"@,
            Pipeline::Outline => "outline pipeline layout"@,
        }
    }

    /// The file that holds the pipeline's shader.
    pub open spec fn shader_path_text(self) -> Seq<char> {
        match self {
            Pipeline::Model => "shaders/model_shader.wgsl"@,
            Pipeline::Light => "shaders/light_shader.wgsl"@,
            Pipeline::Collider => "shaders/collider_debug_shader.wgsl"@,
            Pipeline::Outline => "shaders/collider_outline_shader.wgsl"@,
        }
    }

    /// The debug label of the pipeline's shader.
    pub open spec fn shader_label_text(self) -> Seq<char> {
        match self {
            Pipeline::Model => "model shader"@,
            Pipeline::Light => "Light shader"@,
            Pipeline::Collider => "collider shader"@,
            Pipeline::Outline => "outline shader"@,
        }
    }

    /// The kind of bind group that the pipeline reads from each slot.
    pub open spec fn groups(self) -> Seq<BindGroupKind> {
        match self {
            Pipeline::Model => seq![
                BindGroupKind::Camera,
                BindGroupKind::Texture,
                BindGroupKind::Light,
            ],
            Pipeline::Light => seq![BindGroupKind::Camera, BindGroupKind::Light],
            Pipeline::Collider => seq![BindGroupKind::Camera],
            Pipeline::Outline => seq![BindGroupKind::Camera],
        }
    }

    /// The layout of each vertex buffer that the pipeline reads.
    pub open spec fn vertices(self) -> Seq<VertexLayout> {
        match self {
            Pipeline::Model => seq![VertexLayout::Model],
            Pipeline::Light => seq![VertexLayout::Model],
            Pipeline::Collider => seq![VertexLayout::Collider, VertexLayout::Instance],
            Pipeline::Outline => seq![VertexLayout::Collider, VertexLayout::Instance],
        }
    }

    /// The file that holds the pipeline's shader.
    pub fn shader_path(self) -> (path: &'static str)
        ensures
            path@ == self.shader_path_text(),
    {
        match self {
            Pipeline::Model => "shaders/model_shader.wgsl",
            Pipeline::Light => "shaders/light_shader.wgsl",
            Pipeline::Collider => "shaders/collider_debug_shader.wgsl",
            Pipeline::Outline => "shaders/collider_outline_shader.wgsl",
        }
    }

    /// The debug label of the pipeline's shader.
    pub fn shader_label(self) -> (label: &'static str)
        ensures
            label@ == self.shader_label_text(),
    {
        match self {
            Pipeline::Model => "model shader",
            Pipeline::Light => "Light shader",
            Pipeline::Collider => "collider shader",
            Pipeline::Outline => "outline shader",
        }
    }

    /// The layout of the pipeline's bind groups.
    pub fn layout(self) -> (layout: PipelineLayout)
        ensures
            layout.label@ == self.layout_label_text(),
            layout.groups@ == self.groups(),
            layout.groups@.len() > 0 && layout.groups@[0] is Camera,
            self is Model ==> layout.groups@ == seq![
                BindGroupKind::Camera,
                BindGroupKind::Texture,
                BindGroupKind::Light,
            ],
            self is Light ==> layout.groups@ == seq![BindGroupKind::Camera, BindGroupKind::Light],
            self is Collider || self is Outline ==> layout.groups@ == seq![BindGroupKind::Camera],
            layout.push_constants@.len() == 0,
    {
        match self {
            Pipeline::Model => PipelineLayout {
                label: "pipeline layout descriptor".to_owned(),
                groups: vec![BindGroupKind::Camera, BindGroupKind::Texture, BindGroupKind::Light],
                push_constants: Vec::new(),
            },
            Pipeline::Light => PipelineLayout {
                label: "Light pipeline layout".to_owned(),
                groups: vec![BindGroupKind::Camera, BindGroupKind::Light],
                push_constants: Vec::new(),
            },
            Pipeline::Collider => PipelineLayout {
                label: "Collider pipeline layout".to_owned(),
                groups: vec![BindGroupKind::Camera],
                push_constants: Vec::new(),
            },
            Pipeline::Outline => PipelineLayout {
                label: "outline pipeline layout".to_owned(),
                groups: vec![BindGroupKind::Camera],
                push_constants: Vec::new(),
            },
        }
    }

    /// The layout of each vertex buffer that the pipeline reads.
    pub fn vertex_layouts(self) -> (layouts: Vec<VertexLayout>)
        ensures
            layouts@ == self.vertices(),
            self is Model || self is Light ==> layouts@ == seq![VertexLayout::Model],
            self is Collider || self is Outline ==> layouts@ == seq![
                VertexLayout::Collider,
                VertexLayout::Instance,
            ],
    {
        match self {
            Pipeline::Model => vec![VertexLayout::Model],
            Pipeline::Light => vec![VertexLayout::Model],
            Pipeline::Collider => vec![VertexLayout::Collider, VertexLayout::Instance],
            Pipeline::Outline => vec![VertexLayout::Collider, VertexLayout::Instance],
        }
    }

    /// Describes the pipeline for attachments of the two formats. Outlines are lines
    /// and have no facing; everything else is solid.
    pub fn description(
        self,
        colour_format: wgpu::TextureFormat,
        depth_format: wgpu::TextureFormat,
    ) -> (pipeline: RenderPipeline)
        ensures
            pipeline.describes(self, colour_format, depth_format),
            pipeline.shader == self,
            pipeline.colour_format == colour_format,
            pipeline.depth matches Some(depth) && depth.format == depth_format,
            pipeline.sample_count == SAMPLE_COUNT,
    {
        let layout = self.layout();
        let vertices = self.vertex_layouts();
        match self {
            Pipeline::Model => create_render_pipeline(
                "render pipeline",
                layout,
                colour_format,
                Some(depth_format),
                vertices,
                self,
                SAMPLE_COUNT,
            ),
            Pipeline::Light => create_render_pipeline(
                "light pipeline",
                layout,
                colour_format,
                Some(depth_format),
                vertices,
                self,
                SAMPLE_COUNT,
            ),
            Pipeline::Collider => create_render_pipeline(
                "collider pipeline",
                layout,
                colour_format,
                Some(depth_format),
                vertices,
                self,
                SAMPLE_COUNT,
            ),
            Pipeline::Outline => {
                let mut outline = create_render_pipeline(
                    "Outline pipeline",
                    layout,
                    colour_format,
                    Some(depth_format),
                    vertices,
                    self,
                    SAMPLE_COUNT,
                );
                outline.topology = Topology::LineList;
                outline.cull_mode = None;
                outline
            },
        }
    }
}

/// The pipelines get by without any optional feature of a device.
pub proof fn lemma_pipelines_need_no_feature(
    description: RenderPipeline,
    pipeline: Pipeline,
    colour_format: wgpu::TextureFormat,
    depth_format: wgpu::TextureFormat,
)
    requires
        description.describes(pipeline, colour_format, depth_format),
    ensures
        description.needs_no_feature(),
{
}

/// Whatever the formats, every pipeline runs its own shader from the two entry points,
/// blends into all channels of the colour attachment, lets the nearer fragment win in the
/// depth attachment without bias or stencil, and writes all samples of one view.
pub proof fn lemma_pipelines_draw_alike(
    description: RenderPipeline,
    pipeline: Pipeline,
    colour_format: wgpu::TextureFormat,
    depth_format: wgpu::TextureFormat,
)
    requires
        description.describes(pipeline, colour_format, depth_format),
    ensures
        description.shader == pipeline,
        description.colour_format == colour_format,
        description.sample_count == 4,
        description.vertex_entry@ == "vs_main"@,
        description.fragment_entry@ == "fs_main"@,
        description.blend is AlphaBlending,
        description.write_mask.red && description.write_mask.green && description.write_mask.blue
            && description.write_mask.alpha,
        description.strip_index_format is None,
        description.front_face is Ccw,
        description.polygon_mode is Fill,
        !description.unclipped_depth,
        !description.conservative,
        description.sample_mask == 0xffff_ffff_ffff_ffff,
        !description.alpha_to_coverage,
        description.multiview is None,
        description.layout.push_constants@.len() == 0,
        description.depth matches Some(depth) && ({
            &&& depth.format == depth_format
            &&& depth.write_enabled
            &&& depth.test is Less
            &&& depth.bias == 0
            &&& depth.stencil.read_mask == 0
            &&& depth.stencil.write_mask == 0
            &&& depth.stencil.front == depth.stencil.back
            &&& depth.stencil.front.test is Always
            &&& depth.stencil.front.fail is Keep
            &&& depth.stencil.front.depth_fail is Keep
            &&& depth.stencil.front.pass is Keep
        }),
{
}

/// Whatever the formats, outlines are lines that can be seen from both sides, and everything
/// else is triangles that can be seen from the front.
pub proof fn lemma_only_outlines_are_lines(
    description: RenderPipeline,
    pipeline: Pipeline,
    colour_format: wgpu::TextureFormat,
    depth_format: wgpu::TextureFormat,
)
    requires
        description.describes(pipeline, colour_format, depth_format),
    ensures
        pipeline is Outline ==> description.topology is LineList && description.cull_mode is None,
        pipeline is Model || pipeline is Light || pipeline is Collider
            ==> description.topology is TriangleList && description.cull_mode is Some
            && description.cull_mode->0 is Back,
{
}

/// What a pipeline reads follows from what it draws. Meshes of models have one buffer of
/// model vertices; colliders have one of their own vertices and one of instances. All are
/// seen through the camera; what is lit reads the light; only Rei has textures.
pub proof fn lemma_pipelines_read_what_they_draw(
    description: RenderPipeline,
    pipeline: Pipeline,
    colour_format: wgpu::TextureFormat,
    depth_format: wgpu::TextureFormat,
)
    requires
        description.describes(pipeline, colour_format, depth_format),
    ensures
        pipeline is Model || pipeline is Light ==> description.vertex_buffers@.len() == 1
            && description.vertex_buffers@[0] is Model,
        pipeline is Collider || pipeline is Outline ==> description.vertex_buffers@.len() == 2
            && description.vertex_buffers@[0] is Collider
            && description.vertex_buffers@[1] is Instance,
        description.layout.groups@.len() > 0 && description.layout.groups@[0] is Camera,
        description.layout.groups@.contains(BindGroupKind::Light) <==> pipeline is Model
            || pipeline is Light,
        description.layout.groups@.contains(BindGroupKind::Texture) <==> pipeline is Model,
        pipeline is Model ==> description.layout.groups@.len() == 3
            && description.layout.groups@[1] is Texture && description.layout.groups@[2] is Light,
        pipeline is Light ==> description.layout.groups@.len() == 2
            && description.layout.groups@[1] is Light,
        pipeline is Collider || pipeline is Outline ==> description.layout.groups@.len() == 1,
{
    let groups = description.layout.groups@;
    match pipeline {
        Pipeline::Model => {
            assert(groups[1] == BindGroupKind::Texture);
            assert(groups[2] == BindGroupKind::Light);
        },
        Pipeline::Light => {
            assert(groups[1] == BindGroupKind::Light);
        },
        _ => {},
    }
}

/// The labels and files of the pipelines, whatever the formats.
pub proof fn lemma_pipelines_are_labelled(
    description: RenderPipeline,
    pipeline: Pipeline,
    colour_format: wgpu::TextureFormat,
    depth_format: wgpu::TextureFormat,
)
    requires
        description.describes(pipeline, colour_format, depth_format),
    ensures
        pipeline is Model ==> description.label@ == "render pipeline"@
            && description.layout.label@ == "pipeline layout descriptor"@
            && pipeline.shader_path_text() == "shaders/model_shader.wgsl"@
            && pipeline.shader_label_text() == "model shader"@,
        pipeline is Light ==> description.label@ == "light pipeline"@ && description.layout.label@
            == "Light pipeline layout"@ && pipeline.shader_path_text()
            == "shaders/light_shader.wgsl"@ && pipeline.shader_label_text() == "Light shader"@,
        pipeline is Collider ==> description.label@ == "collider pipeline"@
            && description.layout.label@ == "Collider pipeline layout"@
            && pipeline.shader_path_text() == "shaders/collider_debug_shader.wgsl"@
            && pipeline.shader_label_text() == "collider shader"@,
        pipeline is Outline ==> description.label@ == "Outline pipeline"@
            && description.layout.label@ == "outline pipeline layout"@
            && pipeline.shader_path_text() == "shaders/collider_outline_shader.wgsl"@
            && pipeline.shader_label_text() == "outline shader"@,
{
}

/// Two descriptions of a pipeline differ in nothing but the formats that they are for.
pub proof fn lemma_descriptions_differ_in_formats_only(
    pipeline: Pipeline,
    first: RenderPipeline,
    colour_format: wgpu::TextureFormat,
    depth_format: wgpu::TextureFormat,
    second: RenderPipeline,
    other_colour_format: wgpu::TextureFormat,
    other_depth_format: wgpu::TextureFormat,
)
    requires
        first.describes(pipeline, colour_format, depth_format),
        second.describes(pipeline, other_colour_format, other_depth_format),
    ensures
        first.label@ == second.label@,
        first.layout.label@ == second.layout.label@,
        first.layout.groups@ == second.layout.groups@,
        first.layout.push_constants@ == second.layout.push_constants@,
        first.shader == second.shader,
        first.vertex_entry@ == second.vertex_entry@,
        first.fragment_entry@ == second.fragment_entry@,
        first.vertex_buffers@ == second.vertex_buffers@,
        first.blend == second.blend,
        first.write_mask == second.write_mask,
        first.topology == second.topology,
        first.strip_index_format == second.strip_index_format,
        first.front_face == second.front_face,
        first.cull_mode == second.cull_mode,
        first.polygon_mode == second.polygon_mode,
        first.unclipped_depth == second.unclipped_depth,
        first.conservative == second.conservative,
        first.sample_count == second.sample_count,
        first.sample_mask == second.sample_mask,
        first.alpha_to_coverage == second.alpha_to_coverage,
        first.multiview == second.multiview,
        first.colour_format == colour_format && second.colour_format == other_colour_format,
        first.depth is Some && second.depth is Some,
        second.depth->0 == (DepthState { format: other_depth_format, ..first.depth->0 }),
{
    assert(first.layout.push_constants@ =~= second.layout.push_constants@);
}

} // verus!
