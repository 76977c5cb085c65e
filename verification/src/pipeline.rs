//! The render pipeline: a shader program, one vertex buffer binding and a
//! fixed-function state that never varies.

use crate::context::{DeviceContext, SurfaceFormat};
use vstd::prelude::*;

verus! {

/// How vertices are assembled into primitives.
#[derive(Clone, Copy, Debug, PartialEq, Eq, Structural)]
pub enum PrimitiveTopology {
    PointList,
    LineList,
    LineStrip,
    TriangleList,
    TriangleStrip,
}

/// The winding order that marks a triangle's front.
#[derive(Clone, Copy, Debug, PartialEq, Eq, Structural)]
pub enum FrontFace {
    /// Counter-clockwise.
    Ccw,
    /// Clockwise.
    Cw,
}

/// A side of a triangle.
#[derive(Clone, Copy, Debug, PartialEq, Eq, Structural)]
pub enum Face {
    Front,
    Back,
}

/// How polygons are rasterised.
#[derive(Clone, Copy, Debug, PartialEq, Eq, Structural)]
pub enum PolygonMode {
    Fill,
    Line,
    Point,
}

/// The width of an index.
#[derive(Clone, Copy, Debug, PartialEq, Eq, Structural)]
pub enum IndexFormat {
    Uint16,
    Uint32,
}

/// A factor of the blend equation.
#[derive(Clone, Copy, Debug, PartialEq, Eq, Structural)]
pub enum BlendFactor {
    Zero,
    One,
    Src,
    OneMinusSrc,
    SrcAlpha,
    OneMinusSrcAlpha,
    Dst,
    OneMinusDst,
    DstAlpha,
    OneMinusDstAlpha,
    SrcAlphaSaturated,
    Constant,
    OneMinusConstant,
}

/// The operator of the blend equation.
#[derive(Clone, Copy, Debug, PartialEq, Eq, Structural)]
pub enum BlendOperation {
    Add,
    Subtract,
    ReverseSubtract,
    Min,
    Max,
}

/// The blend equation of the colour channels, or of alpha.
#[derive(Clone, Copy, Debug, PartialEq, Eq, Structural)]
pub struct BlendComponent {
    pub src_factor: BlendFactor,
    pub dst_factor: BlendFactor,
    pub operation: BlendOperation,
}

/// How a fragment is combined with what the target holds.
#[derive(Clone, Copy, Debug, PartialEq, Eq, Structural)]
pub struct BlendState {
    pub color: BlendComponent,
    pub alpha: BlendComponent,
}

/// The channels of the target that a fragment may write.
#[derive(Clone, Copy, Debug, PartialEq, Eq, Structural)]
pub struct ColorWrites {
    pub red: bool,
    pub green: bool,
    pub blue: bool,
    pub alpha: bool,
}

/// The colour target of the fragment stage.
#[derive(Clone, Copy, Debug, PartialEq, Eq, Structural)]
pub struct ColorTargetState {
    pub format: SurfaceFormat,
    pub blend: Option<BlendState>,
    pub write_mask: ColorWrites,
}

/// Primitive assembly and rasterisation.
#[derive(Clone, Copy, Debug, PartialEq, Eq, Structural)]
pub struct PrimitiveState {
    pub topology: PrimitiveTopology,
    /// The index value that restarts a strip, for strip topologies.
    pub strip_index_format: Option<IndexFormat>,
    pub front_face: FrontFace,
    pub cull_mode: Option<Face>,
    pub unclipped_depth: bool,
    pub polygon_mode: PolygonMode,
    pub conservative: bool,
}

/// Multisampling.
#[derive(Clone, Copy, Debug, PartialEq, Eq, Structural)]
pub struct MultisampleState {
    /// Samples per pixel.
    pub count: u32,
    /// Which samples are written.
    pub mask: u64,
    pub alpha_to_coverage_enabled: bool,
}

/// The resources a pipeline binds besides its vertex buffers.
#[derive(Clone, Copy, Debug, PartialEq, Eq, Structural)]
pub struct PipelineLayout {
    /// Number of bind group layouts.
    pub bind_group_layouts: u32,
    /// Number of push constant ranges.
    pub push_constant_ranges: u32,
}

/// Everything about a pipeline that does not depend on what it is built
/// from.
#[derive(Clone, Copy, Debug, PartialEq, Eq, Structural)]
pub struct FixedState {
    pub layout: PipelineLayout,
    pub primitive: PrimitiveState,
    pub blend: Option<BlendState>,
    pub write_mask: ColorWrites,
    /// Whether a depth/stencil attachment is used.
    pub depth_stencil: bool,
    pub multisample: MultisampleState,
    /// Number of views rendered at once, if more than one.
    pub multiview: Option<u32>,
}

/// Whether a vertex buffer advances per vertex or per instance.
#[derive(Clone, Copy, Debug, PartialEq, Eq, Structural)]
pub enum VertexStepMode {
    Vertex,
    Instance,
}

/// The type of a vertex attribute: one to four 32-bit components.
#[derive(Clone, Copy, Debug, PartialEq, Eq, Structural)]
pub enum VertexFormat {
    Float32,
    Float32x2,
    Float32x3,
    Float32x4,
    Uint32,
    Uint32x2,
    Uint32x3,
    Uint32x4,
    Sint32,
    Sint32x2,
    Sint32x3,
    Sint32x4,
}

/// One input of the vertex shader.
#[derive(Clone, Copy, Debug, PartialEq, Eq, Structural)]
pub struct VertexAttribute {
    pub format: VertexFormat,
    /// Byte offset within a vertex record.
    pub offset: u64,
    pub shader_location: u32,
}

/// The mathematical content of a [`VertexBufferLayout`].
pub struct VertexBufferLayoutModel {
    pub array_stride: u64,
    pub step_mode: VertexStepMode,
    pub attributes: Seq<VertexAttribute>,
}

/// How vertex records lie in a vertex buffer.
#[derive(Debug, PartialEq, Eq)]
pub struct VertexBufferLayout {
    /// Bytes from one record to the next.
    pub array_stride: u64,
    pub step_mode: VertexStepMode,
    pub attributes: Vec<VertexAttribute>,
}

impl View for VertexBufferLayout {
    type V = VertexBufferLayoutModel;

    open spec fn view(&self) -> VertexBufferLayoutModel {
        VertexBufferLayoutModel {
            array_stride: self.array_stride,
            step_mode: self.step_mode,
            attributes: self.attributes@,
        }
    }
}

impl VertexBufferLayout {
    /// A second layout with the same content.
    pub fn duplicate(&self) -> (copy: VertexBufferLayout)
        ensures
            copy@ == self@,
    {
        let mut attributes: Vec<VertexAttribute> = Vec::new();
        let mut i: usize = 0;
        while i < self.attributes.len()
            invariant
                i <= self.attributes.len(),
                attributes@ == self.attributes@.take(i as int),
            decreases self.attributes.len() - i,
        {
            attributes.push(self.attributes[i]);
            assert(self.attributes@.take(i + 1) == self.attributes@.take(i as int).push(
                self.attributes@[i as int],
            ));
            i += 1;
        }
        assert(self.attributes@.take(i as int) == self.attributes@);
        VertexBufferLayout {
            array_stride: self.array_stride,
            step_mode: self.step_mode,
            attributes,
        }
    }
}

/// The entry point of the vertex stage in the shader program.
pub const VERTEX_ENTRY_POINT: &'static str = "vs_main";

/// The entry point of the fragment stage in the shader program.
pub const FRAGMENT_ENTRY_POINT: &'static str = "fs_main";

/// A fragment replaces what the target holds.
pub open spec fn spec_blend_replace() -> BlendState {
    let replace = BlendComponent {
        src_factor: BlendFactor::One,
        dst_factor: BlendFactor::Zero,
        operation: BlendOperation::Add,
    };
    BlendState { color: replace, alpha: replace }
}

/// The fixed-function state of every pipeline this core builds: no bound
/// resources and no push constants; triangle lists without strip restart,
/// counter-clockwise front faces, back faces culled, filled polygons; a
/// fragment replaces the target in all four channels; no depth/stencil;
/// one sample per pixel, all samples written, no alpha-to-coverage; a
/// single view.
pub open spec fn spec_fixed_state() -> FixedState {
    FixedState {
        layout: PipelineLayout { bind_group_layouts: 0, push_constant_ranges: 0 },
        primitive: PrimitiveState {
            topology: PrimitiveTopology::TriangleList,
            strip_index_format: None,
            front_face: FrontFace::Ccw,
            cull_mode: Some(Face::Back),
            unclipped_depth: false,
            polygon_mode: PolygonMode::Fill,
            conservative: false,
        },
        blend: Some(spec_blend_replace()),
        write_mask: ColorWrites { red: true, green: true, blue: true, alpha: true },
        depth_stencil: false,
        multisample: MultisampleState {
            count: 1,
            mask: 0xffff_ffff_ffff_ffff,
            alpha_to_coverage_enabled: false,
        },
        multiview: None,
    }
}

#[verifier::when_used_as_spec(spec_fixed_state)]
pub fn fixed_state() -> (fixed: FixedState)
    ensures
        fixed == spec_fixed_state(),
{
    let replace = BlendComponent {
        src_factor: BlendFactor::One,
        dst_factor: BlendFactor::Zero,
        operation: BlendOperation::Add,
    };
    FixedState {
        layout: PipelineLayout { bind_group_layouts: 0, push_constant_ranges: 0 },
        primitive: PrimitiveState {
            topology: PrimitiveTopology::TriangleList,
            strip_index_format: None,
            front_face: FrontFace::Ccw,
            cull_mode: Some(Face::Back),
            unclipped_depth: false,
            polygon_mode: PolygonMode::Fill,
            conservative: false,
        },
        blend: Some(BlendState { color: replace, alpha: replace }),
        write_mask: ColorWrites { red: true, green: true, blue: true, alpha: true },
        depth_stencil: false,
        multisample: MultisampleState {
            count: 1,
            mask: 0xffff_ffff_ffff_ffff,
            alpha_to_coverage_enabled: false,
        },
        multiview: None,
    }
}

/// The mathematical content of a [`RenderPipeline`].
pub struct RenderPipelineModel {
    /// The text of the shader program.
    pub shader_source: Seq<char>,
    pub vertex_entry_point: Seq<char>,
    pub fragment_entry_point: Seq<char>,
    /// The vertex buffer bindings, in slot order.
    pub vertex_buffers: Seq<VertexBufferLayoutModel>,
    /// The format of the fragment stage's only colour target.
    pub target_format: SurfaceFormat,
    pub fixed: FixedState,
}

impl RenderPipelineModel {
    /// The colour target of the fragment stage.
    pub open spec fn target(self) -> ColorTargetState {
        ColorTargetState {
            format: self.target_format,
            blend: self.fixed.blend,
            write_mask: self.fixed.write_mask,
        }
    }
}

/// The pipeline built from a shader program for a target format and a
/// vertex layout: the two entry points, one vertex buffer binding with that
/// layout, one colour target of that format, and the fixed state.
pub open spec fn spec_build(
    shader_source: Seq<char>,
    target_format: SurfaceFormat,
    vertex_layout: VertexBufferLayoutModel,
) -> RenderPipelineModel {
    RenderPipelineModel {
        shader_source,
        vertex_entry_point: VERTEX_ENTRY_POINT@,
        fragment_entry_point: FRAGMENT_ENTRY_POINT@,
        vertex_buffers: seq![vertex_layout],
        target_format,
        fixed: spec_fixed_state(),
    }
}

/// An immutable description of how draw calls are processed.
#[derive(Debug, PartialEq, Eq)]
pub struct RenderPipeline {
    shader_source: String,
    vertex_layout: VertexBufferLayout,
    target_format: SurfaceFormat,
}

impl View for RenderPipeline {
    type V = RenderPipelineModel;

    closed spec fn view(&self) -> RenderPipelineModel {
        spec_build(self.shader_source@, self.target_format, self.vertex_layout@)
    }
}

impl RenderPipeline {
    /// Builds the pipeline that renders to targets of `target_format` on
    /// `context`, with the given shader program and vertex layout.
    ///
    /// The target format has to be the one the context presents with; to
    /// build for another is an error of the caller.
    pub fn build(
        context: &DeviceContext,
        shader_source: &str,
        target_format: SurfaceFormat,
        vertex_layout: VertexBufferLayout,
    ) -> (pipeline: RenderPipeline)
        requires
            target_format == context@.format,
        ensures
            pipeline@ == spec_build(shader_source@, target_format, vertex_layout@),
    {
        RenderPipeline { shader_source: shader_source.to_owned(), vertex_layout, target_format }
    }

    /// The text of the shader program.
    pub fn shader_source(&self) -> (source: &str)
        ensures
            source@ == self@.shader_source,
    {
        self.shader_source.as_str()
    }

    /// The entry point of the vertex stage.
    pub fn vertex_entry_point(&self) -> (name: &'static str)
        ensures
            name@ == self@.vertex_entry_point,
            name@ == VERTEX_ENTRY_POINT@,
    {
        VERTEX_ENTRY_POINT
    }

    /// The entry point of the fragment stage.
    pub fn fragment_entry_point(&self) -> (name: &'static str)
        ensures
            name@ == self@.fragment_entry_point,
            name@ == FRAGMENT_ENTRY_POINT@,
    {
        FRAGMENT_ENTRY_POINT
    }

    /// The layout of the vertex buffer bound at slot 0, the only one.
    pub fn vertex_layout(&self) -> (layout: &VertexBufferLayout)
        ensures
            self@.vertex_buffers == seq![layout@],
    {
        &self.vertex_layout
    }

    /// The format of the colour target.
    pub fn target_format(&self) -> (format: SurfaceFormat)
        ensures
            format == self@.target_format,
    {
        self.target_format
    }

    /// The colour target of the fragment stage.
    pub fn target(&self) -> (target: ColorTargetState)
        ensures
            target == self@.target(),
    {
        let fixed = fixed_state();
        ColorTargetState {
            format: self.target_format,
            blend: fixed.blend,
            write_mask: fixed.write_mask,
        }
    }

    /// The fixed-function state.
    pub fn fixed_state(&self) -> (fixed: FixedState)
        ensures
            fixed == self@.fixed,
            fixed == spec_fixed_state(),
    {
        fixed_state()
    }
}

/// Building is repeatable: two pipelines built from the same shader
/// program, target format and vertex layout are the same pipeline.
pub proof fn lemma_build_repeatable(
    first: RenderPipelineModel,
    second: RenderPipelineModel,
    shader_source: Seq<char>,
    target_format: SurfaceFormat,
    vertex_layout: VertexBufferLayoutModel,
)
    requires
        first == spec_build(shader_source, target_format, vertex_layout),
        second == spec_build(shader_source, target_format, vertex_layout),
    ensures
        first == second,
        first.fixed == second.fixed,
{
}

/// The fixed state does not depend on what a pipeline is built from: any
/// two pipelines agree on it, in particular on topology, culling, winding
/// and blending.
pub proof fn lemma_fixed_state_is_fixed(
    source_a: Seq<char>,
    format_a: SurfaceFormat,
    layout_a: VertexBufferLayoutModel,
    source_b: Seq<char>,
    format_b: SurfaceFormat,
    layout_b: VertexBufferLayoutModel,
)
    ensures
        spec_build(source_a, format_a, layout_a).fixed == spec_build(
            source_b,
            format_b,
            layout_b,
        ).fixed,
        spec_build(source_a, format_a, layout_a).fixed.primitive.topology
            == PrimitiveTopology::TriangleList,
        spec_build(source_a, format_a, layout_a).fixed.primitive.cull_mode == Some(Face::Back),
        spec_build(source_a, format_a, layout_a).fixed.primitive.front_face == FrontFace::Ccw,
        spec_build(source_a, format_a, layout_a).fixed.primitive.polygon_mode
            == PolygonMode::Fill,
        spec_build(source_a, format_a, layout_a).fixed.blend == Some(spec_blend_replace()),
        spec_build(source_a, format_a, layout_a).target().format == format_a,
{
}

} // verus!
