//! The renderer's state: a device context and the resources created on it.

use crate::context::{DeviceContext, DeviceContextModel};
use crate::error::SurfaceError;
use crate::frame::{
    frame_commands, render_frame, spec_readiness, spec_render_frame, FrameCommand, Readiness,
};
use crate::mesh::{
    lemma_indexed_vertices_exist, native_encoding, spec_indices_in_range, spec_upload,
    spec_vertex_count, upload, GeometryBufferPair, GeometryModel,
};
use crate::pipeline::{
    spec_build, RenderPipeline, RenderPipelineModel, VertexBufferLayout, VertexBufferLayoutModel,
};
use vstd::prelude::*;

verus! {

/// The mathematical content of a [`State`].
pub struct StateModel {
    pub context: DeviceContextModel,
    /// How the vertex records of this renderer lie in memory.
    pub vertex_layout: VertexBufferLayoutModel,
    pub render_pipeline: Option<RenderPipelineModel>,
    pub geometry: Option<GeometryModel>,
}

impl StateModel {
    /// The context is fully configured; a pipeline, if there is one, renders
    /// to the context's format and takes vertices in the renderer's layout;
    /// a geometry, if there is one, is well-formed and holds its vertices
    /// in that layout's stride.
    pub open spec fn wf(self) -> bool {
        &&& self.context.wf()
        &&& self.render_pipeline matches Some(pipeline) ==> pipeline == spec_build(
            pipeline.shader_source,
            self.context.format,
            self.vertex_layout,
        )
        &&& self.geometry matches Some(geometry) ==> geometry.wf() && geometry.vertex_stride
            == self.vertex_layout.array_stride
    }

    /// A state with a context and nothing created on it yet.
    pub open spec fn new(
        context: DeviceContextModel,
        vertex_layout: VertexBufferLayoutModel,
    ) -> StateModel {
        StateModel { context, vertex_layout, render_pipeline: None, geometry: None }
    }

    /// The number of indices a draw call walks: that of the geometry, and
    /// zero while there is none.
    pub open spec fn num_indices(self) -> u32 {
        match self.geometry {
            Some(geometry) => geometry.index_count,
            None => 0,
        }
    }

    /// How much of a frame this state can render.
    pub open spec fn readiness(self) -> Readiness {
        spec_readiness(true, self.render_pipeline.is_some(), self.geometry.is_some())
    }

    /// The outcome of a frame, given that of the acquisition.
    pub open spec fn render(self, acquired: Result<(), SurfaceError>) -> Result<
        Seq<FrameCommand>,
        SurfaceError,
    > {
        spec_render_frame(
            self.render_pipeline.is_some(),
            self.geometry.is_some(),
            self.num_indices(),
            acquired,
        )
    }

    /// The state after an upload of `vertices` and `indices`, where
    /// `index_bytes` is the memory layout of the indices on the machine at
    /// hand.
    pub open spec fn create_mesh(
        self,
        vertices: Seq<u8>,
        indices: Seq<u16>,
        index_bytes: Seq<u8>,
    ) -> StateModel {
        StateModel {
            geometry: Some(
                spec_upload(vertices, self.vertex_layout.array_stride, indices, index_bytes),
            ),
            ..self
        }
    }

    /// The state after the pipeline was built from `shader_source`.
    pub open spec fn create_render_pipeline(self, shader_source: Seq<char>) -> StateModel {
        StateModel {
            render_pipeline: Some(
                spec_build(shader_source, self.context.format, self.vertex_layout),
            ),
            ..self
        }
    }
}

/// A renderer: the device context, and the pipeline and geometry created on
/// it, each absent until it is created.
pub struct State {
    context: DeviceContext,
    vertex_layout: VertexBufferLayout,
    render_pipeline: Option<RenderPipeline>,
    geometry: Option<GeometryBufferPair>,
}

impl View for State {
    type V = StateModel;

    closed spec fn view(&self) -> StateModel {
        StateModel {
            context: self.context@,
            vertex_layout: self.vertex_layout@,
            render_pipeline: match self.render_pipeline {
                Some(pipeline) => Some(pipeline@),
                None => None,
            },
            geometry: match self.geometry {
                Some(geometry) => Some(geometry@),
                None => None,
            },
        }
    }
}

impl State {
    #[verifier::type_invariant]
    pub open spec fn inv(self) -> bool {
        self@.wf()
    }

    /// A renderer on `context` whose vertex records lie in memory as
    /// `vertex_layout` says.  Neither pipeline nor geometry exists yet.
    pub fn new(context: DeviceContext, vertex_layout: VertexBufferLayout) -> (state: State)
        ensures
            state@ == StateModel::new(context@, vertex_layout@),
            state@.wf(),
    {
        proof {
            use_type_invariant(&context);
        }
        State { context, vertex_layout, render_pipeline: None, geometry: None }
    }

    /// Uploads the geometry to draw: the state has its buffers and index
    /// count from then on.  A geometry uploaded before is replaced as a
    /// whole; the pipeline is left as it is.
    ///
    /// The caller sees to it that every index names a vertex that
    /// `vertices` holds, and that the number of indices fits in 32 bits.
    pub fn create_mesh(&mut self, vertices: &[u8], indices: &[u16])
        requires
            indices@.len() <= u32::MAX,
            spec_indices_in_range(
                indices@,
                spec_vertex_count(vertices@.len(), old(self)@.vertex_layout.array_stride),
            ),
        ensures
            final(self)@.geometry.is_some(),
            native_encoding(indices@, final(self)@.geometry.unwrap().index_buffer.contents),
            final(self)@ == old(self)@.create_mesh(
                vertices@,
                indices@,
                final(self)@.geometry.unwrap().index_buffer.contents,
            ),
            final(self)@.num_indices() == indices@.len(),
            final(self)@.wf(),
    {
        proof {
            use_type_invariant(&*self);
        }
        let pair = upload(vertices, self.vertex_layout.array_stride, indices);
        self.geometry = Some(pair);
    }

    /// Builds the render pipeline from the shader program, for the
    /// context's presentation format and the renderer's vertex layout.  The
    /// geometry is left as it is.
    pub fn create_render_pipeline(&mut self, shader_source: &str)
        ensures
            final(self)@ == old(self)@.create_render_pipeline(shader_source@),
            final(self)@.wf(),
    {
        proof {
            use_type_invariant(&*self);
        }
        let pipeline = RenderPipeline::build(
            &self.context,
            shader_source,
            self.context.format(),
            self.vertex_layout.duplicate(),
        );
        self.render_pipeline = Some(pipeline);
    }

    /// Plans one frame.  `acquired` is the outcome of asking the surface for
    /// its next presentable image.  The state is the same afterwards,
    /// whatever the outcome.
    pub fn render(&self, acquired: Result<(), SurfaceError>) -> (frame: Result<
        Vec<FrameCommand>,
        SurfaceError,
    >)
        ensures
            match self@.render(acquired) {
                Ok(commands) => frame.is_ok() && frame.unwrap()@ == commands,
                Err(error) => frame == Err::<Vec<FrameCommand>, SurfaceError>(error),
            },
            acquired.is_ok() ==> frame.is_ok() && frame.unwrap()@ == frame_commands(
                self@.readiness(),
                self@.num_indices(),
            ),
    {
        render_frame(
            &self.context,
            self.render_pipeline.as_ref(),
            self.geometry.as_ref(),
            acquired,
        )
    }

    /// How much of a frame can be rendered: everything, or the clear only.
    pub fn readiness(&self) -> (ready: Readiness)
        ensures
            ready == self@.readiness(),
            ready != Readiness::NotReady,
    {
        if self.render_pipeline.is_some() && self.geometry.is_some() {
            Readiness::Full
        } else {
            Readiness::ClearOnly
        }
    }

    /// The number of indices a draw call walks; zero while there is no
    /// geometry.
    pub fn num_indices(&self) -> (count: u32)
        ensures
            count == self@.num_indices(),
    {
        match &self.geometry {
            Some(pair) => pair.index_count(),
            None => 0,
        }
    }

    /// The device context.
    pub fn context(&self) -> (context: &DeviceContext)
        ensures
            context@ == self@.context,
    {
        &self.context
    }

    /// How the vertex records lie in memory.
    pub fn vertex_layout(&self) -> (layout: &VertexBufferLayout)
        ensures
            layout@ == self@.vertex_layout,
    {
        &self.vertex_layout
    }

    /// The render pipeline, once it is built.
    pub fn render_pipeline(&self) -> (pipeline: Option<&RenderPipeline>)
        ensures
            match pipeline {
                Some(p) => self@.render_pipeline == Some(p@),
                None => self@.render_pipeline.is_none(),
            },
    {
        self.render_pipeline.as_ref()
    }

    /// The geometry, once it is uploaded.
    pub fn geometry(&self) -> (geometry: Option<&GeometryBufferPair>)
        ensures
            match geometry {
                Some(g) => self@.geometry == Some(g@),
                None => self@.geometry.is_none(),
            },
    {
        self.geometry.as_ref()
    }
}

/// Creating resources keeps a state well-formed, in either order, and
/// touches nothing but the resource created.
pub proof fn lemma_creation_preserves_wf(
    state: StateModel,
    vertices: Seq<u8>,
    indices: Seq<u16>,
    index_bytes: Seq<u8>,
    shader_source: Seq<char>,
)
    requires
        state.wf(),
        indices.len() <= u32::MAX,
        native_encoding(indices, index_bytes),
        spec_indices_in_range(
            indices,
            spec_vertex_count(vertices.len(), state.vertex_layout.array_stride),
        ),
    ensures
        state.create_mesh(vertices, indices, index_bytes).wf(),
        state.create_render_pipeline(shader_source).wf(),
        state.create_mesh(vertices, indices, index_bytes).render_pipeline
            == state.render_pipeline,
        state.create_render_pipeline(shader_source).geometry == state.geometry,
        state.create_mesh(vertices, indices, index_bytes).create_render_pipeline(shader_source)
            == state.create_render_pipeline(shader_source).create_mesh(
            vertices,
            indices,
            index_bytes,
        ),
{
}

/// What a full frame touches is there: in a well-formed state that has
/// both resources, the pipeline renders to the context's format and reads
/// vertices in the geometry's stride, the draw walks exactly the indices
/// that the index buffer holds, and each of them names a vertex record that
/// the vertex buffer holds in full.
pub proof fn lemma_full_frame_stays_in_bounds(state: StateModel, i: int)
    requires
        state.wf(),
        state.readiness() == Readiness::Full,
        0 <= i < state.num_indices(),
    ensures
        ({
            let pipeline = state.render_pipeline.unwrap();
            let geometry = state.geometry.unwrap();
            &&& pipeline.target_format == state.context.config().format
            &&& pipeline.vertex_buffers.len() == 1
            &&& pipeline.vertex_buffers[0].array_stride == geometry.vertex_stride
            &&& state.render(Ok(())) == Ok::<Seq<FrameCommand>, SurfaceError>(
                frame_commands(Readiness::Full, geometry.index_count),
            )
            &&& geometry.index_buffer.contents.len() == 2 * state.num_indices()
            &&& (geometry.indices[i] as nat + 1) * (geometry.vertex_stride as nat)
                <= geometry.vertex_buffer.contents.len()
        }),
{
    lemma_indexed_vertices_exist(state.geometry.unwrap(), i);
}

/// A freshly made state renders cleared frames: with an image acquired, its
/// frame succeeds, is cleared, and draws nothing.
pub proof fn lemma_new_state_clears(
    context: DeviceContextModel,
    vertex_layout: VertexBufferLayoutModel,
)
    ensures
        StateModel::new(context, vertex_layout).readiness() == Readiness::ClearOnly,
        StateModel::new(context, vertex_layout).render(Ok(())) == Ok::<
            Seq<FrameCommand>,
            SurfaceError,
        >(frame_commands(Readiness::ClearOnly, 0)),
{
}

/// Once the mesh is uploaded and the pipeline built, a frame draws as many
/// indices as were uploaded.
pub proof fn lemma_ready_state_draws_uploaded_indices(
    state: StateModel,
    vertices: Seq<u8>,
    indices: Seq<u16>,
    index_bytes: Seq<u8>,
    shader_source: Seq<char>,
)
    requires
        indices.len() <= u32::MAX,
    ensures
        ({
            let ready = state.create_mesh(vertices, indices, index_bytes).create_render_pipeline(
                shader_source,
            );
            &&& ready.readiness() == Readiness::Full
            &&& ready.num_indices() == indices.len()
            &&& ready.render(Ok(())) == Ok::<Seq<FrameCommand>, SurfaceError>(
                frame_commands(Readiness::Full, indices.len() as u32),
            )
        }),
{
}

} // verus!
