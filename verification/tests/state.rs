use render_core::context::{DeviceContext, InitEvent, InitState, PhysicalSize, SurfaceFormat};
use render_core::error::{Severity, SurfaceError};
use render_core::frame::{clear_color, FrameCommand, Readiness};
use render_core::host::{frame_event, HostEvent, LoopAction, LoopState};
use render_core::mesh::{indices_in_range, vertex_count, BufferUsage};
use render_core::pipeline::{
    fixed_state, Face, FrontFace, IndexFormat, PolygonMode, PrimitiveTopology, VertexAttribute,
    VertexBufferLayout, VertexFormat, VertexStepMode,
};
use render_core::state::State;

const SHADER: &str = "@stage(vertex) fn vs_main() {} @stage(fragment) fn fs_main() {}";

fn context(width: u32, height: u32) -> DeviceContext {
    let (state, _) = InitState::start(width, height, false);
    let (state, _) = state.step(InitEvent::Adapter(true));
    let (state, _) = state.step(InitEvent::Device(true));
    let (state, _) = state.step(InitEvent::PreferredFormat(Some(SurfaceFormat::Bgra8UnormSrgb)));
    state.context().expect("start-up succeeded")
}

fn layout() -> VertexBufferLayout {
    VertexBufferLayout {
        array_stride: 12,
        step_mode: VertexStepMode::Vertex,
        attributes: vec![VertexAttribute {
            format: VertexFormat::Float32x3,
            offset: 0,
            shader_location: 0,
        }],
    }
}

fn triangle_vertices() -> Vec<u8> {
    let positions: [[f32; 3]; 3] = [[0.0, 0.5, 0.0], [-0.5, -0.5, 0.0], [0.5, -0.5, 0.0]];
    let mut bytes = Vec::new();
    for position in positions {
        for coordinate in position {
            bytes.extend_from_slice(&coordinate.to_ne_bytes());
        }
    }
    bytes
}

#[test]
fn new_state_has_no_resources() {
    let state = State::new(context(1024, 768), layout());
    assert!(state.render_pipeline().is_none());
    assert!(state.geometry().is_none());
    assert_eq!(state.num_indices(), 0);
    assert_eq!(state.readiness(), Readiness::ClearOnly);
    assert_eq!(state.context().size(), PhysicalSize { width: 1024, height: 768 });
    assert_eq!(state.vertex_layout(), &layout());
}

#[test]
fn create_mesh_records_buffers_and_index_count() {
    let mut state = State::new(context(1024, 768), layout());
    let vertices = triangle_vertices();
    state.create_mesh(&vertices, &[0, 1, 2]);
    assert_eq!(state.num_indices(), 3);
    let geometry = state.geometry().expect("the mesh was uploaded");
    assert_eq!(geometry.index_count(), 3);
    assert_eq!(geometry.vertex_count(), 3);
    assert_eq!(geometry.vertex_stride(), 12);
    assert_eq!(geometry.vertex_buffer().contents(), &vertices);
    assert_eq!(geometry.vertex_buffer().usage(), BufferUsage::Vertex);
    assert_eq!(geometry.index_buffer().usage(), BufferUsage::Index);
    let expected: Vec<u8> = [0u16, 1, 2].iter().flat_map(|i| i.to_ne_bytes()).collect();
    assert_eq!(geometry.index_buffer().contents(), &expected);
    assert!(state.render_pipeline().is_none());
    assert_eq!(state.readiness(), Readiness::ClearOnly);
}

#[test]
fn create_render_pipeline_uses_the_context_format_and_layout() {
    let mut state = State::new(context(1024, 768), layout());
    state.create_render_pipeline(SHADER);
    let pipeline = state.render_pipeline().expect("the pipeline was built");
    assert_eq!(pipeline.target_format(), SurfaceFormat::Bgra8UnormSrgb);
    assert_eq!(pipeline.target_format(), state.context().format());
    assert_eq!(pipeline.vertex_layout(), &layout());
    assert_eq!(pipeline.shader_source(), SHADER);
    assert_eq!(pipeline.fixed_state(), fixed_state());
    assert!(state.geometry().is_none());
    assert_eq!(state.num_indices(), 0);
    assert_eq!(state.readiness(), Readiness::ClearOnly);
}

#[test]
fn resources_can_be_created_in_either_order() {
    let vertices = triangle_vertices();

    let mut mesh_first = State::new(context(1024, 768), layout());
    mesh_first.create_mesh(&vertices, &[0, 1, 2]);
    mesh_first.create_render_pipeline(SHADER);

    let mut pipeline_first = State::new(context(1024, 768), layout());
    pipeline_first.create_render_pipeline(SHADER);
    pipeline_first.create_mesh(&vertices, &[0, 1, 2]);

    assert_eq!(mesh_first.readiness(), Readiness::Full);
    assert_eq!(pipeline_first.readiness(), Readiness::Full);
    assert_eq!(mesh_first.render(Ok(())), pipeline_first.render(Ok(())));
    assert_eq!(mesh_first.render_pipeline(), pipeline_first.render_pipeline());
}

#[test]
fn render_before_any_resource_clears() {
    let state = State::new(context(1024, 768), layout());
    let frame = state.render(Ok(())).expect("the frame succeeds");
    assert_eq!(
        frame,
        vec![
            FrameCommand::BeginEncoding,
            FrameCommand::BeginRenderPass { clear: clear_color(), store: true },
            FrameCommand::EndRenderPass,
            FrameCommand::Submit,
            FrameCommand::Present,
        ]
    );
}

#[test]
fn render_with_only_one_resource_clears() {
    let vertices = triangle_vertices();
    let mut only_mesh = State::new(context(1024, 768), layout());
    only_mesh.create_mesh(&vertices, &[0, 1, 2]);
    assert_eq!(only_mesh.render(Ok(())).expect("the frame succeeds").len(), 5);

    let mut only_pipeline = State::new(context(1024, 768), layout());
    only_pipeline.create_render_pipeline(SHADER);
    assert_eq!(only_pipeline.render(Ok(())).expect("the frame succeeds").len(), 5);
}

#[test]
fn triangle_on_a_1024_by_768_window() {
    let (init, _) = InitState::start(1024, 768, false);
    let (init, _) = init.step(InitEvent::Adapter(true));
    let (init, _) = init.step(InitEvent::Device(true));
    let (init, configure) =
        init.step(InitEvent::PreferredFormat(Some(SurfaceFormat::Bgra8UnormSrgb)));
    let context = init.context().expect("start-up succeeded");
    assert_eq!(context.config().width, 1024);
    assert_eq!(context.config().height, 768);
    assert_eq!(configure, render_core::context::InitAction::Configure(context.config()));

    let mut state = State::new(context, layout());
    let vertices = triangle_vertices();
    let indices: [u16; 3] = [0, 1, 2];
    assert!(indices_in_range(&indices, vertex_count(vertices.len(), 12)));
    state.create_mesh(&vertices, &indices);
    state.create_render_pipeline(SHADER);

    let frame = state.render(Ok(())).expect("the frame succeeds");
    assert_eq!(
        frame,
        vec![
            FrameCommand::BeginEncoding,
            FrameCommand::BeginRenderPass { clear: clear_color(), store: true },
            FrameCommand::SetPipeline,
            FrameCommand::SetVertexBuffer { slot: 0 },
            FrameCommand::SetIndexBuffer { format: IndexFormat::Uint16 },
            FrameCommand::DrawIndexed {
                first_index: 0,
                end_index: 3,
                base_vertex: 0,
                first_instance: 0,
                end_instance: 1,
            },
            FrameCommand::EndRenderPass,
            FrameCommand::Submit,
            FrameCommand::Present,
        ]
    );

    let primitive = state.render_pipeline().expect("built").fixed_state().primitive;
    assert_eq!(primitive.topology, PrimitiveTopology::TriangleList);
    assert_eq!(primitive.polygon_mode, PolygonMode::Fill);
    assert_eq!(primitive.cull_mode, Some(Face::Back));
    assert_eq!(primitive.front_face, FrontFace::Ccw);
}

#[test]
fn outdated_surface_is_transient_and_the_next_frame_renders() {
    let mut state = State::new(context(1024, 768), layout());
    state.create_mesh(&triangle_vertices(), &[0, 1, 2]);
    state.create_render_pipeline(SHADER);
    let before = state.render(Ok(())).expect("the frame succeeds");

    let failed = state.render(Err(SurfaceError::Outdated));
    assert_eq!(failed, Err(SurfaceError::Outdated));
    assert_eq!(SurfaceError::Outdated.severity(), Severity::Transient);

    assert_eq!(state.readiness(), Readiness::Full);
    assert_eq!(state.num_indices(), 3);
    let after = state.render(Ok(())).expect("the next frame succeeds");
    assert_eq!(after, before);
}

#[test]
fn host_loop_drives_the_renderer() {
    let mut state = State::new(context(1024, 768), layout());
    state.create_mesh(&triangle_vertices(), &[0, 1, 2]);
    state.create_render_pipeline(SHADER);

    let acquisitions = [Ok(()), Err(SurfaceError::Outdated), Ok(()), Err(SurfaceError::OutOfMemory)];
    let mut acquisitions = acquisitions.into_iter();
    let mut looping = LoopState::new();
    let mut presented = 0;
    let mut reported = Vec::new();
    let mut redraws = 0;
    while looping != LoopState::Exited && redraws < 10 {
        redraws += 1;
        let (next, action) = looping.step(HostEvent::RedrawRequested);
        looping = next;
        assert_eq!(action, LoopAction::RenderFrame);
        let outcome = state.render(acquisitions.next().expect("one outcome per frame"));
        let (next, action) = looping.step(frame_event(outcome.map(|_| ())));
        looping = next;
        match action {
            LoopAction::Wait => presented += 1,
            LoopAction::Report(error) => reported.push(error),
            LoopAction::Exit => {}
            LoopAction::RenderFrame => panic!("a frame outcome never asks for a frame"),
        }
    }
    assert_eq!(redraws, 4);
    assert_eq!(presented, 2);
    assert_eq!(reported, vec![SurfaceError::Outdated]);
    assert_eq!(looping, LoopState::Exited);
}
