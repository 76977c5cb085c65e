use render_core::context::{DeviceContext, InitEvent, InitState, SurfaceFormat};
use render_core::error::SurfaceError;
use render_core::frame::{
    clear_color, readiness, render_frame, ClearColor, FrameCommand, Readiness,
};
use render_core::mesh::{upload, GeometryBufferPair};
use render_core::pipeline::{
    IndexFormat, RenderPipeline, VertexAttribute, VertexBufferLayout, VertexFormat,
    VertexStepMode,
};

fn context() -> DeviceContext {
    let (state, _) = InitState::start(1024, 768, false);
    let (state, _) = state.step(InitEvent::Adapter(true));
    let (state, _) = state.step(InitEvent::Device(true));
    let (state, _) = state.step(InitEvent::PreferredFormat(Some(SurfaceFormat::Bgra8UnormSrgb)));
    state.context().expect("start-up succeeded")
}

fn pipeline(context: &DeviceContext) -> RenderPipeline {
    RenderPipeline::build(
        context,
        "shader",
        context.format(),
        VertexBufferLayout {
            array_stride: 12,
            step_mode: VertexStepMode::Vertex,
            attributes: vec![VertexAttribute {
                format: VertexFormat::Float32x3,
                offset: 0,
                shader_location: 0,
            }],
        },
    )
}

fn triangle() -> GeometryBufferPair {
    upload(&[0u8; 36], 12, &[0, 1, 2])
}

fn cleared() -> Vec<FrameCommand> {
    vec![
        FrameCommand::BeginEncoding,
        FrameCommand::BeginRenderPass { clear: clear_color(), store: true },
        FrameCommand::EndRenderPass,
        FrameCommand::Submit,
        FrameCommand::Present,
    ]
}

fn drawn(index_count: u32) -> Vec<FrameCommand> {
    vec![
        FrameCommand::BeginEncoding,
        FrameCommand::BeginRenderPass { clear: clear_color(), store: true },
        FrameCommand::SetPipeline,
        FrameCommand::SetVertexBuffer { slot: 0 },
        FrameCommand::SetIndexBuffer { format: IndexFormat::Uint16 },
        FrameCommand::DrawIndexed {
            first_index: 0,
            end_index: index_count,
            base_vertex: 0,
            first_instance: 0,
            end_instance: 1,
        },
        FrameCommand::EndRenderPass,
        FrameCommand::Submit,
        FrameCommand::Present,
    ]
}

#[test]
fn clear_color_is_the_fixed_one() {
    let color = clear_color();
    assert_eq!(f64::from_bits(color.r), 0.8);
    assert_eq!(f64::from_bits(color.g), 0.2);
    assert_eq!(f64::from_bits(color.b), 0.3);
    assert_eq!(f64::from_bits(color.a), 1.0);
    assert_eq!(
        color,
        ClearColor {
            r: 0.8f64.to_bits(),
            g: 0.2f64.to_bits(),
            b: 0.3f64.to_bits(),
            a: 1.0f64.to_bits(),
        }
    );
}

#[test]
fn readiness_is_a_tri_state() {
    let context = context();
    let pipeline = pipeline(&context);
    let triangle = triangle();
    assert_eq!(readiness(None, None, None), Readiness::NotReady);
    assert_eq!(readiness(None, Some(&pipeline), Some(&triangle)), Readiness::NotReady);
    assert_eq!(readiness(Some(&context), None, None), Readiness::ClearOnly);
    assert_eq!(readiness(Some(&context), Some(&pipeline), None), Readiness::ClearOnly);
    assert_eq!(readiness(Some(&context), None, Some(&triangle)), Readiness::ClearOnly);
    assert_eq!(readiness(Some(&context), Some(&pipeline), Some(&triangle)), Readiness::Full);
}

#[test]
fn frame_without_resources_is_cleared_only() {
    let context = context();
    let frame = render_frame(&context, None, None, Ok(())).expect("the frame succeeds");
    assert_eq!(frame, cleared());
    assert!(!frame.iter().any(|c| matches!(c, FrameCommand::DrawIndexed { .. })));
    assert!(!frame.iter().any(|c| matches!(c, FrameCommand::SetPipeline)));
}

#[test]
fn frame_without_pipeline_is_cleared_only() {
    let context = context();
    let triangle = triangle();
    let frame = render_frame(&context, None, Some(&triangle), Ok(())).expect("the frame succeeds");
    assert_eq!(frame, cleared());
}

#[test]
fn frame_without_buffers_is_cleared_only() {
    let context = context();
    let pipeline = pipeline(&context);
    let frame = render_frame(&context, Some(&pipeline), None, Ok(())).expect("the frame succeeds");
    assert_eq!(frame, cleared());
}

#[test]
fn frame_with_all_resources_draws_once() {
    let context = context();
    let pipeline = pipeline(&context);
    let triangle = triangle();
    let frame = render_frame(&context, Some(&pipeline), Some(&triangle), Ok(()))
        .expect("the frame succeeds");
    assert_eq!(frame, drawn(3));
    let draws: Vec<&FrameCommand> =
        frame.iter().filter(|c| matches!(c, FrameCommand::DrawIndexed { .. })).collect();
    assert_eq!(draws.len(), 1);
    assert_eq!(
        draws[0],
        &FrameCommand::DrawIndexed {
            first_index: 0,
            end_index: triangle.index_count(),
            base_vertex: 0,
            first_instance: 0,
            end_instance: 1,
        }
    );
}

#[test]
fn draw_covers_the_uploaded_index_count() {
    let context = context();
    let pipeline = pipeline(&context);
    let quad = upload(&[0u8; 48], 12, &[0, 1, 2, 0, 2, 3]);
    let frame =
        render_frame(&context, Some(&pipeline), Some(&quad), Ok(())).expect("the frame succeeds");
    assert_eq!(frame, drawn(6));

    let empty = upload(&[], 12, &[]);
    let frame =
        render_frame(&context, Some(&pipeline), Some(&empty), Ok(())).expect("the frame succeeds");
    assert_eq!(frame, drawn(0));
}

#[test]
fn acquisition_failure_is_passed_on() {
    let context = context();
    let pipeline = pipeline(&context);
    let triangle = triangle();
    for error in [
        SurfaceError::Timeout,
        SurfaceError::Outdated,
        SurfaceError::Lost,
        SurfaceError::OutOfMemory,
    ] {
        assert_eq!(render_frame(&context, None, None, Err(error)), Err(error));
        assert_eq!(
            render_frame(&context, Some(&pipeline), Some(&triangle), Err(error)),
            Err(error)
        );
    }
}

#[test]
fn frame_steps_come_in_order() {
    let context = context();
    let pipeline = pipeline(&context);
    let triangle = triangle();
    for frame in [
        render_frame(&context, None, None, Ok(())).expect("the frame succeeds"),
        render_frame(&context, Some(&pipeline), Some(&triangle), Ok(()))
            .expect("the frame succeeds"),
    ] {
        let position = |wanted: &FrameCommand| {
            frame.iter().position(|c| c == wanted).expect("the step occurs")
        };
        let begin = position(&FrameCommand::BeginEncoding);
        let pass = position(&FrameCommand::BeginRenderPass { clear: clear_color(), store: true });
        let end = position(&FrameCommand::EndRenderPass);
        let submit = position(&FrameCommand::Submit);
        let present = position(&FrameCommand::Present);
        assert!(begin < pass && pass < end && end < submit && submit < present);
        assert_eq!(present, frame.len() - 1);
        for (at, command) in frame.iter().enumerate() {
            if matches!(
                command,
                FrameCommand::SetPipeline
                    | FrameCommand::SetVertexBuffer { .. }
                    | FrameCommand::SetIndexBuffer { .. }
                    | FrameCommand::DrawIndexed { .. }
            ) {
                assert!(pass < at && at < end);
            }
        }
    }
}
