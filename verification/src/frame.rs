//! One frame: acquire, record, draw if there is something to draw, submit,
//! present.
//!
//! The host acquires the next presentable image and hands the outcome to
//! [`render_frame`]; what comes back is the list of commands to carry out on
//! that image, in order, or the failure to pass on.

use crate::context::DeviceContext;
use crate::error::SurfaceError;
use crate::mesh::GeometryBufferPair;
use crate::pipeline::{IndexFormat, RenderPipeline};
use vstd::prelude::*;

verus! {

/// A colour, each channel given as the bit pattern of an IEEE 754
/// double-precision number.
#[derive(Clone, Copy, Debug, PartialEq, Eq, Structural)]
pub struct ClearColor {
    pub r: u64,
    pub g: u64,
    pub b: u64,
    pub a: u64,
}

/// The colour every frame is cleared to: red 0.8, green 0.2, blue 0.3,
/// opaque.
pub open spec fn spec_clear_color() -> ClearColor {
    ClearColor {
        r: 0x3FE9_9999_9999_999A,
        g: 0x3FC9_9999_9999_999A,
        b: 0x3FD3_3333_3333_3333,
        a: 0x3FF0_0000_0000_0000,
    }
}

#[verifier::when_used_as_spec(spec_clear_color)]
pub fn clear_color() -> (color: ClearColor)
    ensures
        color == spec_clear_color(),
{
    ClearColor {
        r: 0x3FE9_9999_9999_999A,
        g: 0x3FC9_9999_9999_999A,
        b: 0x3FD3_3333_3333_3333,
        a: 0x3FF0_0000_0000_0000,
    }
}

/// How much of a frame can be rendered with what is there.
#[derive(Clone, Copy, Debug, PartialEq, Eq, Structural)]
pub enum Readiness {
    /// There is no device context: no frame can be rendered.
    NotReady,
    /// The pipeline or the geometry is missing: the frame is cleared and
    /// presented, nothing is drawn.
    ClearOnly,
    /// Everything is there: the frame is cleared and the geometry drawn.
    Full,
}

/// One command of a frame.
#[derive(Clone, Copy, Debug, PartialEq, Eq, Structural)]
pub enum FrameCommand {
    /// Open a command-recording scope.
    BeginEncoding,
    /// Begin a render pass on the whole of the acquired image: clear it to
    /// `clear` on load, and keep what is rendered if `store` is set.
    BeginRenderPass { clear: ClearColor, store: bool },
    /// Bind the render pipeline.
    SetPipeline,
    /// Bind the whole vertex buffer at `slot`.
    SetVertexBuffer { slot: u32 },
    /// Bind the whole index buffer, its indices being of `format`.
    SetIndexBuffer { format: IndexFormat },
    /// Draw the indices from `first_index` up to, not including,
    /// `end_index`, for the instances from `first_instance` up to
    /// `end_instance`.
    DrawIndexed {
        first_index: u32,
        end_index: u32,
        base_vertex: i32,
        first_instance: u32,
        end_instance: u32,
    },
    /// End the render pass.
    EndRenderPass,
    /// Close the recording scope and submit its commands to the queue.
    Submit,
    /// Hand the image back to the surface for display.
    Present,
}

impl FrameCommand {
    /// The step of a frame that a command belongs to: recording begins (0),
    /// the pass begins (1), drawing (2), the pass ends (3), submission (4),
    /// presentation (5).
    pub open spec fn stage(self) -> nat {
        match self {
            FrameCommand::BeginEncoding => 0,
            FrameCommand::BeginRenderPass { .. } => 1,
            FrameCommand::SetPipeline => 2,
            FrameCommand::SetVertexBuffer { .. } => 2,
            FrameCommand::SetIndexBuffer { .. } => 2,
            FrameCommand::DrawIndexed { .. } => 2,
            FrameCommand::EndRenderPass => 3,
            FrameCommand::Submit => 4,
            FrameCommand::Present => 5,
        }
    }
}

/// Some command of `commands` belongs to the step `stage`.
pub open spec fn reaches_stage(commands: Seq<FrameCommand>, stage: nat) -> bool {
    exists|i: int| 0 <= i < commands.len() && (#[trigger] commands[i]).stage() == stage
}

/// What is there decides what can be rendered.
pub open spec fn spec_readiness(context: bool, pipeline: bool, buffers: bool) -> Readiness {
    if !context {
        Readiness::NotReady
    } else if pipeline && buffers {
        Readiness::Full
    } else {
        Readiness::ClearOnly
    }
}

/// The one draw of a frame: pipeline, vertex buffer at slot 0, 16-bit index
/// buffer, then all `index_count` indices once.
pub open spec fn draw_commands(index_count: u32) -> Seq<FrameCommand> {
    seq![
        FrameCommand::SetPipeline,
        FrameCommand::SetVertexBuffer { slot: 0 },
        FrameCommand::SetIndexBuffer { format: IndexFormat::Uint16 },
        FrameCommand::DrawIndexed {
            first_index: 0,
            end_index: index_count,
            base_vertex: 0,
            first_instance: 0,
            end_instance: 1,
        },
    ]
}

/// The commands of a frame on an acquired image.
pub open spec fn frame_commands(readiness: Readiness, index_count: u32) -> Seq<FrameCommand> {
    let opening = seq![
        FrameCommand::BeginEncoding,
        FrameCommand::BeginRenderPass { clear: spec_clear_color(), store: true },
    ];
    let closing = seq![FrameCommand::EndRenderPass, FrameCommand::Submit, FrameCommand::Present];
    match readiness {
        Readiness::NotReady => Seq::empty(),
        Readiness::ClearOnly => opening + closing,
        Readiness::Full => opening + draw_commands(index_count) + closing,
    }
}

/// The number of indices a draw call would walk.
pub open spec fn spec_index_count(buffers: Option<&GeometryBufferPair>) -> u32 {
    match buffers {
        Some(pair) => pair@.index_count,
        None => 0,
    }
}

/// What a frame is to [`render_frame`]: the failure of the acquisition, if
/// it failed, and else the commands for what is there.
pub open spec fn spec_render_frame(
    pipeline: bool,
    buffers: bool,
    index_count: u32,
    acquired: Result<(), SurfaceError>,
) -> Result<Seq<FrameCommand>, SurfaceError> {
    match acquired {
        Err(error) => Err(error),
        Ok(_) => Ok(frame_commands(spec_readiness(true, pipeline, buffers), index_count)),
    }
}

/// Says how much of a frame can be rendered with what is there.
pub fn readiness(
    context: Option<&DeviceContext>,
    pipeline: Option<&RenderPipeline>,
    buffers: Option<&GeometryBufferPair>,
) -> (ready: Readiness)
    ensures
        ready == spec_readiness(context.is_some(), pipeline.is_some(), buffers.is_some()),
{
    if context.is_none() {
        Readiness::NotReady
    } else if pipeline.is_some() && buffers.is_some() {
        Readiness::Full
    } else {
        Readiness::ClearOnly
    }
}

/// Plans one frame.  `acquired` is the outcome of asking the surface of
/// `context` for its next presentable image.
///
/// A failed acquisition is passed on as it is.  Otherwise the frame is
/// recorded, submitted and presented; it draws the geometry if both the
/// pipeline and the buffers are there, and is only cleared if not.
pub fn render_frame(
    context: &DeviceContext,
    pipeline: Option<&RenderPipeline>,
    buffers: Option<&GeometryBufferPair>,
    acquired: Result<(), SurfaceError>,
) -> (frame: Result<Vec<FrameCommand>, SurfaceError>)
    ensures
        match spec_render_frame(
            pipeline.is_some(),
            buffers.is_some(),
            spec_index_count(buffers),
            acquired,
        ) {
            Ok(commands) => frame.is_ok() && frame.unwrap()@ == commands,
            Err(error) => frame == Err::<Vec<FrameCommand>, SurfaceError>(error),
        },
{
    if let Err(error) = acquired {
        return Err(error);
    }
    let mut commands: Vec<FrameCommand> = Vec::new();
    commands.push(FrameCommand::BeginEncoding);
    commands.push(FrameCommand::BeginRenderPass { clear: clear_color(), store: true });
    if let (Some(_), Some(pair)) = (pipeline, buffers) {
        commands.push(FrameCommand::SetPipeline);
        commands.push(FrameCommand::SetVertexBuffer { slot: 0 });
        commands.push(FrameCommand::SetIndexBuffer { format: IndexFormat::Uint16 });
        commands.push(
            FrameCommand::DrawIndexed {
                first_index: 0,
                end_index: pair.index_count(),
                base_vertex: 0,
                first_instance: 0,
                end_instance: 1,
            },
        );
    }
    commands.push(FrameCommand::EndRenderPass);
    commands.push(FrameCommand::Submit);
    commands.push(FrameCommand::Present);
    assert(commands@ =~= frame_commands(
        spec_readiness(true, pipeline.is_some(), buffers.is_some()),
        spec_index_count(buffers),
    ));
    Ok(commands)
}

/// With the pipeline or the buffers missing, a frame whose image was
/// acquired succeeds all the same: it clears to the fixed colour, keeps the
/// result, and draws nothing.
pub proof fn lemma_clear_only_frame(pipeline: bool, buffers: bool, index_count: u32)
    requires
        !(pipeline && buffers),
    ensures
        spec_render_frame(pipeline, buffers, index_count, Ok(())) matches Ok(commands) && {
            &&& commands == frame_commands(Readiness::ClearOnly, index_count)
            &&& commands.len() == 5
            &&& commands[1] == FrameCommand::BeginRenderPass {
                clear: spec_clear_color(),
                store: true,
            }
            &&& forall|i: int|
                0 <= i < commands.len() ==> (#[trigger] commands[i]).stage() != 2
        },
{
}

/// With everything there, a frame whose image was acquired issues exactly
/// one indexed draw: of all `index_count` indices from the first, no vertex
/// offset, a single instance.
pub proof fn lemma_full_frame_draws_once(index_count: u32)
    ensures
        spec_render_frame(true, true, index_count, Ok(())) matches Ok(commands) && {
            &&& commands == frame_commands(Readiness::Full, index_count)
            &&& exists|i: int|
                0 <= i < commands.len() && #[trigger] commands[i] == (FrameCommand::DrawIndexed {
                    first_index: 0,
                    end_index: index_count,
                    base_vertex: 0,
                    first_instance: 0,
                    end_instance: 1,
                })
            &&& forall|i: int, j: int|
                0 <= i < commands.len() && 0 <= j < commands.len()
                    && #[trigger] commands[i] is DrawIndexed
                    && #[trigger] commands[j] is DrawIndexed ==> i == j
        },
{
    let commands = frame_commands(Readiness::Full, index_count);
    assert(commands.len() == 9);
    assert(commands[5] == (FrameCommand::DrawIndexed {
        first_index: 0,
        end_index: index_count,
        base_vertex: 0,
        first_instance: 0,
        end_instance: 1,
    }));
}

/// The steps of a frame come in their order and none is left out: along
/// the commands the stage never goes back, recording, pass begin, pass end,
/// submission and presentation each occur exactly once, and presentation is
/// last.
pub proof fn lemma_frame_steps_in_order(readiness: Readiness, index_count: u32)
    requires
        readiness != Readiness::NotReady,
    ensures
        ({
            let commands = frame_commands(readiness, index_count);
            &&& forall|i: int, j: int|
                0 <= i <= j < commands.len() ==> (#[trigger] commands[i]).stage() <= (
                #[trigger] commands[j]).stage()
            &&& reaches_stage(commands, 0)
            &&& reaches_stage(commands, 1)
            &&& reaches_stage(commands, 3)
            &&& reaches_stage(commands, 4)
            &&& reaches_stage(commands, 5)
            &&& forall|i: int, j: int|
                0 <= i < commands.len() && 0 <= j < commands.len() && (
                #[trigger] commands[i]).stage() == (#[trigger] commands[j]).stage()
                    && commands[i].stage() != 2 ==> i == j
            &&& commands.last() == FrameCommand::Present
        }),
{
    let commands = frame_commands(readiness, index_count);
    match readiness {
        Readiness::Full => {
            assert(commands.len() == 9);
            assert(commands[0].stage() == 0);
            assert(commands[1].stage() == 1);
            assert(commands[6].stage() == 3);
            assert(commands[7].stage() == 4);
            assert(commands[8].stage() == 5);
        },
        _ => {
            assert(commands.len() == 5);
            assert(commands[0].stage() == 0);
            assert(commands[1].stage() == 1);
            assert(commands[2].stage() == 3);
            assert(commands[3].stage() == 4);
            assert(commands[4].stage() == 5);
        },
    }
}

/// A failed acquisition is the whole outcome of the frame, whatever is
/// there to draw.
pub proof fn lemma_acquisition_failure_propagates(
    pipeline: bool,
    buffers: bool,
    index_count: u32,
    error: SurfaceError,
)
    ensures
        spec_render_frame(pipeline, buffers, index_count, Err(error)) == Err::<
            Seq<FrameCommand>,
            SurfaceError,
        >(error),
{
}

} // verus!
