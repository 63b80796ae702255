//! What the shell records and submits to draw one frame.

use vstd::prelude::*;

verus! {

/// Bit pattern of the double-precision number nearest to one tenth.
pub const ONE_TENTH: u64 = 0x3FB9_9999_9999_999A;

/// Bit pattern of the double-precision number nearest to two tenths.
pub const TWO_TENTHS: u64 = 0x3FC9_9999_9999_999A;

/// Bit pattern of the double-precision number nearest to three tenths.
pub const THREE_TENTHS: u64 = 0x3FD3_3333_3333_3333;

/// Bit pattern of the double-precision number one.
pub const OPAQUE: u64 = 0x3FF0_0000_0000_0000;

/// A colour, each channel given by the bit pattern of a double-precision
/// number between zero and one.
#[derive(Clone, Copy, Debug, PartialEq, Eq, Structural)]
pub struct ClearColor {
    pub r: u64,
    pub g: u64,
    pub b: u64,
    pub a: u64,
}

/// The background of every frame, a dark blue-grey.
pub open spec fn background() -> ClearColor {
    ClearColor { r: ONE_TENTH, g: TWO_TENTHS, b: THREE_TENTHS, a: OPAQUE }
}

/// One thing that the shell does to draw a frame.
#[derive(Clone, Copy, Debug, PartialEq, Eq, Structural)]
pub enum RenderCommand {
    /// Open a recording of commands.
    BeginEncoding,
    /// Begin a render pass on the frame's image, which is first cleared
    /// to `clear` and is kept when the pass ends. The pass has no depth
    /// attachment.
    BeginRenderPass { clear: ClearColor },
    /// Bind the pipeline.
    SetPipeline,
    /// Bind the whole vertex buffer, from `offset` on, to `slot`.
    SetVertexBuffer { slot: u32, offset: u64 },
    /// Draw the vertices from `first_vertex` up to, not including,
    /// `end_vertex`, once for each instance from `first_instance` up to,
    /// not including, `end_instance`.
    Draw { first_vertex: u32, end_vertex: u32, first_instance: u32, end_instance: u32 },
    /// End the render pass.
    EndRenderPass,
    /// Close the recording.
    FinishEncoding,
    /// Hand the recorded commands to the queue.
    Submit,
    /// Show the frame's image.
    Present,
}

/// The commands of a frame in which `vertex_count` vertices are drawn once:
/// one recording with one render pass and one draw call in it, then one
/// submission, then the presentation.
pub open spec fn frame(vertex_count: u32) -> Seq<RenderCommand> {
    seq![
        RenderCommand::BeginEncoding,
        RenderCommand::BeginRenderPass { clear: background() },
        RenderCommand::SetPipeline,
        RenderCommand::SetVertexBuffer { slot: 0, offset: 0 },
        RenderCommand::Draw {
            first_vertex: 0,
            end_vertex: vertex_count,
            first_instance: 0,
            end_instance: 1,
        },
        RenderCommand::EndRenderPass,
        RenderCommand::FinishEncoding,
        RenderCommand::Submit,
        RenderCommand::Present,
    ]
}

/// Position `at` holds the only occurrence of `command` in the list.
pub open spec fn occurs_once(commands: Seq<RenderCommand>, command: RenderCommand, at: int) -> bool {
    &&& 0 <= at < commands.len()
    &&& forall|k: int| 0 <= k < commands.len() ==> (#[trigger] commands[k] == command <==> k == at)
}

/// The list submits once, presents once, and submits before it presents.
pub open spec fn submits_then_presents(commands: Seq<RenderCommand>) -> bool {
    exists|s: int, p: int|
        s < p && occurs_once(commands, RenderCommand::Submit, s) && occurs_once(
            commands,
            RenderCommand::Present,
            p,
        )
}

/// However many vertices a frame draws, it submits one command buffer and
/// presents one image, in that order.
pub proof fn lemma_frame_submits_then_presents(vertex_count: u32)
    ensures
        submits_then_presents(frame(vertex_count)),
{
    let commands = frame(vertex_count);
    assert(occurs_once(commands, RenderCommand::Submit, 7));
    assert(occurs_once(commands, RenderCommand::Present, 8));
}

/// Lists the commands of a frame that draws `vertex_count` vertices.
pub fn frame_commands(vertex_count: u32) -> (commands: Vec<RenderCommand>)
    ensures
        commands@ == frame(vertex_count),
        submits_then_presents(commands@),
{
    let mut commands: Vec<RenderCommand> = Vec::new();
    commands.push(RenderCommand::BeginEncoding);
    commands.push(
        RenderCommand::BeginRenderPass {
            clear: ClearColor { r: ONE_TENTH, g: TWO_TENTHS, b: THREE_TENTHS, a: OPAQUE },
        },
    );
    commands.push(RenderCommand::SetPipeline);
    commands.push(RenderCommand::SetVertexBuffer { slot: 0, offset: 0 });
    commands.push(
        RenderCommand::Draw {
            first_vertex: 0,
            end_vertex: vertex_count,
            first_instance: 0,
            end_instance: 1,
        },
    );
    commands.push(RenderCommand::EndRenderPass);
    commands.push(RenderCommand::FinishEncoding);
    commands.push(RenderCommand::Submit);
    commands.push(RenderCommand::Present);
    proof {
        assert(commands@ =~= frame(vertex_count));
        lemma_frame_submits_then_presents(vertex_count);
    }
    commands
}

} // verus!
