//! The commands of a frame's render pass, in the order they are recorded.

use vstd::prelude::*;
use crate::renderer::{ClearColor, DrawPlan};

verus! {

/// What a descriptor set carries.
#[derive(Clone, Copy, Debug, PartialEq, Eq, Structural)]
pub enum DescriptorContent {
    /// The uniform record of this frame, in a fresh slot of the pool.
    FrameUniforms,
    /// The texture of the blocks with its sampler.
    TextureAndSampler,
}

/// The vertex streams of the resource set.
#[derive(Clone, Copy, Debug, PartialEq, Eq, Structural)]
pub enum VertexStream {
    Position,
    Normal,
    TexCoord,
    InstanceOffset,
}

/// One recorded command.
#[derive(Clone, Copy, Debug, PartialEq, Eq, Structural)]
pub enum Command {
    BeginRenderPass { framebuffer: u32, clear_color: ClearColor, clear_depth: u8 },
    BindPipeline,
    BindDescriptorSet { set: u32, content: DescriptorContent },
    BindVertexStream { binding: u32, stream: VertexStream },
    BindIndexStream,
    /// One indexed, instanced draw that starts at the first index, vertex
    /// and instance.
    DrawIndexed { index_count: u32, instance_count: u32 },
    EndRenderPass,
}

/// Place of the draw among the commands of a pass.
pub const DRAW_POSITION: usize = 9;

/// The render pass of a plan: clear the framebuffer, bind the pipeline, the
/// two descriptor sets, the four vertex streams and the index stream, draw
/// everything once and end the pass.
pub open spec fn pass_commands(plan: DrawPlan) -> Seq<Command> {
    seq![
        Command::BeginRenderPass {
            framebuffer: plan.framebuffer,
            clear_color: plan.clear_color,
            clear_depth: plan.clear_depth,
        },
        Command::BindPipeline,
        Command::BindDescriptorSet { set: 0, content: DescriptorContent::FrameUniforms },
        Command::BindDescriptorSet { set: 1, content: DescriptorContent::TextureAndSampler },
        Command::BindVertexStream { binding: 0, stream: VertexStream::Position },
        Command::BindVertexStream { binding: 1, stream: VertexStream::Normal },
        Command::BindVertexStream { binding: 2, stream: VertexStream::TexCoord },
        Command::BindVertexStream { binding: 3, stream: VertexStream::InstanceOffset },
        Command::BindIndexStream,
        Command::DrawIndexed {
            index_count: plan.index_count,
            instance_count: plan.instance_count,
        },
        Command::EndRenderPass,
    ]
}

/// Lists the commands of the render pass of `plan`, in recording order.
pub fn record_pass(plan: &DrawPlan) -> (commands: Vec<Command>)
    ensures
        commands@ == pass_commands(*plan),
{
    let mut commands: Vec<Command> = Vec::new();
    commands.push(
        Command::BeginRenderPass {
            framebuffer: plan.framebuffer,
            clear_color: plan.clear_color,
            clear_depth: plan.clear_depth,
        },
    );
    commands.push(Command::BindPipeline);
    commands.push(Command::BindDescriptorSet { set: 0, content: DescriptorContent::FrameUniforms });
    commands.push(
        Command::BindDescriptorSet { set: 1, content: DescriptorContent::TextureAndSampler },
    );
    commands.push(Command::BindVertexStream { binding: 0, stream: VertexStream::Position });
    commands.push(Command::BindVertexStream { binding: 1, stream: VertexStream::Normal });
    commands.push(Command::BindVertexStream { binding: 2, stream: VertexStream::TexCoord });
    commands.push(Command::BindVertexStream { binding: 3, stream: VertexStream::InstanceOffset });
    commands.push(Command::BindIndexStream);
    commands.push(
        Command::DrawIndexed { index_count: plan.index_count, instance_count: plan.instance_count },
    );
    commands.push(Command::EndRenderPass);
    assert(commands@ =~= pass_commands(*plan));
    commands
}

/// A render pass holds exactly one draw, and that draw covers every index
/// and every instance of the plan.
pub proof fn pass_draws_everything_once(plan: DrawPlan)
    ensures
        pass_commands(plan).len() == 11,
        pass_commands(plan)[DRAW_POSITION as int] == (Command::DrawIndexed {
            index_count: plan.index_count,
            instance_count: plan.instance_count,
        }),
        forall|i: int|
            0 <= i < pass_commands(plan).len() && i != DRAW_POSITION ==> !(
            #[trigger] pass_commands(plan)[i] is DrawIndexed),
        pass_commands(plan).first() is BeginRenderPass,
        pass_commands(plan).last() is EndRenderPass,
{
}

} // verus!
