//! Command streams.
//!
//! A [`RenderPass`] and a [`CommandEncoder`] record the commands of one frame
//! in the order in which they were issued. Nothing is sent to a device here:
//! the embedding renderer replays the streams, one command at a time, and the
//! order of the stream is the only ordering between the commands.

use vstd::prelude::*;
use crate::handles::{BindGroupHandle, BufferHandle, PipelineHandle};
use crate::resources::MeshRange;

verus! {

/// One command of a render pass.
#[derive(Clone, Copy, Debug, PartialEq, Eq, Structural)]
pub enum RenderCommand {
    /// Use `buffer` as the vertex buffer of `slot`.
    SetVertexBuffer { slot: u32, buffer: BufferHandle },
    /// Use `buffer` as the index buffer.
    SetIndexBuffer { buffer: BufferHandle },
    /// Use `pipeline` for the draws that follow.
    SetPipeline { pipeline: PipelineHandle },
    /// Bind `group` at bind-group slot `slot`.
    SetBindGroup { slot: u32, group: BindGroupHandle },
    /// Draw the indices of `range` once for each of `instance_count`
    /// instances, starting at instance `first_instance`.
    DrawIndexed { range: MeshRange, first_instance: usize, instance_count: usize },
    /// Draw what the device wrote: up to `max_count` indexed draws whose
    /// arguments are read from `indirect_buffer` and whose number is read from
    /// `count_buffer`.
    MultiDrawIndexedIndirectCount {
        indirect_buffer: BufferHandle,
        count_buffer: BufferHandle,
        max_count: u32,
    },
}

/// The commands of one render pass, oldest first.
pub struct RenderPass {
    commands: Vec<RenderCommand>,
}

impl View for RenderPass {
    type V = Seq<RenderCommand>;

    closed spec fn view(&self) -> Seq<RenderCommand> {
        self.commands@
    }
}

impl RenderPass {
    /// A render pass with no commands.
    pub fn new() -> (pass: RenderPass)
        ensures
            pass@ == Seq::<RenderCommand>::empty(),
    {
        RenderPass { commands: Vec::new() }
    }

    /// The commands recorded so far, oldest first.
    pub fn commands(&self) -> (commands: &Vec<RenderCommand>)
        ensures
            commands@ == self@,
    {
        &self.commands
    }

    /// Appends one command.
    pub fn record(&mut self, command: RenderCommand)
        ensures
            final(self)@ == old(self)@.push(command),
    {
        self.commands.push(command);
    }

    /// Records that `buffer` becomes the vertex buffer of `slot`.
    pub fn set_vertex_buffer(&mut self, slot: u32, buffer: BufferHandle)
        ensures
            final(self)@ == old(self)@.push(RenderCommand::SetVertexBuffer { slot, buffer }),
    {
        self.record(RenderCommand::SetVertexBuffer { slot, buffer });
    }

    /// Records that `buffer` becomes the index buffer.
    pub fn set_index_buffer(&mut self, buffer: BufferHandle)
        ensures
            final(self)@ == old(self)@.push(RenderCommand::SetIndexBuffer { buffer }),
    {
        self.record(RenderCommand::SetIndexBuffer { buffer });
    }

    /// Records that `pipeline` becomes the active pipeline.
    pub fn set_pipeline(&mut self, pipeline: PipelineHandle)
        ensures
            final(self)@ == old(self)@.push(RenderCommand::SetPipeline { pipeline }),
    {
        self.record(RenderCommand::SetPipeline { pipeline });
    }

    /// Records that `group` is bound at `slot`.
    pub fn set_bind_group(&mut self, slot: u32, group: BindGroupHandle)
        ensures
            final(self)@ == old(self)@.push(RenderCommand::SetBindGroup { slot, group }),
    {
        self.record(RenderCommand::SetBindGroup { slot, group });
    }

    /// Records one instanced, indexed draw.
    pub fn draw_indexed(&mut self, range: MeshRange, first_instance: usize, instance_count: usize)
        ensures
            final(self)@ == old(self)@.push(
                RenderCommand::DrawIndexed { range, first_instance, instance_count },
            ),
    {
        self.record(RenderCommand::DrawIndexed { range, first_instance, instance_count });
    }

    /// Records one multi-draw whose arguments and count the device supplies.
    pub fn multi_draw_indexed_indirect_count(
        &mut self,
        indirect_buffer: BufferHandle,
        count_buffer: BufferHandle,
        max_count: u32,
    )
        ensures
            final(self)@ == old(self)@.push(
                RenderCommand::MultiDrawIndexedIndirectCount {
                    indirect_buffer,
                    count_buffer,
                    max_count,
                },
            ),
    {
        self.record(
            RenderCommand::MultiDrawIndexedIndirectCount { indirect_buffer, count_buffer, max_count },
        );
    }
}

/// One command of a command encoder.
#[derive(Clone, Copy, Debug, PartialEq, Eq, Structural)]
pub enum EncoderCommand {
    /// Open a compute pass.
    BeginComputePass,
    /// Use `pipeline` for the dispatches that follow.
    SetPipeline { pipeline: PipelineHandle },
    /// Bind `group` at bind-group slot `slot`.
    SetBindGroup { slot: u32, group: BindGroupHandle },
    /// Run the active pipeline on `workgroups` workgroups.
    Dispatch { workgroups: u32 },
    /// Close the compute pass.
    EndComputePass,
}

/// The commands that precede the render passes of a frame, oldest first.
pub struct CommandEncoder {
    commands: Vec<EncoderCommand>,
}

impl View for CommandEncoder {
    type V = Seq<EncoderCommand>;

    closed spec fn view(&self) -> Seq<EncoderCommand> {
        self.commands@
    }
}

impl CommandEncoder {
    /// An encoder with no commands.
    pub fn new() -> (encoder: CommandEncoder)
        ensures
            encoder@ == Seq::<EncoderCommand>::empty(),
    {
        CommandEncoder { commands: Vec::new() }
    }

    /// The commands recorded so far, oldest first.
    pub fn commands(&self) -> (commands: &Vec<EncoderCommand>)
        ensures
            commands@ == self@,
    {
        &self.commands
    }

    /// Appends one command.
    pub fn record(&mut self, command: EncoderCommand)
        ensures
            final(self)@ == old(self)@.push(command),
    {
        self.commands.push(command);
    }
}

} // verus!
