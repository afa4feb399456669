use vstd::prelude::*;
use crate::device::backend::Device;
use crate::device::buffer::BufferHandle;
use crate::device::descriptor_set::DescriptorSetHandle;
use crate::device::fence::Fence;
use crate::device::image::ImageHandle;
use crate::device::pipeline::{PipelineHandle, PipelineLayoutHandle};
use crate::device::raw_handle::{
    one, AsRawHandle, Create, Destroy, FramebufferHandle, Gpu, ObjectKind, Owned, RawHandle,
    RenderPassHandle, Request, requested,
};
use crate::device::semaphore::SemaphoreHandle;
use crate::device::types::{
    BufferImageCopy, ImageBlit, ImageCopy, ImageMemoryBarrier, RenderPassBeginInfo,
};
use crate::error::{Error, VkError};

verus! {

/// The handle of a command buffer.
#[derive(Clone, Copy, PartialEq, Eq, Structural, Debug)]
pub struct CommandBufferHandle(pub u64);

impl RawHandle for CommandBufferHandle {
    open spec fn kind() -> ObjectKind {
        ObjectKind::CommandBuffer
    }
}

impl<D: Device> Create<D, ()> for CommandBufferHandle {
    fn create(device: &mut D, info: ()) -> core::result::Result<Self, VkError> {
        device.allocate_command_buffer()
    }
}

impl<D: Device> Destroy<D> for CommandBufferHandle {
    fn destroy(self, device: &mut D) {
        device.free_command_buffer(self)
    }
}

/// One recorded command.
#[allow(inconsistent_fields)]
pub enum Command {
    BeginRenderPass(RenderPassBeginInfo),
    EndRenderPass,
    CopyBufferToImage {
        src_buffer: BufferHandle,
        dst_image: ImageHandle,
        dst_image_layout: i32,
        regions: Vec<BufferImageCopy>,
    },
    CopyImage {
        src_image: ImageHandle,
        src_image_layout: i32,
        dst_image: ImageHandle,
        dst_image_layout: i32,
        regions: Vec<ImageCopy>,
    },
    BlitImage {
        src_image: ImageHandle,
        src_image_layout: i32,
        dst_image: ImageHandle,
        dst_image_layout: i32,
        regions: Vec<ImageBlit>,
        filter: i32,
    },
    PipelineBarrier { src_stage_mask: u32, dst_stage_mask: u32, barriers: Vec<ImageMemoryBarrier> },
    /// A viewport at the origin with depth from 0 to 1.
    SetViewport { width: u32, height: u32 },
    /// A scissor rectangle at the origin.
    SetScissor { width: u32, height: u32 },
    BindPipeline { pipeline: PipelineHandle },
    BindDescriptorSet { layout: PipelineLayoutHandle, set_index: u32, set: DescriptorSetHandle },
    PushConstants { layout: PipelineLayoutHandle, stage_flags: u32, offset: u32, data: Vec<u8> },
    /// Binds the whole of `buffer` as vertex buffer `binding`.
    BindVertexBuffer { binding: u32, buffer: BufferHandle },
    /// Binds the whole of `buffer` as the index buffer.
    BindIndexBuffer { buffer: BufferHandle, index_type: i32 },
    /// Draws one instance of `vertex_count` vertices.
    Draw { vertex_count: u32 },
    /// Draws one instance of `index_count` indices.
    DrawIndexed { index_count: u32 },
}

/// A recorded command as a mathematical value.
#[allow(inconsistent_fields)]
pub enum CommandView {
    BeginRenderPass {
        render_pass: RenderPassHandle,
        framebuffer: FramebufferHandle,
        width: u32,
        height: u32,
        clear_values: Seq<[u32; 4]>,
    },
    EndRenderPass,
    CopyBufferToImage {
        src_buffer: BufferHandle,
        dst_image: ImageHandle,
        dst_image_layout: i32,
        regions: Seq<BufferImageCopy>,
    },
    CopyImage {
        src_image: ImageHandle,
        src_image_layout: i32,
        dst_image: ImageHandle,
        dst_image_layout: i32,
        regions: Seq<ImageCopy>,
    },
    BlitImage {
        src_image: ImageHandle,
        src_image_layout: i32,
        dst_image: ImageHandle,
        dst_image_layout: i32,
        regions: Seq<ImageBlit>,
        filter: i32,
    },
    PipelineBarrier { src_stage_mask: u32, dst_stage_mask: u32, barriers: Seq<ImageMemoryBarrier> },
    SetViewport { width: u32, height: u32 },
    SetScissor { width: u32, height: u32 },
    BindPipeline { pipeline: PipelineHandle },
    BindDescriptorSet { layout: PipelineLayoutHandle, set_index: u32, set: DescriptorSetHandle },
    PushConstants { layout: PipelineLayoutHandle, stage_flags: u32, offset: u32, data: Seq<u8> },
    BindVertexBuffer { binding: u32, buffer: BufferHandle },
    BindIndexBuffer { buffer: BufferHandle, index_type: i32 },
    Draw { vertex_count: u32 },
    DrawIndexed { index_count: u32 },
}

impl View for Command {
    type V = CommandView;

    open spec fn view(&self) -> CommandView {
        match *self {
            Command::BeginRenderPass(info) => CommandView::BeginRenderPass {
                render_pass: info.render_pass,
                framebuffer: info.framebuffer,
                width: info.width,
                height: info.height,
                clear_values: info.clear_values@,
            },
            Command::EndRenderPass => CommandView::EndRenderPass,
            Command::CopyBufferToImage { src_buffer, dst_image, dst_image_layout, regions } => {
                CommandView::CopyBufferToImage {
                    src_buffer,
                    dst_image,
                    dst_image_layout,
                    regions: regions@,
                }
            },
            Command::CopyImage {
                src_image,
                src_image_layout,
                dst_image,
                dst_image_layout,
                regions,
            } => CommandView::CopyImage {
                src_image,
                src_image_layout,
                dst_image,
                dst_image_layout,
                regions: regions@,
            },
            Command::BlitImage {
                src_image,
                src_image_layout,
                dst_image,
                dst_image_layout,
                regions,
                filter,
            } => CommandView::BlitImage {
                src_image,
                src_image_layout,
                dst_image,
                dst_image_layout,
                regions: regions@,
                filter,
            },
            Command::PipelineBarrier { src_stage_mask, dst_stage_mask, barriers } => {
                CommandView::PipelineBarrier { src_stage_mask, dst_stage_mask, barriers: barriers@ }
            },
            Command::SetViewport { width, height } => CommandView::SetViewport { width, height },
            Command::SetScissor { width, height } => CommandView::SetScissor { width, height },
            Command::BindPipeline { pipeline } => CommandView::BindPipeline { pipeline },
            Command::BindDescriptorSet { layout, set_index, set } => {
                CommandView::BindDescriptorSet { layout, set_index, set }
            },
            Command::PushConstants { layout, stage_flags, offset, data } => {
                CommandView::PushConstants { layout, stage_flags, offset, data: data@ }
            },
            Command::BindVertexBuffer { binding, buffer } => CommandView::BindVertexBuffer {
                binding,
                buffer,
            },
            Command::BindIndexBuffer { buffer, index_type } => CommandView::BindIndexBuffer {
                buffer,
                index_type,
            },
            Command::Draw { vertex_count } => CommandView::Draw { vertex_count },
            Command::DrawIndexed { index_count } => CommandView::DrawIndexed { index_count },
        }
    }
}

/// The states a command buffer goes through.
#[derive(Clone, Copy, PartialEq, Eq, Structural, Debug)]
pub enum CommandBufferState {
    /// Allocated; nothing may be recorded yet.
    Initial,
    /// Open for commands, outside a render pass.
    Recording,
    /// Open for commands, inside a render pass.
    RenderPass,
    /// Closed; ready to be submitted.
    Executable,
    /// Handed to the queue.
    Pending,
}

/// What can be done to a command buffer.
#[derive(Clone, Copy, PartialEq, Eq, Structural, Debug)]
pub enum CommandOp {
    Begin,
    /// A command that belongs outside a render pass: a copy, a blit, a
    /// barrier, setting viewport and scissor.
    Transfer,
    BeginRenderPass,
    /// A command that belongs inside a render pass: a draw, a bind, a push
    /// of constants.
    Draw,
    EndRenderPass,
    End,
    Submit,
}

/// The state that `op` leads to from `state`, and `None` where `op` is not
/// allowed in `state`.
pub open spec fn step(state: CommandBufferState, op: CommandOp) -> Option<CommandBufferState> {
    match (state, op) {
        (CommandBufferState::Initial, CommandOp::Begin) => Some(CommandBufferState::Recording),
        (CommandBufferState::Recording, CommandOp::Transfer) => Some(CommandBufferState::Recording),
        (CommandBufferState::Recording, CommandOp::BeginRenderPass) => Some(
            CommandBufferState::RenderPass,
        ),
        (CommandBufferState::RenderPass, CommandOp::Draw) => Some(CommandBufferState::RenderPass),
        (CommandBufferState::RenderPass, CommandOp::EndRenderPass) => Some(
            CommandBufferState::Recording,
        ),
        (CommandBufferState::Recording, CommandOp::End) => Some(CommandBufferState::Executable),
        (CommandBufferState::Executable, CommandOp::Submit) => Some(CommandBufferState::Pending),
        _ => None,
    }
}

/// What recording `command` does to a command buffer.
pub open spec fn op_of(command: CommandView) -> CommandOp {
    match command {
        CommandView::BeginRenderPass { .. } => CommandOp::BeginRenderPass,
        CommandView::EndRenderPass => CommandOp::EndRenderPass,
        CommandView::CopyBufferToImage { .. } => CommandOp::Transfer,
        CommandView::CopyImage { .. } => CommandOp::Transfer,
        CommandView::BlitImage { .. } => CommandOp::Transfer,
        CommandView::PipelineBarrier { .. } => CommandOp::Transfer,
        CommandView::SetViewport { .. } => CommandOp::Transfer,
        CommandView::SetScissor { .. } => CommandOp::Transfer,
        CommandView::BindPipeline { .. } => CommandOp::Draw,
        CommandView::BindDescriptorSet { .. } => CommandOp::Draw,
        CommandView::PushConstants { .. } => CommandOp::Draw,
        CommandView::BindVertexBuffer { .. } => CommandOp::Draw,
        CommandView::BindIndexBuffer { .. } => CommandOp::Draw,
        CommandView::Draw { .. } => CommandOp::Draw,
        CommandView::DrawIndexed { .. } => CommandOp::Draw,
    }
}

/// The state of a command buffer that was begun and then took `commands`
/// in order, and `None` if one of them was not allowed where it stands.
pub open spec fn state_after(commands: Seq<CommandView>) -> Option<CommandBufferState>
    decreases commands.len(),
{
    if commands.len() == 0 {
        step(CommandBufferState::Initial, CommandOp::Begin)
    } else {
        match state_after(commands.drop_last()) {
            Some(state) => step(state, op_of(commands.last())),
            None => None,
        }
    }
}

/// A command buffer becomes pending only by submitting an executable one,
/// and executable only by ending one that records outside a render pass.
pub proof fn lemma_only_path_to_pending(state: CommandBufferState, op: CommandOp)
    ensures
        step(state, op) == Some(CommandBufferState::Pending) <==> (state
            == CommandBufferState::Executable && op == CommandOp::Submit),
        step(state, op) == Some(CommandBufferState::Executable) <==> (state
            == CommandBufferState::Recording && op == CommandOp::End),
{
}

/// A command that belongs inside a render pass is allowed only there, and
/// nothing but beginning a render pass leads there from outside.
pub proof fn lemma_pass_scoped_commands(state: CommandBufferState, op: CommandOp)
    ensures
        step(state, CommandOp::Draw) is Some <==> state == CommandBufferState::RenderPass,
        step(state, op) == Some(CommandBufferState::RenderPass) && state
            != CommandBufferState::RenderPass ==> state == CommandBufferState::Recording && op
            == CommandOp::BeginRenderPass,
{
}

/// In a sequence of commands that a command buffer accepted, every command
/// that belongs inside a render pass stands where the buffer was inside one.
pub proof fn lemma_accepted_commands_are_scoped(commands: Seq<CommandView>, at: int)
    requires
        state_after(commands) is Some,
        0 <= at < commands.len(),
    ensures
        state_after(commands.take(at)) is Some,
        op_of(commands[at]) == CommandOp::Draw ==> state_after(commands.take(at)) == Some(
            CommandBufferState::RenderPass,
        ),
        step(state_after(commands.take(at))->0, op_of(commands[at])) is Some,
    decreases commands.len(),
{
    if at == commands.len() - 1 {
        assert(commands.take(at) =~= commands.drop_last());
    } else {
        assert(commands.drop_last().take(at) =~= commands.take(at));
        lemma_accepted_commands_are_scoped(commands.drop_last(), at);
    }
}

/// What is waited for before a submission runs: `semaphore`, at the
/// pipeline stages in `stage_mask`.
#[derive(Clone, Copy, PartialEq, Eq, Structural, Debug)]
pub struct SubmitWait {
    pub semaphore: SemaphoreHandle,
    pub stage_mask: u32,
}

/// The views of `commands`, in order.
pub open spec fn views(commands: Seq<Command>) -> Seq<CommandView> {
    commands.map_values(|c: Command| c@)
}

struct Recording {
    owner: Owned<CommandBufferHandle>,
    commands: Vec<Command>,
}

impl Recording {
    fn push(&mut self, command: Command)
        ensures
            final(self).owner == old(self).owner,
            views(final(self).commands@) == views(old(self).commands@).push(command@),
    {
        self.commands.push(command);
        assert(views(self.commands@) =~= views(old(self).commands@).push(command@));
    }
}

proof fn lemma_state_after_push(commands: Seq<CommandView>, command: CommandView)
    ensures
        state_after(commands.push(command)) == (match state_after(commands) {
            Some(state) => step(state, op_of(command)),
            None => None,
        }),
{
    assert(commands.push(command).drop_last() =~= commands);
}

/// A closed command buffer, ready to be submitted. Its commands were all
/// allowed where they stand, and it was closed outside a render pass.
pub struct CommandBuffer {
    recording: Recording,
}

impl View for CommandBuffer {
    type V = Seq<CommandView>;

    closed spec fn view(&self) -> Seq<CommandView> {
        views(self.recording.commands@)
    }
}

impl AsRawHandle<CommandBufferHandle> for CommandBuffer {
    closed spec fn raw_handle(&self) -> CommandBufferHandle {
        self.recording.owner.raw_handle()
    }

    fn as_raw(&self) -> (raw: CommandBufferHandle) {
        self.recording.owner.as_raw()
    }
}

impl CommandBuffer {
    /// The state of the buffer.
    pub open spec fn state(&self) -> CommandBufferState {
        CommandBufferState::Executable
    }

    /// The commands were accepted one by one, and ending was allowed after
    /// the last.
    pub open spec fn wf(&self) -> bool {
        match state_after(self@) {
            Some(state) => step(state, CommandOp::End) == Some(self.state()),
            None => false,
        }
    }

    /// Allocates a command buffer and opens it for recording.
    pub fn create<D: Device>(gpu: &mut Gpu<D>) -> (created: Result<CommandBufferRecorder, Error>)
        ensures
            final(gpu).memory_types == old(gpu).memory_types,
            final(gpu).requests() == old(gpu).requests(),
            created matches Err(e) ==> e is Vk,
            created matches Ok(recorder) ==> recorder.wf() && recorder@ == Seq::<
                CommandView,
            >::empty(),
            forall|k: ObjectKind| #[trigger]
                final(gpu).live(k) == old(gpu).live(k) + (if created is Ok {
                    one(ObjectKind::CommandBuffer, k)
                } else {
                    0
                }),
    {
        let owner = Owned::<CommandBufferHandle>::create(gpu, ())?;
        match gpu.device.begin_command_buffer(owner.as_raw()) {
            Ok(()) => {
                let commands: Vec<Command> = Vec::new();
                assert(views(commands@) =~= Seq::<CommandView>::empty());
                Ok(CommandBufferRecorder { recording: Recording { owner, commands } })
            },
            Err(code) => {
                owner.destroy(gpu);
                Err(Error::Vk(code))
            },
        }
    }

    /// The recorded commands.
    pub fn commands(&self) -> (commands: &[Command])
        ensures
            views(commands@) == self@,
    {
        self.recording.commands.as_slice()
    }

    /// Submits the buffer to the queue, waits until the device has run it,
    /// and frees it. The request is on record as soon as the queue has
    /// taken it, also where waiting for it fails; the wait is on record
    /// once it has come back.
    pub fn submit<D: Device>(self, gpu: &mut Gpu<D>) -> (submitted: Result<(), Error>)
        ensures
            final(gpu).memory_types == old(gpu).memory_types,
            submitted matches Err(e) ==> e is Vk,
            requested(
                old(gpu).requests(),
                final(gpu).requests(),
                Request::Submit { commands: self@, wait: None },
                submitted is Ok,
            ),
            forall|k: ObjectKind| #[trigger]
                final(gpu).live(k) == old(gpu).live(k) - one(ObjectKind::CommandBuffer, k),
    {
        self.submit_waiting(gpu, None)
    }

    /// Submits the buffer to the queue to run once `wait_semaphore` is
    /// signalled, holding back the stages in `wait_dst_stage_mask` until
    /// then; waits until the device has run it, and frees it.
    pub fn submit_after<D: Device>(
        self,
        gpu: &mut Gpu<D>,
        wait_semaphore: SemaphoreHandle,
        wait_dst_stage_mask: u32,
    ) -> (submitted: Result<(), Error>)
        ensures
            final(gpu).memory_types == old(gpu).memory_types,
            submitted matches Err(e) ==> e is Vk,
            requested(
                old(gpu).requests(),
                final(gpu).requests(),
                Request::Submit {
                    commands: self@,
                    wait: Some(
                        SubmitWait { semaphore: wait_semaphore, stage_mask: wait_dst_stage_mask },
                    ),
                },
                submitted is Ok,
            ),
            forall|k: ObjectKind| #[trigger]
                final(gpu).live(k) == old(gpu).live(k) - one(ObjectKind::CommandBuffer, k),
    {
        self.submit_waiting(
            gpu,
            Some(SubmitWait { semaphore: wait_semaphore, stage_mask: wait_dst_stage_mask }),
        )
    }

    fn submit_waiting<D: Device>(self, gpu: &mut Gpu<D>, wait: Option<SubmitWait>) -> (submitted:
        Result<(), Error>)
        ensures
            final(gpu).memory_types == old(gpu).memory_types,
            submitted matches Err(e) ==> e is Vk,
            requested(
                old(gpu).requests(),
                final(gpu).requests(),
                Request::Submit { commands: self@, wait },
                submitted is Ok,
            ),
            forall|k: ObjectKind| #[trigger]
                final(gpu).live(k) == old(gpu).live(k) - one(ObjectKind::CommandBuffer, k),
    {
        let mut fence = match Fence::create(gpu) {
            Ok(fence) => fence,
            Err(e) => {
                self.recording.owner.destroy(gpu);
                return Err(e);
            },
        };
        let submitted = match gpu.device.queue_submit(
            self.recording.owner.as_raw(),
            wait,
            fence.as_raw(),
        ) {
            Ok(()) => {
                gpu.ledger.note(Ghost(Request::Submit { commands: self@, wait }));
                match fence.wait(gpu) {
                    Ok(()) => {
                        gpu.ledger.note_wait(&fence);
                        Ok(())
                    },
                    Err(e) => Err(e),
                }
            },
            Err(code) => Err(Error::Vk(code)),
        };
        fence.destroy(gpu);
        self.recording.owner.destroy(gpu);
        submitted
    }

    /// Frees the buffer without submitting it.
    pub fn discard<D: Device>(self, gpu: &mut Gpu<D>)
        ensures
            final(gpu).memory_types == old(gpu).memory_types,
            final(gpu).requests() == old(gpu).requests(),
            forall|k: ObjectKind| #[trigger]
                final(gpu).live(k) == old(gpu).live(k) - one(ObjectKind::CommandBuffer, k),
    {
        self.recording.owner.destroy(gpu);
    }
}

/// A command buffer that is open for commands, outside a render pass.
pub struct CommandBufferRecorder {
    recording: Recording,
}

impl View for CommandBufferRecorder {
    type V = Seq<CommandView>;

    closed spec fn view(&self) -> Seq<CommandView> {
        views(self.recording.commands@)
    }
}

impl AsRawHandle<CommandBufferHandle> for CommandBufferRecorder {
    closed spec fn raw_handle(&self) -> CommandBufferHandle {
        self.recording.owner.raw_handle()
    }

    fn as_raw(&self) -> (raw: CommandBufferHandle) {
        self.recording.owner.as_raw()
    }
}

impl CommandBufferRecorder {
    /// The state of the buffer.
    pub open spec fn state(&self) -> CommandBufferState {
        CommandBufferState::Recording
    }

    /// The commands recorded so far were accepted one by one and lead to
    /// this recorder's state.
    pub open spec fn wf(&self) -> bool {
        state_after(self@) == Some(self.state())
    }

    /// The commands recorded so far.
    pub fn commands(&self) -> (commands: &[Command])
        ensures
            views(commands@) == self@,
    {
        self.recording.commands.as_slice()
    }

    fn record(&mut self, command: Command)
        requires
            old(self).wf(),
            op_of(command@) == CommandOp::Transfer,
        ensures
            final(self).wf(),
            final(self).raw_handle() == old(self).raw_handle(),
            final(self)@ == old(self)@.push(command@),
    {
        proof {
            lemma_state_after_push(views(self.recording.commands@), command@);
        }
        self.recording.push(command);
    }

    /// Closes the buffer and hands its commands to the device. If the
    /// device refuses them, the buffer is freed.
    pub fn end<D: Device>(self, gpu: &mut Gpu<D>) -> (ended: Result<CommandBuffer, Error>)
        requires
            self.wf(),
        ensures
            final(gpu).memory_types == old(gpu).memory_types,
            final(gpu).requests() == old(gpu).requests(),
            ended matches Err(e) ==> e is Vk,
            ended matches Ok(buffer) ==> {
                &&& buffer.wf()
                &&& buffer@ == self@
                &&& buffer.raw_handle() == self.raw_handle()
                &&& step(self.state(), CommandOp::End) == Some(buffer.state())
            },
            forall|k: ObjectKind| #[trigger]
                final(gpu).live(k) == old(gpu).live(k) - (if ended is Ok {
                    0
                } else {
                    one(ObjectKind::CommandBuffer, k)
                }),
    {
        match gpu.device.end_command_buffer(
            self.recording.owner.as_raw(),
            self.recording.commands.as_slice(),
        ) {
            Ok(()) => Ok(CommandBuffer { recording: self.recording }),
            Err(code) => {
                self.recording.owner.destroy(gpu);
                Err(Error::Vk(code))
            },
        }
    }

    /// Frees the buffer without closing it.
    pub fn discard<D: Device>(self, gpu: &mut Gpu<D>)
        ensures
            final(gpu).memory_types == old(gpu).memory_types,
            final(gpu).requests() == old(gpu).requests(),
            forall|k: ObjectKind| #[trigger]
                final(gpu).live(k) == old(gpu).live(k) - one(ObjectKind::CommandBuffer, k),
    {
        self.recording.owner.destroy(gpu);
    }

    /// Begins a render pass; until it ends, the buffer takes the commands
    /// that belong inside one.
    pub fn begin_render_pass(self, info: RenderPassBeginInfo) -> (recorder:
        CommandBufferRenderPassRecorder)
        requires
            self.wf(),
        ensures
            recorder.wf(),
            recorder.raw_handle() == self.raw_handle(),
            recorder@ == self@.push(Command::BeginRenderPass(info)@),
            step(self.state(), CommandOp::BeginRenderPass) == Some(recorder.state()),
    {
        let command = Command::BeginRenderPass(info);
        proof {
            lemma_state_after_push(views(self.recording.commands@), command@);
        }
        let mut recording = self.recording;
        recording.push(command);
        CommandBufferRenderPassRecorder { recording }
    }

    /// Copies `regions` of tightly packed bytes from `src_buffer` into
    /// `dst_image`.
    pub fn copy_buffer_to_image(
        &mut self,
        src_buffer: BufferHandle,
        dst_image: ImageHandle,
        dst_image_layout: i32,
        regions: &[BufferImageCopy],
    )
        requires
            old(self).wf(),
        ensures
            final(self).wf(),
            final(self).raw_handle() == old(self).raw_handle(),
            final(self)@ == old(self)@.push(
                CommandView::CopyBufferToImage {
                    src_buffer,
                    dst_image,
                    dst_image_layout,
                    regions: regions@,
                },
            ),
    {
        self.record(
            Command::CopyBufferToImage {
                src_buffer,
                dst_image,
                dst_image_layout,
                regions: vstd::slice::slice_to_vec(regions),
            },
        );
    }

    /// Copies `regions` from `src_image` into `dst_image`.
    pub fn copy_image_to_image(
        &mut self,
        src_image: ImageHandle,
        src_image_layout: i32,
        dst_image: ImageHandle,
        dst_image_layout: i32,
        regions: &[ImageCopy],
    )
        requires
            old(self).wf(),
        ensures
            final(self).wf(),
            final(self).raw_handle() == old(self).raw_handle(),
            final(self)@ == old(self)@.push(
                CommandView::CopyImage {
                    src_image,
                    src_image_layout,
                    dst_image,
                    dst_image_layout,
                    regions: regions@,
                },
            ),
    {
        self.record(
            Command::CopyImage {
                src_image,
                src_image_layout,
                dst_image,
                dst_image_layout,
                regions: vstd::slice::slice_to_vec(regions),
            },
        );
    }

    /// Copies `regions` from `src_image` into `dst_image`, scaling with
    /// `filter`.
    pub fn blit_image(
        &mut self,
        src_image: ImageHandle,
        src_image_layout: i32,
        dst_image: ImageHandle,
        dst_image_layout: i32,
        regions: &[ImageBlit],
        filter: i32,
    )
        requires
            old(self).wf(),
        ensures
            final(self).wf(),
            final(self).raw_handle() == old(self).raw_handle(),
            final(self)@ == old(self)@.push(
                CommandView::BlitImage {
                    src_image,
                    src_image_layout,
                    dst_image,
                    dst_image_layout,
                    regions: regions@,
                    filter,
                },
            ),
    {
        self.record(
            Command::BlitImage {
                src_image,
                src_image_layout,
                dst_image,
                dst_image_layout,
                regions: vstd::slice::slice_to_vec(regions),
                filter,
            },
        );
    }

    /// Changes image layouts as `barriers` say, after the stages in
    /// `src_stage_mask` and before those in `dst_stage_mask`.
    pub fn image_transition(
        &mut self,
        src_stage_mask: u32,
        dst_stage_mask: u32,
        barriers: &[ImageMemoryBarrier],
    )
        requires
            old(self).wf(),
        ensures
            final(self).wf(),
            final(self).raw_handle() == old(self).raw_handle(),
            final(self)@ == old(self)@.push(
                CommandView::PipelineBarrier { src_stage_mask, dst_stage_mask, barriers: barriers@ },
            ),
    {
        self.record(
            Command::PipelineBarrier {
                src_stage_mask,
                dst_stage_mask,
                barriers: vstd::slice::slice_to_vec(barriers),
            },
        );
    }

    /// Sets viewport and scissor to the whole of a `width` by `height`
    /// target.
    pub fn set_viewport_scissor(&mut self, size: (u32, u32))
        requires
            old(self).wf(),
        ensures
            final(self).wf(),
            final(self).raw_handle() == old(self).raw_handle(),
            final(self)@ == old(self)@.push(
                CommandView::SetViewport { width: size.0, height: size.1 },
            ).push(CommandView::SetScissor { width: size.0, height: size.1 }),
    {
        self.record(Command::SetViewport { width: size.0, height: size.1 });
        self.record(Command::SetScissor { width: size.0, height: size.1 });
    }
}

/// A command buffer that is open for commands, inside a render pass.
pub struct CommandBufferRenderPassRecorder {
    recording: Recording,
}

impl View for CommandBufferRenderPassRecorder {
    type V = Seq<CommandView>;

    closed spec fn view(&self) -> Seq<CommandView> {
        views(self.recording.commands@)
    }
}

impl AsRawHandle<CommandBufferHandle> for CommandBufferRenderPassRecorder {
    closed spec fn raw_handle(&self) -> CommandBufferHandle {
        self.recording.owner.raw_handle()
    }

    fn as_raw(&self) -> (raw: CommandBufferHandle) {
        self.recording.owner.as_raw()
    }
}

impl CommandBufferRenderPassRecorder {
    /// The state of the buffer.
    pub open spec fn state(&self) -> CommandBufferState {
        CommandBufferState::RenderPass
    }

    /// The commands recorded so far were accepted one by one and lead to
    /// this recorder's state.
    pub open spec fn wf(&self) -> bool {
        state_after(self@) == Some(self.state())
    }

    /// The commands recorded so far.
    pub fn commands(&self) -> (commands: &[Command])
        ensures
            views(commands@) == self@,
    {
        self.recording.commands.as_slice()
    }

    fn record(&mut self, command: Command)
        requires
            old(self).wf(),
            op_of(command@) == CommandOp::Draw,
        ensures
            final(self).wf(),
            final(self).raw_handle() == old(self).raw_handle(),
            final(self)@ == old(self)@.push(command@),
    {
        proof {
            lemma_state_after_push(views(self.recording.commands@), command@);
        }
        self.recording.push(command);
    }

    /// Ends the render pass.
    pub fn end_render_pass(self) -> (recorder: CommandBufferRecorder)
        requires
            self.wf(),
        ensures
            recorder.wf(),
            recorder.raw_handle() == self.raw_handle(),
            recorder@ == self@.push(CommandView::EndRenderPass),
            step(self.state(), CommandOp::EndRenderPass) == Some(recorder.state()),
    {
        proof {
            lemma_state_after_push(views(self.recording.commands@), Command::EndRenderPass@);
        }
        let mut recording = self.recording;
        recording.push(Command::EndRenderPass);
        CommandBufferRecorder { recording }
    }

    /// Frees the buffer without closing it.
    pub fn discard<D: Device>(self, gpu: &mut Gpu<D>)
        ensures
            final(gpu).memory_types == old(gpu).memory_types,
            final(gpu).requests() == old(gpu).requests(),
            forall|k: ObjectKind| #[trigger]
                final(gpu).live(k) == old(gpu).live(k) - one(ObjectKind::CommandBuffer, k),
    {
        self.recording.owner.destroy(gpu);
    }

    /// Binds `pipeline` for graphics.
    pub fn bind_pipeline(&mut self, pipeline: PipelineHandle)
        requires
            old(self).wf(),
        ensures
            final(self).wf(),
            final(self).raw_handle() == old(self).raw_handle(),
            final(self)@ == old(self)@.push(CommandView::BindPipeline { pipeline }),
    {
        self.record(Command::BindPipeline { pipeline });
    }

    /// Binds `descriptor_set` to slot `set_index` of `pipeline_layout`.
    pub fn bind_descriptor_set(
        &mut self,
        pipeline_layout: PipelineLayoutHandle,
        set_index: u32,
        descriptor_set: DescriptorSetHandle,
    )
        requires
            old(self).wf(),
        ensures
            final(self).wf(),
            final(self).raw_handle() == old(self).raw_handle(),
            final(self)@ == old(self)@.push(
                CommandView::BindDescriptorSet {
                    layout: pipeline_layout,
                    set_index,
                    set: descriptor_set,
                },
            ),
    {
        self.record(
            Command::BindDescriptorSet { layout: pipeline_layout, set_index, set: descriptor_set },
        );
    }

    /// Pushes the bytes of `data` as constants at `offset`, for the stages
    /// in `stage_flags`.
    pub fn push(&mut self, layout: PipelineLayoutHandle, stage_flags: u32, offset: u32, data: &[u8])
        requires
            old(self).wf(),
        ensures
            final(self).wf(),
            final(self).raw_handle() == old(self).raw_handle(),
            final(self)@ == old(self)@.push(
                CommandView::PushConstants { layout, stage_flags, offset, data: data@ },
            ),
    {
        self.record(
            Command::PushConstants {
                layout,
                stage_flags,
                offset,
                data: vstd::slice::slice_to_vec(data),
            },
        );
    }

    /// Binds `buffer`, from its start, as vertex buffer `binding`.
    pub fn bind_vertex_buffer(&mut self, binding: u32, buffer: BufferHandle)
        requires
            old(self).wf(),
        ensures
            final(self).wf(),
            final(self).raw_handle() == old(self).raw_handle(),
            final(self)@ == old(self)@.push(CommandView::BindVertexBuffer { binding, buffer }),
    {
        self.record(Command::BindVertexBuffer { binding, buffer });
    }

    /// Binds `buffer`, from its start, as the index buffer.
    pub fn bind_index_buffer(&mut self, buffer: BufferHandle, index_type: i32)
        requires
            old(self).wf(),
        ensures
            final(self).wf(),
            final(self).raw_handle() == old(self).raw_handle(),
            final(self)@ == old(self)@.push(CommandView::BindIndexBuffer { buffer, index_type }),
    {
        self.record(Command::BindIndexBuffer { buffer, index_type });
    }

    /// Draws one instance of `vertex_count` vertices.
    pub fn draw(&mut self, vertex_count: u32)
        requires
            old(self).wf(),
        ensures
            final(self).wf(),
            final(self).raw_handle() == old(self).raw_handle(),
            final(self)@ == old(self)@.push(CommandView::Draw { vertex_count }),
    {
        self.record(Command::Draw { vertex_count });
    }

    /// Draws one instance of `index_count` indices.
    pub fn draw_indexed(&mut self, index_count: u32)
        requires
            old(self).wf(),
        ensures
            final(self).wf(),
            final(self).raw_handle() == old(self).raw_handle(),
            final(self)@ == old(self)@.push(CommandView::DrawIndexed { index_count }),
    {
        self.record(Command::DrawIndexed { index_count });
    }
}

} // verus!
