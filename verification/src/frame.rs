//! One frame: acquire an image, record the scene, submit, present.

use vstd::prelude::*;
use crate::device::backend::Device;
use crate::device::command_buffer::{
    CommandBuffer, CommandBufferRecorder, CommandView, SubmitWait,
};
use crate::device::raw_handle::{
    extends, AsRawHandle, FramebufferHandle, Gpu, ObjectKind, RenderPassHandle, Request,
};
use crate::device::types::{RenderPassBeginInfo, PIPELINE_STAGE_COLOR_ATTACHMENT_OUTPUT};
use crate::error::Error;
use crate::renderer::{swapchain_info, Renderer, Swapchain};
use crate::scene::Scene;

verus! {

/// The commands of one frame: set viewport and scissor to the whole
/// target, begin the render pass on `framebuffer` with the color cleared to
/// `clear_color`, draw every model of the scene, end the render pass.
pub open spec fn frame_commands(
    scene: &Scene,
    render_pass: RenderPassHandle,
    framebuffer: FramebufferHandle,
    size: (u32, u32),
    clear_color: [u32; 4],
) -> Seq<CommandView> {
    seq![
        CommandView::SetViewport { width: size.0, height: size.1 },
        CommandView::SetScissor { width: size.0, height: size.1 },
        CommandView::BeginRenderPass {
            render_pass,
            framebuffer,
            width: size.0,
            height: size.1,
            clear_values: seq![clear_color],
        },
    ] + scene.draw_commands(0) + seq![CommandView::EndRenderPass]
}

/// Stores the view's uniforms and records the commands of one frame. If
/// the uniforms cannot be stored, the command buffer is freed.
pub fn record_frame<D: Device>(
    gpu: &mut Gpu<D>,
    recorder: CommandBufferRecorder,
    scene: &Scene,
    render_pass: RenderPassHandle,
    framebuffer: FramebufferHandle,
    size: (u32, u32),
    clear_color: [u32; 4],
    view_uniforms: &[u8],
) -> (recorded: Result<CommandBufferRecorder, Error>)
    requires
        recorder.wf(),
        scene.wf(),
    ensures
        final(gpu).memory_types == old(gpu).memory_types,
        final(gpu).requests() == (if recorded is Ok {
            old(gpu).requests().push(
                Request::Store {
                    memory: scene.view_uniform_buffer.memory.raw_handle(),
                    offset: 0,
                    bytes: view_uniforms@,
                },
            )
        } else {
            old(gpu).requests()
        }),
        view_uniforms@.len() > scene.view_uniform_buffer.memory.size <==> recorded == Err::<
            CommandBufferRecorder,
            Error,
        >(Error::MapOutOfRange),
        recorded matches Err(e) ==> e == Error::MapOutOfRange || e is Vk,
        recorded matches Ok(done) ==> {
            &&& done.wf()
            &&& done.raw_handle() == recorder.raw_handle()
            &&& done@ == recorder@ + frame_commands(
                scene,
                render_pass,
                framebuffer,
                size,
                clear_color,
            )
        },
        forall|k: ObjectKind| #[trigger]
            final(gpu).live(k) == old(gpu).live(k) - (if recorded is Ok {
                0
            } else {
                crate::device::raw_handle::one(ObjectKind::CommandBuffer, k)
            }),
{
    let ghost start = recorder@;
    let mut recorder = recorder;
    recorder.set_viewport_scissor(size);
    let mut clear_values: Vec<[u32; 4]> = Vec::new();
    clear_values.push(clear_color);
    proof {
        assert(clear_values@ =~= seq![clear_color]);
    }
    let mut pass = recorder.begin_render_pass(
        RenderPassBeginInfo {
            render_pass,
            framebuffer,
            width: size.0,
            height: size.1,
            clear_values,
        },
    );
    match scene.render(gpu, &mut pass, view_uniforms) {
        Ok(()) => {
            let done = pass.end_render_pass();
            proof {
                assert(done@ =~= start + frame_commands(
                    scene,
                    render_pass,
                    framebuffer,
                    size,
                    clear_color,
                ));
            }
            Ok(done)
        },
        Err(e) => {
            pass.discard(gpu);
            Err(e)
        },
    }
}

/// Whether `after` is `before` with the four requests of one frame that
/// is drawn to image `index` of the swapchain `chain`: the view's uniforms,
/// stored at the start of the scene's uniform memory; the frame's commands
/// on the framebuffer of that image, submitted to run once the acquire
/// semaphore is signalled and to hold back writing color until then; the
/// wait until the device has run them; and the presentation of that image.
pub open spec fn frame_requested(
    before: Seq<Request>,
    after: Seq<Request>,
    renderer: &Renderer,
    chain: Swapchain,
    index: u32,
    scene: &Scene,
    clear_color: [u32; 4],
    view_uniforms: Seq<u8>,
) -> bool {
    after == before.push(
        Request::Store {
            memory: scene.view_uniform_buffer.memory.raw_handle(),
            offset: 0,
            bytes: view_uniforms,
        },
    ).push(
        Request::Submit {
            commands: frame_commands(
                scene,
                renderer.render_pass.raw_handle(),
                chain.framebuffer(index as int),
                renderer.size,
                clear_color,
            ),
            wait: Some(
                SubmitWait {
                    semaphore: renderer.image_acquire_semaphore.raw_handle(),
                    stage_mask: PIPELINE_STAGE_COLOR_ATTACHMENT_OUTPUT,
                },
            ),
        },
    ).push(Request::Wait).push(Request::Present { swapchain: chain.raw_handle(), index })
}

/// Whether `after` is the swapchain `before` or one that was built in its
/// place for the renderer's surface, size and format.
pub open spec fn same_or_rebuilt(renderer: &Renderer, before: Swapchain, after: Swapchain) -> bool {
    after == before || after.info() == swapchain_info(
        before.raw_handle(),
        renderer.surface,
        renderer.size.0,
        renderer.size.1,
        renderer.color_format,
    )
}

/// Draws and presents one frame: acquires the next image, records the
/// frame's commands on its framebuffer, submits them to run once the image
/// is ready to be drawn to, waits until the device has run them, and
/// presents that image.
/// The command buffer is freed whatever happens; the swapchain is rebuilt
/// where acquiring or presenting shows it has gone stale. Uniforms that do
/// not fit the scene's uniform memory end the frame before anything is
/// stored, submitted or presented; every other error comes from the device
/// or from rebuilding the swapchain.
pub fn render_frame<D: Device>(
    gpu: &mut Gpu<D>,
    renderer: &mut Renderer,
    scene: &Scene,
    clear_color: [u32; 4],
    view_uniforms: &[u8],
) -> (rendered: Result<(), Error>)
    requires
        old(renderer).swapchain.wf(),
        scene.wf(),
    ensures
        final(gpu).memory_types == old(gpu).memory_types,
        final(renderer).swapchain.wf(),
        final(renderer).surface == old(renderer).surface,
        final(renderer).render_pass == old(renderer).render_pass,
        final(renderer).size == old(renderer).size,
        final(renderer).image_acquire_semaphore == old(renderer).image_acquire_semaphore,
        final(renderer).render_pass_parameters == old(renderer).render_pass_parameters,
        final(renderer).color_format == old(renderer).color_format,
        final(renderer).samples == old(renderer).samples,
        view_uniforms@.len() > scene.view_uniform_buffer.memory.size ==> rendered is Err
            && final(gpu).requests() == old(gpu).requests(),
        rendered matches Err(e) ==> e == Error::MapOutOfRange || e
            == Error::NoCompatibleMemoryType || e is Vk,
        rendered == Err::<(), Error>(Error::MapOutOfRange) ==> view_uniforms@.len()
            > scene.view_uniform_buffer.memory.size,
        extends(old(gpu).requests(), final(gpu).requests(), 4),
        rendered is Ok ==> exists|chain: Swapchain, index: u32|
            {
                &&& chain.wf()
                &&& index < chain.images().len()
                &&& same_or_rebuilt(old(renderer), old(renderer).swapchain, chain)
                &&& same_or_rebuilt(old(renderer), chain, final(renderer).swapchain)
                &&& #[trigger] frame_requested(
                    old(gpu).requests(),
                    final(gpu).requests(),
                    old(renderer),
                    chain,
                    index,
                    scene,
                    clear_color,
                    view_uniforms@,
                )
            },
        forall|k: ObjectKind| #[trigger]
            final(gpu).live(k) == old(gpu).live(k) + final(renderer).footprint(k)
                - old(renderer).footprint(k),
{
    let item = renderer.acquire_image(gpu)?;
    let ghost chain = renderer.swapchain;
    let recorder = CommandBuffer::create(gpu)?;
    let recorded = record_frame(
        gpu,
        recorder,
        scene,
        renderer.render_pass.as_raw(),
        item.framebuffer,
        renderer.size,
        clear_color,
        view_uniforms,
    )?;
    let closed = recorded.end(gpu)?;
    closed.submit_after(
        gpu,
        renderer.image_acquire_semaphore.as_raw(),
        PIPELINE_STAGE_COLOR_ATTACHMENT_OUTPUT,
    )?;
    let presented = renderer.present(gpu, item.index);
    proof {
        if presented is Ok {
            assert(frame_requested(
                old(gpu).requests(),
                gpu.requests(),
                old(renderer),
                chain,
                item.index,
                scene,
                clear_color,
                view_uniforms@,
            ));
        }
    }
    presented
}

} // verus!
