use vstd::prelude::*;
use crate::device::buffer::BufferHandle;
use crate::device::command_buffer::{Command, CommandBufferHandle, SubmitWait};
use crate::device::descriptor_set::{DescriptorPoolHandle, DescriptorSetHandle};
use crate::device::descriptor_set_layout::DescriptorSetLayoutHandle;
use crate::device::fence::FenceHandle;
use crate::device::image::ImageHandle;
use crate::device::image_view::ImageViewHandle;
use crate::device::memory::DeviceMemoryHandle;
use crate::device::pipeline::{
    GraphicsPipelineInfo, PipelineCacheHandle, PipelineHandle, PipelineLayoutHandle,
};
use crate::device::raw_handle::{
    FramebufferHandle, RenderPassHandle, SamplerHandle, ShaderModuleHandle, SurfaceHandle,
    SwapchainHandle,
};
use crate::device::semaphore::SemaphoreHandle;
use crate::device::types::{
    BufferInfo, DescriptorPoolSize, DescriptorSetLayoutBinding, FramebufferInfo, ImageInfo,
    ImageViewInfo, MemoryRequirements, PushConstantRange, RenderPassInfo, SamplerInfo,
    SwapchainInfo, WriteDescriptor,
};
use crate::error::VkError;

verus! {

/// What acquiring a swapchain image gave: the index of the image, and
/// whether the swapchain no longer matches the surface exactly.
#[derive(Clone, Copy, PartialEq, Eq, Structural, Debug)]
pub struct AcquiredImage {
    pub index: u32,
    pub suboptimal: bool,
}

/// The GPU as this crate sees it: one method per request that the crate
/// makes of it. No method promises anything of what it returns, so whatever
/// is proved of the crate holds of every device.
pub trait Device {
    /// Allocates `size` bytes from the memory type `type_index`.
    fn allocate_memory(&mut self, size: u64, type_index: u32) -> core::result::Result<
        DeviceMemoryHandle,
        VkError,
    >;

    fn free_memory(&mut self, memory: DeviceMemoryHandle);

    /// Makes `size` bytes of `memory` from `offset` on reachable by the host.
    fn map_memory(
        &mut self,
        memory: DeviceMemoryHandle,
        offset: u64,
        size: u64,
    ) -> core::result::Result<(), VkError>;

    /// Stores `bytes` in the mapped range of `memory`, from byte `offset` of
    /// the block on.
    fn write_memory(&mut self, memory: DeviceMemoryHandle, offset: u64, bytes: &[u8]);

    /// Ends the mapping of `memory`.
    fn unmap_memory(&mut self, memory: DeviceMemoryHandle);

    fn create_buffer(&mut self, info: &BufferInfo) -> core::result::Result<BufferHandle, VkError>;

    fn destroy_buffer(&mut self, buffer: BufferHandle);

    fn buffer_memory_requirements(&mut self, buffer: BufferHandle) -> MemoryRequirements;

    fn bind_buffer_memory(
        &mut self,
        buffer: BufferHandle,
        memory: DeviceMemoryHandle,
        offset: u64,
    ) -> core::result::Result<(), VkError>;

    fn create_image(&mut self, info: &ImageInfo) -> core::result::Result<ImageHandle, VkError>;

    fn destroy_image(&mut self, image: ImageHandle);

    fn image_memory_requirements(&mut self, image: ImageHandle) -> MemoryRequirements;

    fn bind_image_memory(
        &mut self,
        image: ImageHandle,
        memory: DeviceMemoryHandle,
        offset: u64,
    ) -> core::result::Result<(), VkError>;

    /// The sample counts, as flag bits, that a two-dimensional color
    /// attachment of `format` in optimal tiling supports.
    fn color_attachment_sample_counts(&mut self, format: i32) -> core::result::Result<u32, VkError>;

    fn create_image_view(&mut self, info: &ImageViewInfo) -> core::result::Result<
        ImageViewHandle,
        VkError,
    >;

    fn destroy_image_view(&mut self, view: ImageViewHandle);

    fn create_sampler(&mut self, info: &SamplerInfo) -> core::result::Result<SamplerHandle, VkError>;

    fn destroy_sampler(&mut self, sampler: SamplerHandle);

    fn create_semaphore(&mut self) -> core::result::Result<SemaphoreHandle, VkError>;

    fn destroy_semaphore(&mut self, semaphore: SemaphoreHandle);

    fn create_fence(&mut self, signalled: bool) -> core::result::Result<FenceHandle, VkError>;

    fn destroy_fence(&mut self, fence: FenceHandle);

    fn fence_status(&mut self, fence: FenceHandle) -> core::result::Result<bool, VkError>;

    /// Blocks until `fence` is signalled or `timeout` nanoseconds have
    /// passed.
    fn wait_for_fence(&mut self, fence: FenceHandle, timeout: u64) -> core::result::Result<
        (),
        VkError,
    >;

    fn reset_fence(&mut self, fence: FenceHandle) -> core::result::Result<(), VkError>;

    fn create_render_pass(&mut self, info: &RenderPassInfo) -> core::result::Result<
        RenderPassHandle,
        VkError,
    >;

    fn destroy_render_pass(&mut self, render_pass: RenderPassHandle);

    fn create_framebuffer(&mut self, info: &FramebufferInfo) -> core::result::Result<
        FramebufferHandle,
        VkError,
    >;

    fn destroy_framebuffer(&mut self, framebuffer: FramebufferHandle);

    fn create_shader_module(&mut self, code: &[u32]) -> core::result::Result<
        ShaderModuleHandle,
        VkError,
    >;

    fn destroy_shader_module(&mut self, module: ShaderModuleHandle);

    fn create_descriptor_set_layout(
        &mut self,
        bindings: &[DescriptorSetLayoutBinding],
    ) -> core::result::Result<DescriptorSetLayoutHandle, VkError>;

    fn destroy_descriptor_set_layout(&mut self, layout: DescriptorSetLayoutHandle);

    fn create_descriptor_pool(
        &mut self,
        max_sets: u32,
        pool_sizes: &[DescriptorPoolSize],
    ) -> core::result::Result<DescriptorPoolHandle, VkError>;

    fn destroy_descriptor_pool(&mut self, pool: DescriptorPoolHandle);

    fn allocate_descriptor_set(
        &mut self,
        pool: DescriptorPoolHandle,
        layout: DescriptorSetLayoutHandle,
    ) -> core::result::Result<DescriptorSetHandle, VkError>;

    fn update_descriptor_set(&mut self, write: &WriteDescriptor);

    fn create_pipeline_layout(
        &mut self,
        set_layouts: &[DescriptorSetLayoutHandle],
        push_constant_ranges: &[PushConstantRange],
    ) -> core::result::Result<PipelineLayoutHandle, VkError>;

    fn destroy_pipeline_layout(&mut self, layout: PipelineLayoutHandle);

    fn create_pipeline_cache(&mut self) -> core::result::Result<PipelineCacheHandle, VkError>;

    fn destroy_pipeline_cache(&mut self, cache: PipelineCacheHandle);

    fn create_graphics_pipeline(
        &mut self,
        cache: PipelineCacheHandle,
        info: &GraphicsPipelineInfo,
    ) -> core::result::Result<PipelineHandle, VkError>;

    fn destroy_pipeline(&mut self, pipeline: PipelineHandle);

    /// Allocates one primary command buffer from the graphics command pool.
    fn allocate_command_buffer(&mut self) -> core::result::Result<CommandBufferHandle, VkError>;

    fn free_command_buffer(&mut self, buffer: CommandBufferHandle);

    fn begin_command_buffer(&mut self, buffer: CommandBufferHandle) -> core::result::Result<
        (),
        VkError,
    >;

    /// Records `commands`, in order, into `buffer` and closes it.
    fn end_command_buffer(
        &mut self,
        buffer: CommandBufferHandle,
        commands: &[Command],
    ) -> core::result::Result<(), VkError>;

    /// Submits `buffer` to the graphics queue; `fence` is signalled when the
    /// device has run it.
    fn queue_submit(
        &mut self,
        buffer: CommandBufferHandle,
        wait: Option<SubmitWait>,
        fence: FenceHandle,
    ) -> core::result::Result<(), VkError>;

    fn destroy_surface(&mut self, surface: SurfaceHandle);

    fn create_swapchain(&mut self, info: &SwapchainInfo) -> core::result::Result<
        SwapchainHandle,
        VkError,
    >;

    fn destroy_swapchain(&mut self, swapchain: SwapchainHandle);

    fn swapchain_images(&mut self, swapchain: SwapchainHandle) -> core::result::Result<
        Vec<ImageHandle>,
        VkError,
    >;

    /// Blocks until the next image of `swapchain` can be acquired or
    /// `timeout` nanoseconds have passed; `semaphore` and `fence` are
    /// signalled when the image is ready to be drawn to.
    fn acquire_next_image(
        &mut self,
        swapchain: SwapchainHandle,
        timeout: u64,
        semaphore: SemaphoreHandle,
        fence: FenceHandle,
    ) -> core::result::Result<AcquiredImage, VkError>;

    /// Queues image `index` of `swapchain` for presentation and returns the
    /// result code that the presentation engine gave for the swapchain.
    fn queue_present(&mut self, swapchain: SwapchainHandle, index: u32) -> core::result::Result<
        i32,
        VkError,
    >;
}

} // verus!
