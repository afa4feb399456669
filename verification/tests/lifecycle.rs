use std::collections::BTreeMap;

use render_core::device::backend::{AcquiredImage, Device};
use render_core::device::buffer::{Buffer, BufferHandle, BufferObject};
use render_core::device::command_buffer::{
    Command, CommandBuffer, CommandBufferHandle, SubmitWait,
};
use render_core::device::descriptor_set::{DescriptorPool, DescriptorPoolHandle, DescriptorSetHandle};
use render_core::device::descriptor_set_layout::{DescriptorSetLayout, DescriptorSetLayoutHandle};
use render_core::device::fence::{Fence, FenceHandle};
use render_core::device::image::{Image, ImageHandle, ImageObject};
use render_core::device::image_view::{ImageView, ImageViewHandle};
use render_core::device::memory::{
    DeviceMemoryHandle, Memory, MemoryTypeIndex, MemoryTypeMask, MemoryTypes,
};
use render_core::device::pipeline::{
    GraphicsPipelineInfo, PipelineCache, PipelineCacheHandle, PipelineHandle, PipelineLayout,
    PipelineLayoutHandle,
};
use render_core::device::raw_handle::{
    AsRawHandle, FramebufferHandle, Gpu, Owned, RenderPassHandle, SamplerHandle,
    ShaderModuleHandle, SurfaceHandle, SwapchainHandle,
};
use render_core::device::sampler::Sampler;
use render_core::device::semaphore::{Semaphore, SemaphoreHandle};
use render_core::device::types::{
    BufferImageCopy, BufferInfo, DescriptorPoolSize, Extent3D, ImageBlit, ImageCopy,
    ImageMemoryBarrier, ImageSubresourceLayers, ImageSubresourceRange, Offset3D, DescriptorSetLayoutBinding, FramebufferInfo, ImageInfo,
    ImageViewInfo, MemoryBinding, MemoryRequirements, PushConstantRange, RenderPassBeginInfo,
    RenderPassInfo, SamplerInfo, SwapchainInfo, WriteDescriptor,
};
use render_core::error::{Error, VkError};
use render_core::frame::render_frame;
use render_core::renderer::{Renderer, Swapchain, SwapchainItem, SwapchainVerdict};
use render_core::resources::mesh::{mesh_layout, Mesh, MeshLayout};
use render_core::resources::texture::Texture;
use render_core::scene::definition;
use render_core::scene::textures::ktx::load_ktx;
use render_core::scene::textures::png::{load_png, texture_from_picture, ColorType, DecodedPng};
use render_core::scene::load_buffer_view;
use render_core::scene::{
    descriptor_pool_sizes, is_consistent, paths_of, CompiledProgram, Scene, SceneAssets,
};

const DEVICE_LOCAL: u32 = 0x1;
const HOST_VISIBLE: u32 = 0x2;
const HOST_COHERENT: u32 = 0x4;

/// A device that hands out fresh handles, keeps count of what lives, and
/// remembers what it was asked.
struct MockDevice {
    next: u64,
    calls: Vec<String>,
    live: BTreeMap<&'static str, i64>,
    fail: Option<(&'static str, i32)>,
    alignment: u64,
    short_memory: bool,
    buffer_type_bits: u32,
    image_type_bits: u32,
    allocations: Vec<(u64, u64, u32)>,
    buffer_bindings: Vec<(u64, u64, u64)>,
    image_bindings: Vec<(u64, u64, u64)>,
    stored: Vec<(u64, u64, Vec<u8>)>,
    pools: Vec<(u32, Vec<DescriptorPoolSize>)>,
    presented: Vec<(u64, u32)>,
    recorded: Vec<Vec<Command>>,
    submissions: Vec<(u64, Option<SubmitWait>)>,
    writes: Vec<WriteDescriptor>,
    swapchains: Vec<SwapchainInfo>,
    swapchain_images: usize,
    acquire: Vec<Result<AcquiredImage, i32>>,
    present: Vec<Result<i32, i32>>,
    sample_counts: u32,
    pipelines: Vec<(usize, usize, usize)>,
    buffer_sizes: BTreeMap<u64, u64>,
    images: Vec<ImageInfo>,
    views: Vec<ImageViewInfo>,
}

impl MockDevice {
    fn new() -> Self {
        MockDevice {
            next: 100,
            calls: Vec::new(),
            live: BTreeMap::new(),
            fail: None,
            alignment: 1,
            short_memory: false,
            buffer_type_bits: !0,
            image_type_bits: !0,
            allocations: Vec::new(),
            buffer_bindings: Vec::new(),
            image_bindings: Vec::new(),
            stored: Vec::new(),
            pools: Vec::new(),
            presented: Vec::new(),
            recorded: Vec::new(),
            submissions: Vec::new(),
            writes: Vec::new(),
            swapchains: Vec::new(),
            swapchain_images: 3,
            acquire: Vec::new(),
            present: Vec::new(),
            sample_counts: 0b1111,
            pipelines: Vec::new(),
            buffer_sizes: BTreeMap::new(),
            images: Vec::new(),
            views: Vec::new(),
        }
    }

    fn fresh(&mut self, kind: &'static str) -> Result<u64, VkError> {
        self.calls.push(format!("create {}", kind));
        if let Some((name, code)) = self.fail {
            if name == kind {
                return Err(VkError(code));
            }
        }
        self.next += 1;
        *self.live.entry(kind).or_insert(0) += 1;
        Ok(self.next)
    }

    fn gone(&mut self, kind: &'static str) {
        self.calls.push(format!("destroy {}", kind));
        *self.live.entry(kind).or_insert(0) -= 1;
    }

    fn act(&mut self, name: &'static str) -> Result<(), VkError> {
        self.calls.push(name.to_string());
        match self.fail {
            Some((failing, code)) if failing == name => Err(VkError(code)),
            _ => Ok(()),
        }
    }

    fn alive(&self, kind: &'static str) -> i64 {
        self.live.get(kind).copied().unwrap_or(0)
    }

    fn total_alive(&self) -> i64 {
        self.live.values().sum()
    }

    fn count(&self, call: &str) -> usize {
        self.calls.iter().filter(|c| c.as_str() == call).count()
    }

    fn round_up(&self, size: u64) -> u64 {
        if self.short_memory {
            return size / 2;
        }
        (size + self.alignment - 1) / self.alignment * self.alignment
    }
}

impl Device for MockDevice {
    fn allocate_memory(&mut self, size: u64, type_index: u32) -> Result<DeviceMemoryHandle, VkError> {
        let handle = self.fresh("memory")?;
        self.allocations.push((handle, size, type_index));
        Ok(DeviceMemoryHandle(handle))
    }

    fn free_memory(&mut self, _memory: DeviceMemoryHandle) {
        self.gone("memory");
    }

    fn map_memory(&mut self, _memory: DeviceMemoryHandle, _offset: u64, _size: u64) -> Result<(), VkError> {
        self.act("map")
    }

    fn write_memory(&mut self, memory: DeviceMemoryHandle, offset: u64, bytes: &[u8]) {
        self.calls.push("write".to_string());
        self.stored.push((memory.0, offset, bytes.to_vec()));
    }

    fn unmap_memory(&mut self, _memory: DeviceMemoryHandle) {
        self.calls.push("unmap".to_string());
    }

    fn create_buffer(&mut self, info: &BufferInfo) -> Result<BufferHandle, VkError> {
        let handle = self.fresh("buffer")?;
        self.buffer_sizes.insert(handle, info.size);
        Ok(BufferHandle(handle))
    }

    fn destroy_buffer(&mut self, _buffer: BufferHandle) {
        self.gone("buffer");
    }

    fn buffer_memory_requirements(&mut self, buffer: BufferHandle) -> MemoryRequirements {
        let size = self.round_up(self.buffer_sizes[&buffer.0]);
        MemoryRequirements {
            size,
            alignment: self.alignment,
            memory_type_bits: self.buffer_type_bits,
        }
    }

    fn bind_buffer_memory(&mut self, buffer: BufferHandle, memory: DeviceMemoryHandle, offset: u64) -> Result<(), VkError> {
        self.act("bind buffer")?;
        self.buffer_bindings.push((buffer.0, memory.0, offset));
        Ok(())
    }

    fn create_image(&mut self, info: &ImageInfo) -> Result<ImageHandle, VkError> {
        let handle = self.fresh("image")?;
        self.images.push(*info);
        Ok(ImageHandle(handle))
    }

    fn destroy_image(&mut self, _image: ImageHandle) {
        self.gone("image");
    }

    fn image_memory_requirements(&mut self, _image: ImageHandle) -> MemoryRequirements {
        MemoryRequirements { size: 4096, alignment: 256, memory_type_bits: self.image_type_bits }
    }

    fn bind_image_memory(&mut self, image: ImageHandle, memory: DeviceMemoryHandle, offset: u64) -> Result<(), VkError> {
        self.act("bind image")?;
        self.image_bindings.push((image.0, memory.0, offset));
        Ok(())
    }

    fn color_attachment_sample_counts(&mut self, _format: i32) -> Result<u32, VkError> {
        self.act("sample counts")?;
        Ok(self.sample_counts)
    }

    fn create_image_view(&mut self, info: &ImageViewInfo) -> Result<ImageViewHandle, VkError> {
        let handle = self.fresh("image view")?;
        self.views.push(*info);
        Ok(ImageViewHandle(handle))
    }

    fn destroy_image_view(&mut self, _view: ImageViewHandle) {
        self.gone("image view");
    }

    fn create_sampler(&mut self, _info: &SamplerInfo) -> Result<SamplerHandle, VkError> {
        self.fresh("sampler").map(SamplerHandle)
    }

    fn destroy_sampler(&mut self, _sampler: SamplerHandle) {
        self.gone("sampler");
    }

    fn create_semaphore(&mut self) -> Result<SemaphoreHandle, VkError> {
        self.fresh("semaphore").map(SemaphoreHandle)
    }

    fn destroy_semaphore(&mut self, _semaphore: SemaphoreHandle) {
        self.gone("semaphore");
    }

    fn create_fence(&mut self, _signalled: bool) -> Result<FenceHandle, VkError> {
        self.fresh("fence").map(FenceHandle)
    }

    fn destroy_fence(&mut self, _fence: FenceHandle) {
        self.gone("fence");
    }

    fn fence_status(&mut self, _fence: FenceHandle) -> Result<bool, VkError> {
        self.act("fence status")?;
        Ok(false)
    }

    fn wait_for_fence(&mut self, _fence: FenceHandle, _timeout: u64) -> Result<(), VkError> {
        self.act("wait")
    }

    fn reset_fence(&mut self, _fence: FenceHandle) -> Result<(), VkError> {
        self.act("reset")
    }

    fn create_render_pass(&mut self, _info: &RenderPassInfo) -> Result<RenderPassHandle, VkError> {
        self.fresh("render pass").map(RenderPassHandle)
    }

    fn destroy_render_pass(&mut self, _render_pass: RenderPassHandle) {
        self.gone("render pass");
    }

    fn create_framebuffer(&mut self, _info: &FramebufferInfo) -> Result<FramebufferHandle, VkError> {
        self.fresh("framebuffer").map(FramebufferHandle)
    }

    fn destroy_framebuffer(&mut self, _framebuffer: FramebufferHandle) {
        self.gone("framebuffer");
    }

    fn create_shader_module(&mut self, _code: &[u32]) -> Result<ShaderModuleHandle, VkError> {
        self.fresh("shader").map(ShaderModuleHandle)
    }

    fn destroy_shader_module(&mut self, _module: ShaderModuleHandle) {
        self.gone("shader");
    }

    fn create_descriptor_set_layout(&mut self, _bindings: &[DescriptorSetLayoutBinding]) -> Result<DescriptorSetLayoutHandle, VkError> {
        self.fresh("set layout").map(DescriptorSetLayoutHandle)
    }

    fn destroy_descriptor_set_layout(&mut self, _layout: DescriptorSetLayoutHandle) {
        self.gone("set layout");
    }

    fn create_descriptor_pool(&mut self, max_sets: u32, pool_sizes: &[DescriptorPoolSize]) -> Result<DescriptorPoolHandle, VkError> {
        let handle = self.fresh("pool")?;
        self.pools.push((max_sets, pool_sizes.to_vec()));
        Ok(DescriptorPoolHandle(handle))
    }

    fn destroy_descriptor_pool(&mut self, _pool: DescriptorPoolHandle) {
        self.gone("pool");
    }

    fn allocate_descriptor_set(&mut self, _pool: DescriptorPoolHandle, _layout: DescriptorSetLayoutHandle) -> Result<DescriptorSetHandle, VkError> {
        self.act("allocate set")?;
        self.next += 1;
        Ok(DescriptorSetHandle(self.next))
    }

    fn update_descriptor_set(&mut self, write: &WriteDescriptor) {
        self.calls.push("update set".to_string());
        self.writes.push(*write);
    }

    fn create_pipeline_layout(&mut self, _set_layouts: &[DescriptorSetLayoutHandle], _ranges: &[PushConstantRange]) -> Result<PipelineLayoutHandle, VkError> {
        self.fresh("pipeline layout").map(PipelineLayoutHandle)
    }

    fn destroy_pipeline_layout(&mut self, _layout: PipelineLayoutHandle) {
        self.gone("pipeline layout");
    }

    fn create_pipeline_cache(&mut self) -> Result<PipelineCacheHandle, VkError> {
        self.fresh("pipeline cache").map(PipelineCacheHandle)
    }

    fn destroy_pipeline_cache(&mut self, _cache: PipelineCacheHandle) {
        self.gone("pipeline cache");
    }

    fn create_graphics_pipeline(&mut self, _cache: PipelineCacheHandle, info: &GraphicsPipelineInfo) -> Result<PipelineHandle, VkError> {
        let handle = self.fresh("pipeline")?;
        self.pipelines.push((info.stages.len(), info.vertex_bindings.len(), info.vertex_attributes.len()));
        Ok(PipelineHandle(handle))
    }

    fn destroy_pipeline(&mut self, _pipeline: PipelineHandle) {
        self.gone("pipeline");
    }

    fn allocate_command_buffer(&mut self) -> Result<CommandBufferHandle, VkError> {
        self.fresh("command buffer").map(CommandBufferHandle)
    }

    fn free_command_buffer(&mut self, _buffer: CommandBufferHandle) {
        self.gone("command buffer");
    }

    fn begin_command_buffer(&mut self, _buffer: CommandBufferHandle) -> Result<(), VkError> {
        self.act("begin")
    }

    fn end_command_buffer(&mut self, _buffer: CommandBufferHandle, commands: &[Command]) -> Result<(), VkError> {
        self.act("end")?;
        self.recorded.push(commands.iter().map(copy_command).collect());
        Ok(())
    }

    fn queue_submit(&mut self, buffer: CommandBufferHandle, wait: Option<SubmitWait>, _fence: FenceHandle) -> Result<(), VkError> {
        self.act("submit")?;
        self.submissions.push((buffer.0, wait));
        Ok(())
    }

    fn destroy_surface(&mut self, _surface: SurfaceHandle) {
        self.gone("surface");
    }

    fn create_swapchain(&mut self, info: &SwapchainInfo) -> Result<SwapchainHandle, VkError> {
        let handle = self.fresh("swapchain")?;
        self.swapchains.push(*info);
        Ok(SwapchainHandle(handle))
    }

    fn destroy_swapchain(&mut self, _swapchain: SwapchainHandle) {
        self.gone("swapchain");
    }

    fn swapchain_images(&mut self, _swapchain: SwapchainHandle) -> Result<Vec<ImageHandle>, VkError> {
        self.act("swapchain images")?;
        let mut images = Vec::new();
        for _ in 0..self.swapchain_images {
            self.next += 1;
            images.push(ImageHandle(self.next));
        }
        Ok(images)
    }

    fn acquire_next_image(&mut self, _swapchain: SwapchainHandle, _timeout: u64, _semaphore: SemaphoreHandle, _fence: FenceHandle) -> Result<AcquiredImage, VkError> {
        self.calls.push("acquire".to_string());
        if self.acquire.is_empty() {
            Ok(AcquiredImage { index: 0, suboptimal: false })
        } else {
            self.acquire.remove(0).map_err(VkError)
        }
    }

    fn queue_present(&mut self, swapchain: SwapchainHandle, index: u32) -> Result<i32, VkError> {
        self.calls.push("present".to_string());
        self.presented.push((swapchain.0, index));
        if self.present.is_empty() {
            Ok(0)
        } else {
            self.present.remove(0).map_err(VkError)
        }
    }
}

fn copy_command(command: &Command) -> Command {
    match command {
        Command::BeginRenderPass(info) => Command::BeginRenderPass(RenderPassBeginInfo {
            render_pass: info.render_pass,
            framebuffer: info.framebuffer,
            width: info.width,
            height: info.height,
            clear_values: info.clear_values.clone(),
        }),
        Command::EndRenderPass => Command::EndRenderPass,
        Command::CopyBufferToImage { src_buffer, dst_image, dst_image_layout, regions } => {
            Command::CopyBufferToImage {
                src_buffer: *src_buffer,
                dst_image: *dst_image,
                dst_image_layout: *dst_image_layout,
                regions: regions.clone(),
            }
        }
        Command::CopyImage { src_image, src_image_layout, dst_image, dst_image_layout, regions } => {
            Command::CopyImage {
                src_image: *src_image,
                src_image_layout: *src_image_layout,
                dst_image: *dst_image,
                dst_image_layout: *dst_image_layout,
                regions: regions.clone(),
            }
        }
        Command::BlitImage { src_image, src_image_layout, dst_image, dst_image_layout, regions, filter } => {
            Command::BlitImage {
                src_image: *src_image,
                src_image_layout: *src_image_layout,
                dst_image: *dst_image,
                dst_image_layout: *dst_image_layout,
                regions: regions.clone(),
                filter: *filter,
            }
        }
        Command::PipelineBarrier { src_stage_mask, dst_stage_mask, barriers } => {
            Command::PipelineBarrier {
                src_stage_mask: *src_stage_mask,
                dst_stage_mask: *dst_stage_mask,
                barriers: barriers.clone(),
            }
        }
        Command::SetViewport { width, height } => Command::SetViewport { width: *width, height: *height },
        Command::SetScissor { width, height } => Command::SetScissor { width: *width, height: *height },
        Command::BindPipeline { pipeline } => Command::BindPipeline { pipeline: *pipeline },
        Command::BindDescriptorSet { layout, set_index, set } => {
            Command::BindDescriptorSet { layout: *layout, set_index: *set_index, set: *set }
        }
        Command::PushConstants { layout, stage_flags, offset, data } => Command::PushConstants {
            layout: *layout,
            stage_flags: *stage_flags,
            offset: *offset,
            data: data.clone(),
        },
        Command::BindVertexBuffer { binding, buffer } => {
            Command::BindVertexBuffer { binding: *binding, buffer: *buffer }
        }
        Command::BindIndexBuffer { buffer, index_type } => {
            Command::BindIndexBuffer { buffer: *buffer, index_type: *index_type }
        }
        Command::Draw { vertex_count } => Command::Draw { vertex_count: *vertex_count },
        Command::DrawIndexed { index_count } => Command::DrawIndexed { index_count: *index_count },
    }
}

fn gpu_with(types: Vec<u32>) -> Gpu<MockDevice> {
    Gpu::new(MockDevice::new(), MemoryTypes::new(types).unwrap())
}

fn new_gpu() -> Gpu<MockDevice> {
    gpu_with(vec![DEVICE_LOCAL, HOST_VISIBLE | HOST_COHERENT, DEVICE_LOCAL | HOST_VISIBLE | HOST_COHERENT])
}

fn vk_error<T>(result: Result<T, Error>) -> i32 {
    match result {
        Err(Error::Vk(VkError(code))) => code,
        Err(other) => panic!("expected a device error, got {:?}", other),
        Ok(_) => panic!("expected a device error"),
    }
}

#[test]
fn allocate_mappable_takes_lowest_mappable_type() {
    let mut gpu = new_gpu();
    let memory = Memory::allocate_mappable(&mut gpu, 256, MemoryTypeMask::any()).unwrap();
    assert_eq!(memory.type_index, MemoryTypeIndex(1));
    assert_eq!(memory.size, 256);
    assert_eq!(gpu.device.allocations.len(), 1);
    assert_eq!(gpu.device.allocations[0].1, 256);
    assert_eq!(gpu.device.allocations[0].2, 1);
    memory.destroy(&mut gpu);
    assert_eq!(gpu.device.total_alive(), 0);
}

#[test]
fn allocate_mappable_respects_the_resource_mask() {
    let mut gpu = new_gpu();
    let memory = Memory::allocate_mappable(&mut gpu, 16, MemoryTypeMask(0b101)).unwrap();
    assert_eq!(memory.type_index, MemoryTypeIndex(2));
    assert_eq!(gpu.device.allocations[0].2, 2);
}

#[test]
fn allocate_mappable_fails_without_mappable_type() {
    let mut gpu = gpu_with(vec![DEVICE_LOCAL, HOST_VISIBLE, HOST_COHERENT]);
    let allocated = Memory::allocate_mappable(&mut gpu, 64, MemoryTypeMask::any());
    assert!(matches!(allocated, Err(Error::NoCompatibleMemoryType)));
    assert_eq!(gpu.device.count("create memory"), 0);
    assert!(gpu.device.allocations.is_empty());
}

#[test]
fn allocate_mappable_fails_when_resource_allows_no_mappable_type() {
    let mut gpu = new_gpu();
    let allocated = Memory::allocate_mappable(&mut gpu, 64, MemoryTypeMask(0b001));
    assert!(matches!(allocated, Err(Error::NoCompatibleMemoryType)));
    assert_eq!(gpu.device.count("create memory"), 0);
}

#[test]
fn allocate_refuses_a_type_the_device_does_not_have() {
    let mut gpu = new_gpu();
    let allocated = Memory::allocate(&mut gpu, 64, MemoryTypeIndex(3));
    assert!(matches!(allocated, Err(Error::NoCompatibleMemoryType)));
    let allocated = Memory::allocate(&mut gpu, 64, MemoryTypeIndex(32));
    assert!(matches!(allocated, Err(Error::NoCompatibleMemoryType)));
    assert_eq!(gpu.device.count("create memory"), 0);
    let memory = Memory::allocate(&mut gpu, 64, MemoryTypeIndex(2)).unwrap();
    assert_eq!(memory.type_index, MemoryTypeIndex(2));
}

#[test]
fn allocation_reports_the_device_error() {
    let mut gpu = new_gpu();
    gpu.device.fail = Some(("memory", -2));
    assert_eq!(vk_error(Memory::allocate(&mut gpu, 64, MemoryTypeIndex(0))), -2);
    assert_eq!(gpu.device.total_alive(), 0);
}

#[test]
fn mapping_reads_back_what_was_written() {
    let mut gpu = new_gpu();
    let memory = Memory::allocate(&mut gpu, 64, MemoryTypeIndex(1)).unwrap();
    let mut mapping = memory.map(&mut gpu, 8, 16).unwrap();
    assert_eq!(mapping.size(), 16);
    assert_eq!(mapping.slice(0, 16), &[0u8; 16][..]);
    mapping.write(4, &[1, 2, 3, 4, 5]);
    assert_eq!(mapping.slice(4, 5), &[1, 2, 3, 4, 5][..]);
    assert_eq!(mapping.slice(0, 4), &[0, 0, 0, 0][..]);
    assert_eq!(mapping.slice(9, 7), &[0u8; 7][..]);
    mapping.write(0, &[9; 16]);
    assert_eq!(mapping.slice(0, 16), &[9u8; 16][..]);
    mapping.write(16, &[]);
    mapping.unmap(&mut gpu);
    let handle = memory.as_raw().0;
    assert_eq!(
        gpu.device.stored,
        vec![(handle, 12, vec![1, 2, 3, 4, 5]), (handle, 8, vec![9u8; 16]), (handle, 24, vec![])]
    );
    assert_eq!(gpu.device.count("map"), 1);
    assert_eq!(gpu.device.count("write"), 3);
    assert_eq!(gpu.device.count("unmap"), 1);
}

#[test]
fn mapping_writes_words_lowest_byte_first() {
    let mut gpu = new_gpu();
    let memory = Memory::allocate(&mut gpu, 64, MemoryTypeIndex(1)).unwrap();
    let mut mapping = memory.map(&mut gpu, 0, 12).unwrap();
    mapping.write_slice(4, &[0x0403_0201, 0xffee_ddcc]);
    assert_eq!(mapping.slice(0, 12), &[0, 0, 0, 0, 1, 2, 3, 4, 0xcc, 0xdd, 0xee, 0xff][..]);
}

#[test]
fn mapping_beyond_the_block_fails() {
    let mut gpu = new_gpu();
    let memory = Memory::allocate(&mut gpu, 64, MemoryTypeIndex(1)).unwrap();
    assert!(matches!(memory.map(&mut gpu, 60, 8), Err(Error::MapOutOfRange)));
    assert!(matches!(memory.map(&mut gpu, 0, 65), Err(Error::MapOutOfRange)));
    assert!(matches!(memory.map(&mut gpu, 65, 0), Err(Error::MapOutOfRange)));
    assert!(matches!(memory.map(&mut gpu, u64::MAX, 1), Err(Error::MapOutOfRange)));
    assert_eq!(gpu.device.count("map"), 0);
    assert!(memory.map(&mut gpu, 64, 0).is_ok());
    assert!(memory.map(&mut gpu, 0, 64).is_ok());
    assert!(matches!(memory.write(&mut gpu, 62, &[1, 2, 3]), Err(Error::MapOutOfRange)));
    assert!(matches!(memory.write_slice(&mut gpu, 61, &[7]), Err(Error::MapOutOfRange)));
}

#[test]
fn mapping_reports_the_device_error() {
    let mut gpu = new_gpu();
    let memory = Memory::allocate(&mut gpu, 64, MemoryTypeIndex(1)).unwrap();
    gpu.device.fail = Some(("map", -5));
    assert_eq!(vk_error(memory.map(&mut gpu, 0, 8).map(|_| ())), -5);
}

#[test]
fn memory_write_stores_the_bytes_at_the_offset() {
    let mut gpu = new_gpu();
    let memory = Memory::allocate(&mut gpu, 64, MemoryTypeIndex(1)).unwrap();
    memory.write(&mut gpu, 10, &[7, 8, 9]).unwrap();
    memory.write_slice(&mut gpu, 20, &[0x1234_5678]).unwrap();
    let handle = memory.as_raw().0;
    assert_eq!(
        gpu.device.stored,
        vec![(handle, 10, vec![7, 8, 9]), (handle, 20, vec![0x78, 0x56, 0x34, 0x12])]
    );
}

#[test]
fn owned_handles_are_counted_once() {
    let mut gpu = new_gpu();
    let info = BufferInfo { size: 4, usage: 0 };
    let owned = Owned::<BufferHandle>::create(&mut gpu, &info).unwrap();
    assert_eq!(gpu.device.alive("buffer"), 1);
    let raw = owned.into_raw(&mut gpu);
    assert_eq!(gpu.device.alive("buffer"), 1);
    let adopted = Owned::from_raw(&mut gpu, raw);
    assert_eq!(adopted.as_raw(), raw);
    adopted.destroy(&mut gpu);
    assert_eq!(gpu.device.alive("buffer"), 0);
    assert_eq!(gpu.device.count("destroy buffer"), 1);
}

#[test]
fn buffer_is_bound_at_the_start_of_its_own_block() {
    let mut gpu = new_gpu();
    gpu.device.alignment = 64;
    let buffer = Buffer::create(&mut gpu, 100, 0x80).unwrap();
    assert_eq!(buffer.object.info, BufferInfo { size: 100, usage: 0x80 });
    let requirements = buffer.object.requirements.unwrap();
    assert_eq!(requirements.size, 128);
    assert_eq!(buffer.memory.size, 128);
    assert_eq!(buffer.memory.type_index, MemoryTypeIndex(1));
    let memory: DeviceMemoryHandle = buffer.memory.as_raw();
    assert_eq!(buffer.object.binding, Some(MemoryBinding { memory, offset: 0 }));
    let handle: BufferHandle = buffer.object.as_raw();
    assert_eq!(gpu.device.buffer_bindings, vec![(handle.0, memory.0, 0)]);
    buffer.destroy(&mut gpu);
    assert_eq!(gpu.device.total_alive(), 0);
}

#[test]
fn buffer_creation_leaves_nothing_behind_when_a_step_fails() {
    for step in ["buffer", "memory", "bind buffer"] {
        let mut gpu = new_gpu();
        gpu.device.fail = Some((step, -3));
        assert_eq!(vk_error(Buffer::create(&mut gpu, 100, 0x80)), -3);
        assert_eq!(gpu.device.total_alive(), 0, "after failing at {}", step);
    }
    let mut gpu = new_gpu();
    gpu.device.buffer_type_bits = 0b001;
    assert!(matches!(Buffer::create(&mut gpu, 100, 0x80), Err(Error::NoCompatibleMemoryType)));
    assert_eq!(gpu.device.total_alive(), 0);
    assert_eq!(gpu.device.count("create memory"), 0);
}

#[test]
fn buffer_create_with_stores_the_source() {
    let mut gpu = new_gpu();
    let buffer = Buffer::create_with(&mut gpu, 0x10, &[1, 2, 3, 4, 5, 6]).unwrap();
    assert_eq!(buffer.object.info.size, 6);
    let memory: DeviceMemoryHandle = buffer.memory.as_raw();
    assert_eq!(gpu.device.stored, vec![(memory.0, 0, vec![1, 2, 3, 4, 5, 6])]);
    buffer.write(&mut gpu, 2, &[9]).unwrap();
    assert_eq!(gpu.device.stored[1], (memory.0, 2, vec![9]));
    let mut failing = gpu_with(vec![HOST_VISIBLE | HOST_COHERENT]);
    failing.device.fail = Some(("map", -5));
    assert_eq!(vk_error(Buffer::create_with(&mut failing, 0x10, &[1])), -5);
    assert_eq!(failing.device.total_alive(), 0);
}

#[test]
fn buffer_object_remembers_requirements_and_binding() {
    let mut gpu = new_gpu();
    gpu.device.alignment = 16;
    let mut object = BufferObject::create(&mut gpu, 20, 0x40).unwrap();
    assert_eq!(object.requirements, None);
    assert_eq!(object.binding, None);
    let requirements = object.memory_requirements(&mut gpu);
    assert_eq!(requirements.size, 32);
    assert_eq!(object.requirements, Some(requirements));
    gpu.device.fail = Some(("bind buffer", -1));
    assert_eq!(vk_error(object.bind_memory(&mut gpu, DeviceMemoryHandle(5), 16)), -1);
    assert_eq!(object.binding, None);
    gpu.device.fail = None;
    object.bind_memory(&mut gpu, DeviceMemoryHandle(5), 16).unwrap();
    assert_eq!(object.binding, Some(MemoryBinding { memory: DeviceMemoryHandle(5), offset: 16 }));
}

#[test]
fn image_takes_the_lowest_type_both_masks_allow() {
    let mut gpu = new_gpu();
    gpu.device.image_type_bits = 0b110;
    let image = Image::create_2d(&mut gpu, (64, 32), 1, 37, 1, 0x4, MemoryTypeMask(0b101)).unwrap();
    assert_eq!(image.memory.type_index, MemoryTypeIndex(2));
    assert_eq!(image.memory.size, 4096);
    let memory = image.memory.as_raw();
    assert_eq!(image.object.binding, Some(MemoryBinding { memory, offset: 0 }));
    assert_eq!(gpu.device.image_bindings, vec![(image.object.as_raw().0, memory.0, 0)]);
    assert_eq!(image.object.info.width, 64);
    assert_eq!(image.object.info.height, 32);
    assert_eq!(image.object.info.depth, 1);
    assert_eq!(image.object.info.array_layers, 1);
    assert_eq!(image.object.info.mip_levels, 1);
    assert_eq!(gpu.device.images, vec![image.object.info]);
    image.destroy(&mut gpu);
    assert_eq!(gpu.device.total_alive(), 0);
}

#[test]
fn image_creation_fails_on_disjoint_masks_and_cleans_up() {
    let mut gpu = new_gpu();
    gpu.device.image_type_bits = 0b010;
    let created = Image::create_2d(&mut gpu, (8, 8), 1, 37, 1, 0x4, MemoryTypeMask(0b101));
    assert!(matches!(created, Err(Error::NoCompatibleMemoryType)));
    assert_eq!(gpu.device.total_alive(), 0);
    assert_eq!(gpu.device.count("create memory"), 0);
    for step in ["image", "memory", "bind image"] {
        let mut gpu = gpu_with(vec![DEVICE_LOCAL]);
        gpu.device.fail = Some((step, -7));
        let created = Image::create_2d(&mut gpu, (8, 8), 1, 37, 1, 0x4, MemoryTypeMask::any());
        assert_eq!(vk_error(created), -7);
        assert_eq!(gpu.device.total_alive(), 0, "after failing at {}", step);
    }
}

#[test]
fn image_beyond_the_enumerated_types_is_refused() {
    let mut gpu = new_gpu();
    gpu.device.image_type_bits = 0b1000;
    let created = Image::create_2d(&mut gpu, (8, 8), 1, 37, 1, 0x4, MemoryTypeMask::any());
    assert!(matches!(created, Err(Error::NoCompatibleMemoryType)));
    assert_eq!(gpu.device.total_alive(), 0);
}

#[test]
fn cube_image_has_six_layers() {
    let mut gpu = new_gpu();
    let object = ImageObject::create_cube(&mut gpu, (16, 16), 5, 43, 0x6).unwrap();
    assert_eq!(object.info.array_layers, 6);
    assert_eq!(object.info.flags, 0x10);
    assert_eq!(object.info.samples, 1);
    assert_eq!(object.info.mip_levels, 5);
    assert_eq!(object.info.image_type, 1);
}

#[test]
fn image_view_covers_the_whole_image() {
    let mut gpu = new_gpu();
    let view = ImageView::create_2d(&mut gpu, ImageHandle(9), 50, 1).unwrap();
    assert_eq!(view.info.image, ImageHandle(9));
    assert_eq!(view.info.view_type, 1);
    assert_eq!(view.info.format, 50);
    assert_eq!(view.info.aspect_mask, 1);
    assert_eq!(view.info.level_count, !0);
    assert_eq!(view.info.layer_count, !0);
    assert_eq!(gpu.device.views, vec![view.info]);
    let cube = ImageView::create(&mut gpu, ImageHandle(9), 3, 50, 1).unwrap();
    assert_eq!(cube.info.view_type, 3);
    view.destroy(&mut gpu);
    cube.destroy(&mut gpu);
    assert_eq!(gpu.device.total_alive(), 0);
}

#[test]
fn samplers_have_their_fixed_parameters() {
    let mut gpu = new_gpu();
    let nearest = Sampler::nearest(&mut gpu).unwrap();
    assert_eq!(nearest.info.mag_filter, 0);
    assert_eq!(nearest.info.min_filter, 0);
    assert_eq!(nearest.info.address_mode_u, 0);
    assert!(!nearest.info.anisotropy_enable);
    let linear = Sampler::linear(&mut gpu).unwrap();
    assert_eq!(linear.info.mag_filter, 1);
    assert_eq!(linear.info.min_filter, 1);
    assert_eq!(linear.info.mipmap_mode, 1);
    assert_eq!(linear.info.address_mode_u, 2);
    assert_eq!(linear.info.address_mode_v, 2);
    assert_eq!(linear.info.address_mode_w, 2);
    assert!(linear.info.anisotropy_enable);
    assert_eq!(linear.info.max_anisotropy, 16);
    assert_eq!(linear.info.min_lod, 0);
    assert_eq!(linear.info.max_lod, 16);
    nearest.destroy(&mut gpu);
    linear.destroy(&mut gpu);
    assert_eq!(gpu.device.total_alive(), 0);
}

#[test]
fn fence_is_reset_only_after_it_was_seen_signalled() {
    let mut gpu = new_gpu();
    let mut fence = Fence::create(&mut gpu).unwrap();
    assert!(!fence.signalled);
    assert_eq!(fence.is_signalled(&mut gpu), Ok(false));
    assert!(!fence.signalled);
    fence.wait(&mut gpu).unwrap();
    assert!(fence.signalled);
    fence.reset(&mut gpu).unwrap();
    assert!(!fence.signalled);
    let signalled = Fence::create_signalled(&mut gpu).unwrap();
    assert!(signalled.signalled);
    gpu.device.fail = Some(("wait", -4));
    assert_eq!(vk_error(fence.wait(&mut gpu)), -4);
    assert!(!fence.signalled);
    fence.destroy(&mut gpu);
    signalled.destroy(&mut gpu);
    assert_eq!(gpu.device.total_alive(), 0);
}

#[test]
fn semaphore_lives_until_destroyed() {
    let mut gpu = new_gpu();
    let semaphore = Semaphore::create(&mut gpu).unwrap();
    assert_eq!(gpu.device.alive("semaphore"), 1);
    semaphore.destroy(&mut gpu);
    assert_eq!(gpu.device.alive("semaphore"), 0);
}

fn mesh_vertices() -> Vec<u8> {
    (0..4 * 28).map(|i| i as u8).collect()
}

#[test]
fn mesh_shares_one_block_between_vertex_and_index_buffer() {
    let mut gpu = new_gpu();
    gpu.device.alignment = 64;
    let vertices = mesh_vertices();
    let indices = [0u32, 2, 1, 1, 2, 3];
    let mesh = Mesh::create(&mut gpu, &vertices, &indices).unwrap();
    assert_eq!(gpu.device.allocations.len(), 1);
    let (memory, size, type_index) = gpu.device.allocations[0];
    assert!(size >= 4 * 28 + 6 * 4);
    assert_eq!(size, 128 + 64);
    assert_eq!(type_index, 1);
    assert_eq!(mesh.memory.size, size);
    let vertex = &mesh.object.vertex_buffers[0];
    assert_eq!(mesh.object.vertex_buffers.len(), 1);
    assert_eq!(vertex.info, BufferInfo { size: 112, usage: 0x80 });
    assert_eq!(mesh.object.index_buffer.info, BufferInfo { size: 24, usage: 0x40 });
    let reported = vertex.requirements.unwrap().size;
    assert_eq!(reported, 128);
    assert_eq!(vertex.binding, Some(MemoryBinding { memory: DeviceMemoryHandle(memory), offset: 0 }));
    assert_eq!(
        mesh.object.index_buffer.binding,
        Some(MemoryBinding { memory: DeviceMemoryHandle(memory), offset: reported })
    );
    assert_eq!(
        gpu.device.buffer_bindings,
        vec![(vertex.as_raw().0, memory, 0), (mesh.object.index_buffer.as_raw().0, memory, 128)]
    );
    assert_eq!(
        gpu.device.stored,
        vec![
            (memory, 0, vertices.to_vec()),
            (
                memory,
                128,
                vec![0, 0, 0, 0, 2, 0, 0, 0, 1, 0, 0, 0, 1, 0, 0, 0, 2, 0, 0, 0, 3, 0, 0, 0],
            ),
        ]
    );
    assert_eq!(gpu.device.count("unmap"), 1);
    assert_eq!(mesh.object.index_count, 6);
    assert_eq!(mesh.object.index_type, 1);

    let recorder = CommandBuffer::create(&mut gpu).unwrap();
    let mut pass = recorder.begin_render_pass(RenderPassBeginInfo {
        render_pass: RenderPassHandle(1),
        framebuffer: FramebufferHandle(2),
        width: 4,
        height: 4,
        clear_values: vec![[0, 0, 0, 0]],
    });
    mesh.draw(&mut pass);
    let commands = pass.commands();
    assert_eq!(commands.len(), 4);
    assert!(matches!(commands[1], Command::BindVertexBuffer { binding: 0, buffer } if buffer == vertex.as_raw()));
    assert!(matches!(commands[2], Command::BindIndexBuffer { buffer, index_type: 1 } if buffer == mesh.object.index_buffer.as_raw()));
    assert!(matches!(commands[3], Command::DrawIndexed { index_count: 6 }));
    pass.discard(&mut gpu);
    mesh.destroy(&mut gpu);
    assert_eq!(gpu.device.total_alive(), 0);
}

#[test]
fn mesh_creation_leaves_nothing_behind_when_a_step_fails() {
    for step in ["buffer", "memory", "map", "bind buffer"] {
        let mut gpu = new_gpu();
        gpu.device.fail = Some((step, -9));
        assert_eq!(vk_error(Mesh::create(&mut gpu, &mesh_vertices(), &[0, 1, 2])), -9);
        assert_eq!(gpu.device.total_alive(), 0, "after failing at {}", step);
    }
    let mut gpu = gpu_with(vec![DEVICE_LOCAL]);
    let created = Mesh::create(&mut gpu, &mesh_vertices(), &[0, 1, 2]);
    assert!(matches!(created, Err(Error::NoCompatibleMemoryType)));
    assert_eq!(gpu.device.total_alive(), 0);
}

fn layout_of(gpu: &mut Gpu<MockDevice>, uniforms: u32, textures: u32) -> DescriptorSetLayout {
    let mut builder = DescriptorSetLayout::builder();
    for binding in 0..uniforms {
        builder = builder.add_uniform_buffer(binding, 0x7fff_ffff);
    }
    for binding in 0..textures {
        builder = builder.add_combined_image_sampler(uniforms + binding, 0x10);
    }
    builder.build(gpu).unwrap()
}

#[test]
fn descriptor_set_layout_keeps_its_bindings_in_order() {
    let mut gpu = new_gpu();
    let layout = layout_of(&mut gpu, 1, 2);
    assert_eq!(
        layout.bindings(),
        &[
            DescriptorSetLayoutBinding { binding: 0, descriptor_type: 6, descriptor_count: 1, stage_flags: 0x7fff_ffff },
            DescriptorSetLayoutBinding { binding: 1, descriptor_type: 1, descriptor_count: 1, stage_flags: 0x10 },
            DescriptorSetLayoutBinding { binding: 2, descriptor_type: 1, descriptor_count: 1, stage_flags: 0x10 },
        ][..]
    );
    layout.destroy(&mut gpu);
    assert_eq!(gpu.device.total_alive(), 0);
}

#[test]
fn descriptor_pool_gives_out_no_more_sets_than_configured() {
    let mut gpu = new_gpu();
    let layout = layout_of(&mut gpu, 1, 0);
    let sizes = [DescriptorPoolSize { ty: 6, descriptor_count: 10 }];
    let mut pool = DescriptorPool::create(&mut gpu, 2, &sizes).unwrap();
    assert!(pool.fits(&layout));
    pool.allocate(&mut gpu, &layout).unwrap();
    pool.allocate(&mut gpu, &layout).unwrap();
    assert!(!pool.fits(&layout));
    let calls = gpu.device.count("allocate set");
    assert!(matches!(pool.allocate(&mut gpu, &layout), Err(Error::PoolExhausted)));
    assert!(matches!(pool.allocate(&mut gpu, &layout), Err(Error::PoolExhausted)));
    assert_eq!(gpu.device.count("allocate set"), calls);
}

#[test]
fn descriptor_pool_gives_out_no_more_descriptors_of_a_kind_than_configured() {
    let mut gpu = new_gpu();
    let textures = layout_of(&mut gpu, 0, 2);
    let uniform = layout_of(&mut gpu, 1, 0);
    let mixed = layout_of(&mut gpu, 1, 1);
    let sizes = [
        DescriptorPoolSize { ty: 6, descriptor_count: 1 },
        DescriptorPoolSize { ty: 1, descriptor_count: 2 },
        DescriptorPoolSize { ty: 1, descriptor_count: 1 },
    ];
    let mut pool = DescriptorPool::create(&mut gpu, 10, &sizes).unwrap();
    pool.allocate(&mut gpu, &textures).unwrap();
    assert!(matches!(pool.allocate(&mut gpu, &textures), Err(Error::PoolExhausted)));
    pool.allocate(&mut gpu, &mixed).unwrap();
    assert!(matches!(pool.allocate(&mut gpu, &uniform), Err(Error::PoolExhausted)));
    assert!(matches!(pool.allocate(&mut gpu, &mixed), Err(Error::PoolExhausted)));
    let empty = layout_of(&mut gpu, 0, 0);
    assert!(pool.allocate(&mut gpu, &empty).is_ok());
}

#[test]
fn descriptor_pool_counts_nothing_when_the_device_refuses() {
    let mut gpu = new_gpu();
    let layout = layout_of(&mut gpu, 1, 0);
    let sizes = [DescriptorPoolSize { ty: 6, descriptor_count: 1 }];
    let mut pool = DescriptorPool::create(&mut gpu, 1, &sizes).unwrap();
    gpu.device.fail = Some(("allocate set", -1000069000));
    assert_eq!(vk_error(pool.allocate(&mut gpu, &layout).map(|_| ())), -1000069000);
    gpu.device.fail = None;
    assert!(pool.allocate(&mut gpu, &layout).is_ok());
    assert!(matches!(pool.allocate(&mut gpu, &layout), Err(Error::PoolExhausted)));
}

#[test]
fn descriptor_set_updates_write_whole_bindings() {
    let mut gpu = new_gpu();
    let layout = layout_of(&mut gpu, 1, 1);
    let sizes = [
        DescriptorPoolSize { ty: 6, descriptor_count: 1 },
        DescriptorPoolSize { ty: 1, descriptor_count: 1 },
    ];
    let mut pool = DescriptorPool::create(&mut gpu, 1, &sizes).unwrap();
    let mut set = pool.allocate(&mut gpu, &layout).unwrap();
    let handle = set.as_raw();
    set.update_buffer(&mut gpu, 0, 6, BufferHandle(4), 16, 64);
    set.update_combined_image_sampler(&mut gpu, 1, SamplerHandle(5), ImageViewHandle(6), 5);
    set.update_sampler(&mut gpu, 1, SamplerHandle(7));
    set.update_image(&mut gpu, 1, ImageViewHandle(8), 5);
    assert_eq!(
        gpu.device.writes,
        vec![
            WriteDescriptor::Buffer { set: handle, binding: 0, descriptor_type: 6, buffer: BufferHandle(4), offset: 16, range: 64 },
            WriteDescriptor::Image { set: handle, binding: 1, descriptor_type: 1, sampler: SamplerHandle(5), image_view: ImageViewHandle(6), image_layout: 5 },
            WriteDescriptor::Image { set: handle, binding: 1, descriptor_type: 0, sampler: SamplerHandle(7), image_view: ImageViewHandle(0), image_layout: 0 },
            WriteDescriptor::Image { set: handle, binding: 1, descriptor_type: 0, sampler: SamplerHandle(0), image_view: ImageViewHandle(8), image_layout: 5 },
        ]
    );
}

#[test]
fn pipeline_layout_and_cache_live_until_destroyed() {
    let mut gpu = new_gpu();
    let layout = PipelineLayout::create(
        &mut gpu,
        &[DescriptorSetLayoutHandle(1), DescriptorSetLayoutHandle(2)],
        &[PushConstantRange { stage_flags: 1, offset: 0, size: 64 }],
    )
    .unwrap();
    let cache = PipelineCache::create(&mut gpu).unwrap();
    assert_eq!(gpu.device.total_alive(), 2);
    layout.destroy(&mut gpu);
    cache.destroy(&mut gpu);
    assert_eq!(gpu.device.total_alive(), 0);
}

fn begin_info() -> RenderPassBeginInfo {
    RenderPassBeginInfo {
        render_pass: RenderPassHandle(1),
        framebuffer: FramebufferHandle(2),
        width: 640,
        height: 480,
        clear_values: vec![[1, 2, 3, 4]],
    }
}

#[test]
fn commands_reach_the_device_in_recording_order() {
    let mut gpu = new_gpu();
    let mut recorder = CommandBuffer::create(&mut gpu).unwrap();
    assert_eq!(gpu.device.count("begin"), 1);
    recorder.set_viewport_scissor((640, 480));
    let mut pass = recorder.begin_render_pass(begin_info());
    pass.bind_pipeline(PipelineHandle(3));
    pass.bind_descriptor_set(PipelineLayoutHandle(4), 1, DescriptorSetHandle(5));
    pass.push(PipelineLayoutHandle(4), 0x11, 0, &[1, 2, 3]);
    pass.bind_vertex_buffer(2, BufferHandle(6));
    pass.bind_index_buffer(BufferHandle(7), 0);
    pass.draw(3);
    pass.draw_indexed(12);
    let recorder = pass.end_render_pass();
    assert_eq!(recorder.commands().len(), 11);
    let buffer = recorder.end(&mut gpu).unwrap();
    assert_eq!(buffer.commands().len(), 11);
    assert_eq!(gpu.device.recorded.len(), 1);
    let seen = &gpu.device.recorded[0];
    assert!(matches!(seen[0], Command::SetViewport { width: 640, height: 480 }));
    assert!(matches!(seen[1], Command::SetScissor { width: 640, height: 480 }));
    assert!(matches!(&seen[2], Command::BeginRenderPass(info)
        if info.render_pass == RenderPassHandle(1) && info.framebuffer == FramebufferHandle(2)
            && info.width == 640 && info.height == 480 && info.clear_values == vec![[1, 2, 3, 4]]));
    assert!(matches!(seen[3], Command::BindPipeline { pipeline: PipelineHandle(3) }));
    assert!(matches!(seen[4], Command::BindDescriptorSet { layout: PipelineLayoutHandle(4), set_index: 1, set: DescriptorSetHandle(5) }));
    assert!(matches!(&seen[5], Command::PushConstants { layout: PipelineLayoutHandle(4), stage_flags: 0x11, offset: 0, data } if data == &vec![1, 2, 3]));
    assert!(matches!(seen[6], Command::BindVertexBuffer { binding: 2, buffer: BufferHandle(6) }));
    assert!(matches!(seen[7], Command::BindIndexBuffer { buffer: BufferHandle(7), index_type: 0 }));
    assert!(matches!(seen[8], Command::Draw { vertex_count: 3 }));
    assert!(matches!(seen[9], Command::DrawIndexed { index_count: 12 }));
    assert!(matches!(seen[10], Command::EndRenderPass));
    let handle = buffer.as_raw();
    buffer.submit(&mut gpu).unwrap();
    assert_eq!(gpu.device.submissions, vec![(handle.0, None)]);
    assert_eq!(gpu.device.count("wait"), 1);
    assert_eq!(gpu.device.total_alive(), 0);
}

#[test]
fn submit_after_waits_for_the_semaphore() {
    let mut gpu = new_gpu();
    let buffer = CommandBuffer::create(&mut gpu).unwrap().end(&mut gpu).unwrap();
    let handle = buffer.as_raw();
    buffer.submit_after(&mut gpu, SemaphoreHandle(44), 0x400).unwrap();
    assert_eq!(
        gpu.device.submissions,
        vec![(handle.0, Some(SubmitWait { semaphore: SemaphoreHandle(44), stage_mask: 0x400 }))]
    );
    assert_eq!(gpu.device.total_alive(), 0);
}

#[test]
fn command_buffer_is_freed_in_whatever_state_it_is_dropped() {
    let mut gpu = new_gpu();
    let recorder = CommandBuffer::create(&mut gpu).unwrap();
    assert_eq!(gpu.device.alive("command buffer"), 1);
    recorder.discard(&mut gpu);
    assert_eq!(gpu.device.alive("command buffer"), 0);

    let pass = CommandBuffer::create(&mut gpu).unwrap().begin_render_pass(begin_info());
    pass.discard(&mut gpu);
    assert_eq!(gpu.device.alive("command buffer"), 0);

    let buffer = CommandBuffer::create(&mut gpu).unwrap().end(&mut gpu).unwrap();
    buffer.discard(&mut gpu);
    assert_eq!(gpu.device.alive("command buffer"), 0);
    assert_eq!(gpu.device.count("submit"), 0);
    assert_eq!(gpu.device.total_alive(), 0);
}

#[test]
fn command_buffer_is_freed_when_the_device_fails() {
    for step in ["command buffer", "begin", "end", "fence", "submit", "wait"] {
        let mut gpu = new_gpu();
        gpu.device.fail = Some((step, -4));
        let outcome = CommandBuffer::create(&mut gpu)
            .and_then(|recorder| recorder.end(&mut gpu))
            .and_then(|buffer| buffer.submit(&mut gpu));
        assert_eq!(vk_error(outcome), -4);
        assert_eq!(gpu.device.total_alive(), 0, "after failing at {}", step);
    }
}

#[test]
fn copies_and_barriers_are_recorded_outside_a_render_pass() {
    let mut gpu = new_gpu();
    let mut recorder = CommandBuffer::create(&mut gpu).unwrap();
    let layers = ImageSubresourceLayers { aspect_mask: 1, mip_level: 0, base_array_layer: 0, layer_count: 1 };
    let origin = Offset3D { x: 0, y: 0, z: 0 };
    let extent = Extent3D { width: 4, height: 4, depth: 1 };
    let region = BufferImageCopy { buffer_offset: 8, image_subresource: layers, image_offset: origin, image_extent: extent };
    recorder.copy_buffer_to_image(BufferHandle(1), ImageHandle(2), 7, &[region]);
    let copy = ImageCopy { src_subresource: layers, src_offset: origin, dst_subresource: layers, dst_offset: origin, extent };
    recorder.copy_image_to_image(ImageHandle(2), 6, ImageHandle(3), 7, &[copy, copy]);
    let blit = ImageBlit { src_subresource: layers, src_begin: origin, src_end: Offset3D { x: 4, y: 4, z: 1 }, dst_subresource: layers, dst_begin: origin, dst_end: Offset3D { x: 2, y: 2, z: 1 } };
    recorder.blit_image(ImageHandle(2), 6, ImageHandle(3), 7, &[blit], 1);
    let barrier = ImageMemoryBarrier {
        src_access_mask: 0,
        dst_access_mask: 0x800,
        old_layout: 0,
        new_layout: 7,
        image: ImageHandle(2),
        subresource_range: ImageSubresourceRange { aspect_mask: 1, base_mip_level: 0, level_count: !0, base_array_layer: 0, layer_count: !0 },
    };
    recorder.image_transition(0x4000, 0x1000, &[barrier]);
    let commands = recorder.commands();
    assert_eq!(commands.len(), 4);
    assert!(matches!(&commands[0], Command::CopyBufferToImage { src_buffer: BufferHandle(1), dst_image: ImageHandle(2), dst_image_layout: 7, regions } if regions == &vec![region]));
    assert!(matches!(&commands[1], Command::CopyImage { src_image: ImageHandle(2), src_image_layout: 6, dst_image: ImageHandle(3), dst_image_layout: 7, regions } if regions == &vec![copy, copy]));
    assert!(matches!(&commands[2], Command::BlitImage { src_image: ImageHandle(2), src_image_layout: 6, dst_image: ImageHandle(3), dst_image_layout: 7, regions, filter: 1 } if regions == &vec![blit]));
    assert!(matches!(&commands[3], Command::PipelineBarrier { src_stage_mask: 0x4000, dst_stage_mask: 0x1000, barriers } if barriers == &vec![barrier]));
    recorder.discard(&mut gpu);
}

fn swapchain_objects(images: i64) -> Vec<(&'static str, i64)> {
    vec![
        ("swapchain", 1),
        ("image", 2),
        ("memory", 2),
        ("image view", 2 + images),
        ("framebuffer", images),
    ]
}

fn assert_alive(gpu: &Gpu<MockDevice>, expected: &[(&'static str, i64)]) {
    for (kind, count) in expected {
        assert_eq!(gpu.device.alive(kind), *count, "live objects of kind {}", kind);
    }
    let total: i64 = expected.iter().map(|(_, count)| count).sum();
    assert_eq!(gpu.device.total_alive(), total);
}

#[test]
fn swapchain_has_a_view_and_a_framebuffer_per_image() {
    let mut gpu = new_gpu();
    gpu.device.swapchain_images = 4;
    let swapchain = Swapchain::create(
        &mut gpu,
        SwapchainHandle(0),
        SurfaceHandle(7),
        RenderPassHandle(8),
        (800, 600),
        50,
        4,
    )
    .unwrap();
    assert_eq!(swapchain.image_count(), 4);
    assert_alive(&gpu, &swapchain_objects(4));
    let info = gpu.device.swapchains[0];
    assert_eq!(info.surface, SurfaceHandle(7));
    assert_eq!(info.old_swapchain, SwapchainHandle(0));
    assert_eq!((info.width, info.height), (800, 600));
    assert_eq!(info.min_image_count, 2);
    assert_eq!(info.image_format, 50);
    assert_eq!(info.image_usage, 0x12);
    assert_eq!(info.present_mode, 2);
    assert_eq!(gpu.device.images[0].format, 126);
    assert_eq!(gpu.device.images[0].samples, 4);
    assert_eq!(gpu.device.images[0].usage, 0x20);
    assert_eq!(gpu.device.images[1].format, 50);
    assert_eq!(gpu.device.images[1].usage, 0x10);
    let item = swapchain.next(&mut gpu, 5, SemaphoreHandle(1), FenceHandle(0)).unwrap();
    assert_eq!(item.index, 0);
    swapchain.destroy(&mut gpu);
    assert_eq!(gpu.device.total_alive(), 0);
}

#[test]
fn swapchain_creation_leaves_nothing_behind_when_a_step_fails() {
    for step in ["swapchain", "image", "memory", "bind image", "image view", "swapchain images", "framebuffer"] {
        let mut gpu = new_gpu();
        gpu.device.fail = Some((step, -6));
        let created = Swapchain::create(
            &mut gpu,
            SwapchainHandle(0),
            SurfaceHandle(7),
            RenderPassHandle(8),
            (800, 600),
            50,
            1,
        );
        assert_eq!(vk_error(created.map(|_| ())), -6);
        assert_eq!(gpu.device.total_alive(), 0, "after failing at {}", step);
    }
}

#[test]
fn swapchain_next_refuses_an_index_beyond_its_images() {
    let mut gpu = new_gpu();
    let swapchain = Swapchain::create(&mut gpu, SwapchainHandle(0), SurfaceHandle(7), RenderPassHandle(8), (8, 8), 50, 1).unwrap();
    gpu.device.acquire = vec![Ok(AcquiredImage { index: 3, suboptimal: false }), Ok(AcquiredImage { index: 2, suboptimal: true })];
    assert!(swapchain.next(&mut gpu, 0, SemaphoreHandle(1), FenceHandle(0)).is_err());
    let item = swapchain.next(&mut gpu, 0, SemaphoreHandle(1), FenceHandle(0)).unwrap();
    assert_eq!(item.index, 2);
}

#[test]
fn resizing_twice_replaces_the_swapchain_each_time() {
    let mut gpu = new_gpu();
    let mut renderer = Renderer::create(&mut gpu, SurfaceHandle(7), (800, 600)).unwrap();
    let mut expected = swapchain_objects(3);
    expected.push(("render pass", 1));
    expected.push(("semaphore", 1));
    assert_alive(&gpu, &expected);
    let first = renderer.swapchain.as_raw();

    renderer.resize(&mut gpu, (1024, 768)).unwrap();
    assert_eq!(renderer.size, (1024, 768));
    assert_alive(&gpu, &expected);
    let second = renderer.swapchain.as_raw();
    assert_ne!(first, second);

    gpu.device.swapchain_images = 2;
    renderer.resize(&mut gpu, (640, 480)).unwrap();
    assert_eq!(renderer.size, (640, 480));
    let mut smaller = swapchain_objects(2);
    smaller.push(("render pass", 1));
    smaller.push(("semaphore", 1));
    assert_alive(&gpu, &smaller);

    assert_eq!(gpu.device.swapchains.len(), 3);
    assert_eq!(gpu.device.swapchains[0].old_swapchain, SwapchainHandle(0));
    assert_eq!(gpu.device.swapchains[1].old_swapchain, first);
    assert_eq!(gpu.device.swapchains[2].old_swapchain, second);
    assert_eq!((gpu.device.swapchains[2].width, gpu.device.swapchains[2].height), (640, 480));
    assert_eq!(gpu.device.count("destroy swapchain"), 2);
    assert_eq!(gpu.device.count("destroy framebuffer"), 6);
    assert_eq!(gpu.device.count("destroy image view"), 2 * (2 + 3));
    assert_eq!(gpu.device.count("present"), 0);

    renderer.destroy(&mut gpu);
    assert_eq!(gpu.device.total_alive(), 0);
}

#[test]
fn resizing_to_the_same_size_asks_nothing_of_the_device() {
    let mut gpu = new_gpu();
    let mut renderer = Renderer::create(&mut gpu, SurfaceHandle(7), (800, 600)).unwrap();
    let calls = gpu.device.calls.len();
    renderer.resize(&mut gpu, (800, 600)).unwrap();
    assert_eq!(gpu.device.calls.len(), calls);
    assert_eq!(renderer.size, (800, 600));
}

#[test]
fn a_failed_resize_keeps_the_old_swapchain() {
    let mut gpu = new_gpu();
    let mut renderer = Renderer::create(&mut gpu, SurfaceHandle(7), (800, 600)).unwrap();
    let before = renderer.swapchain.as_raw();
    gpu.device.fail = Some(("framebuffer", -8));
    assert_eq!(vk_error(renderer.resize(&mut gpu, (1, 1))), -8);
    assert_eq!(renderer.size, (800, 600));
    assert_eq!(renderer.swapchain.as_raw(), before);
    let mut expected = swapchain_objects(3);
    expected.push(("render pass", 1));
    expected.push(("semaphore", 1));
    assert_alive(&gpu, &expected);
}

#[test]
fn renderer_takes_the_highest_supported_sample_count() {
    let mut gpu = new_gpu();
    gpu.device.sample_counts = 0b0111;
    let renderer = Renderer::create(&mut gpu, SurfaceHandle(7), (8, 8)).unwrap();
    assert_eq!(renderer.samples, 4);
    assert_eq!(renderer.color_format, 50);
    assert_eq!(renderer.surface, SurfaceHandle(7));
}

#[test]
fn renderer_creation_leaves_nothing_behind_when_a_step_fails() {
    for step in ["sample counts", "render pass", "semaphore", "swapchain", "framebuffer"] {
        let mut gpu = new_gpu();
        gpu.device.fail = Some((step, -6));
        assert_eq!(vk_error(Renderer::create(&mut gpu, SurfaceHandle(7), (8, 8)).map(|_| ())), -6);
        assert_eq!(gpu.device.total_alive(), 0, "after failing at {}", step);
    }
}

#[test]
fn a_stale_swapchain_is_rebuilt_on_acquire() {
    let mut gpu = new_gpu();
    let mut renderer = Renderer::create(&mut gpu, SurfaceHandle(7), (800, 600)).unwrap();
    let first = renderer.swapchain.as_raw();
    gpu.device.acquire = vec![Err(-1000001004), Ok(AcquiredImage { index: 1, suboptimal: false })];
    let item = renderer.acquire_image(&mut gpu).unwrap();
    assert_eq!(item.index, 1);
    assert_ne!(renderer.swapchain.as_raw(), first);
    assert_eq!(gpu.device.swapchains.len(), 2);
    assert_eq!(gpu.device.swapchains[1].old_swapchain, first);
    assert_eq!(gpu.device.count("acquire"), 2);
    assert_eq!(gpu.device.alive("swapchain"), 1);
    assert_eq!(gpu.device.alive("framebuffer"), 3);
}

#[test]
fn a_failed_acquire_is_reported() {
    let mut gpu = new_gpu();
    let mut renderer = Renderer::create(&mut gpu, SurfaceHandle(7), (800, 600)).unwrap();
    gpu.device.acquire = vec![Err(-4)];
    assert_eq!(vk_error(renderer.acquire_image(&mut gpu).map(|_| ())), -4);
    assert_eq!(gpu.device.swapchains.len(), 1);
}

#[test]
fn a_stale_swapchain_is_rebuilt_on_present() {
    for stale in [Ok(1000001003), Err(-1000001004), Ok(-1000001004)] {
        let mut gpu = new_gpu();
        let mut renderer = Renderer::create(&mut gpu, SurfaceHandle(7), (800, 600)).unwrap();
        gpu.device.present = vec![stale];
        renderer.present(&mut gpu, 0).unwrap();
        assert_eq!(gpu.device.swapchains.len(), 2);
        assert_eq!(gpu.device.alive("swapchain"), 1);
    }
    let mut gpu = new_gpu();
    let mut renderer = Renderer::create(&mut gpu, SurfaceHandle(7), (800, 600)).unwrap();
    renderer.present(&mut gpu, 0).unwrap();
    assert_eq!(gpu.device.swapchains.len(), 1);
    gpu.device.present = vec![Ok(-4)];
    assert_eq!(vk_error(renderer.present(&mut gpu, 0)), -4);
    gpu.device.present = vec![Err(-3)];
    assert_eq!(vk_error(renderer.present(&mut gpu, 0)), -3);
    assert_eq!(gpu.device.swapchains.len(), 1);
}

fn texture_objects() -> Vec<(&'static str, i64)> {
    vec![("image", 1), ("memory", 1), ("image view", 1), ("sampler", 1)]
}

#[test]
fn texture_has_a_full_mip_chain() {
    let mut gpu = new_gpu();
    let texture = Texture::create(&mut gpu, 300, 100, 43).unwrap();
    assert_eq!((texture.width, texture.height), (300, 100));
    assert_eq!(texture.image.object.info.mip_levels, 9);
    assert_eq!(texture.image.object.info.usage, 0x7);
    assert_eq!(texture.image.object.info.format, 43);
    assert_eq!(texture.image_view.info.image, texture.image.object.as_raw());
    assert_eq!(texture.sampler.info.max_lod, 16);
    assert_alive(&gpu, &texture_objects());
    texture.destroy(&mut gpu);
    assert_eq!(gpu.device.total_alive(), 0);
}

#[test]
fn texture_without_texels_or_too_large_is_refused() {
    let mut gpu = new_gpu();
    assert!(matches!(Texture::create(&mut gpu, 0, 4, 43), Err(Error::TooLarge)));
    assert!(matches!(Texture::create(&mut gpu, 4, 0, 43), Err(Error::TooLarge)));
    assert!(matches!(Texture::create(&mut gpu, 0x8000_0000, 4, 43), Err(Error::TooLarge)));
    assert!(gpu.device.calls.is_empty());
    for step in ["image", "memory", "bind image", "image view", "sampler"] {
        let mut gpu = new_gpu();
        gpu.device.fail = Some((step, -6));
        assert_eq!(vk_error(Texture::create(&mut gpu, 4, 4, 43).map(|_| ())), -6);
        assert_eq!(gpu.device.total_alive(), 0, "after failing at {}", step);
    }
}

#[test]
fn texture_copy_fills_every_mip_level() {
    let mut gpu = new_gpu();
    let texture = Texture::create(&mut gpu, 8, 2, 37).unwrap();
    let image = texture.image.object.as_raw();
    texture.copy_from(&mut gpu, BufferHandle(77), 16).unwrap();
    assert_alive(&gpu, &texture_objects());
    assert_eq!(gpu.device.count("submit"), 1);
    let commands = &gpu.device.recorded[0];
    assert_eq!(commands.len(), 5);
    assert!(matches!(&commands[0], Command::PipelineBarrier { src_stage_mask: 0x4000, dst_stage_mask: 0x1000, barriers }
        if barriers.len() == 1 && barriers[0].image == image && barriers[0].old_layout == 0 && barriers[0].new_layout == 7
            && barriers[0].src_access_mask == 0 && barriers[0].dst_access_mask == 0x800
            && barriers[0].subresource_range.level_count == !0));
    assert!(matches!(&commands[1], Command::CopyBufferToImage { src_buffer: BufferHandle(77), dst_image, dst_image_layout: 7, regions }
        if *dst_image == image && regions.len() == 1 && regions[0].buffer_offset == 16
            && regions[0].image_extent == (Extent3D { width: 8, height: 2, depth: 1 })
            && regions[0].image_subresource.mip_level == 0));
    assert!(matches!(&commands[2], Command::PipelineBarrier { src_stage_mask: 0x1000, dst_stage_mask: 0x1000, barriers }
        if barriers.len() == 1 && barriers[0].old_layout == 7 && barriers[0].new_layout == 6
            && barriers[0].subresource_range.level_count == 1));
    match &commands[3] {
        Command::BlitImage { src_image, src_image_layout: 6, dst_image, dst_image_layout: 7, regions, filter: 1 } => {
            assert_eq!((*src_image, *dst_image), (image, image));
            assert_eq!(regions.len(), 3);
            let ends: Vec<(i32, i32, i32)> = regions.iter().map(|r| (r.dst_end.x, r.dst_end.y, r.dst_end.z)).collect();
            assert_eq!(ends, vec![(4, 1, 1), (2, 1, 1), (1, 1, 1)]);
            for (at, region) in regions.iter().enumerate() {
                assert_eq!(region.src_end, Offset3D { x: 8, y: 2, z: 1 });
                assert_eq!(region.src_subresource.mip_level, 0);
                assert_eq!(region.dst_subresource.mip_level, at as u32 + 1);
            }
        }
        _ => panic!("expected a blit"),
    }
    assert!(matches!(&commands[4], Command::PipelineBarrier { src_stage_mask: 0x1000, dst_stage_mask: 0x80, barriers }
        if barriers.len() == 2 && barriers[0].new_layout == 5 && barriers[1].new_layout == 5
            && barriers[0].old_layout == 6 && barriers[1].old_layout == 7
            && barriers[1].subresource_range.base_mip_level == 1));
    for step in ["command buffer", "end", "submit"] {
        gpu.device.fail = Some((step, -4));
        assert_eq!(vk_error(texture.copy_from(&mut gpu, BufferHandle(77), 0)), -4);
        assert_alive(&gpu, &texture_objects());
    }
}

fn encode_png(width: u32, height: u32, color: png::ColorType, data: &[u8]) -> Vec<u8> {
    let mut bytes = Vec::new();
    {
        let mut encoder = png::Encoder::new(&mut bytes, width, height);
        encoder.set_color(color);
        encoder.set_depth(png::BitDepth::Eight);
        let mut writer = encoder.write_header().unwrap();
        writer.write_image_data(data).unwrap();
    }
    bytes
}

#[test]
fn png_with_three_samples_is_expanded_to_four() {
    let mut gpu = new_gpu();
    let rgb: Vec<u8> = (1..=18).collect();
    let file = encode_png(3, 2, png::ColorType::RGB, &rgb);
    assert_ne!(file, rgb);
    let texture = load_png(&mut gpu, &file, true).unwrap();
    assert_eq!((texture.width, texture.height), (3, 2));
    assert_eq!(texture.image.object.info.format, 43);
    assert_eq!(texture.image.object.info.mip_levels, 2);
    assert_alive(&gpu, &texture_objects());
    let expected: Vec<u8> = vec![
        1, 2, 3, 255, 4, 5, 6, 255, 7, 8, 9, 255, 10, 11, 12, 255, 13, 14, 15, 255, 16, 17, 18, 255,
    ];
    assert_eq!(gpu.device.stored.len(), 1);
    assert_eq!(gpu.device.stored[0].2, expected);
    assert!(matches!(&gpu.device.recorded[0][1], Command::CopyBufferToImage { regions, .. }
        if regions[0].image_extent == (Extent3D { width: 3, height: 2, depth: 1 }) && regions[0].buffer_offset == 0));
}

#[test]
fn png_with_four_samples_is_uploaded_as_it_is() {
    let mut gpu = new_gpu();
    let rgba: Vec<u8> = (0..16).map(|i| i * 3).collect();
    let file = encode_png(2, 2, png::ColorType::RGBA, &rgba);
    let texture = load_png(&mut gpu, &file, false).unwrap();
    assert_eq!((texture.width, texture.height), (2, 2));
    assert_eq!(texture.image.object.info.format, 37);
    assert_eq!(gpu.device.stored[0].2, rgba);
    assert_alive(&gpu, &texture_objects());
}

#[test]
fn png_that_cannot_be_uploaded_is_refused() {
    let mut gpu = new_gpu();
    assert!(matches!(load_png(&mut gpu, b"not a picture", false), Err(Error::Png)));
    assert!(matches!(load_png(&mut gpu, &[], false), Err(Error::Png)));
    let gray = encode_png(2, 2, png::ColorType::Grayscale, &[1, 2, 3, 4]);
    assert!(matches!(load_png(&mut gpu, &gray, false), Err(Error::Png)));
    let mut truncated = encode_png(2, 2, png::ColorType::RGBA, &[9; 16]);
    truncated.truncate(40);
    assert!(matches!(load_png(&mut gpu, &truncated, false), Err(Error::Png)));
    assert!(gpu.device.calls.is_empty());
    for step in ["buffer", "map", "image", "sampler", "command buffer", "submit"] {
        let mut gpu = new_gpu();
        gpu.device.fail = Some((step, -6));
        let file = encode_png(2, 2, png::ColorType::RGBA, &[9; 16]);
        assert_eq!(vk_error(load_png(&mut gpu, &file, false).map(|_| ())), -6);
        assert_eq!(gpu.device.total_alive(), 0, "after failing at {}", step);
    }
}

fn ktx_file(format: u32, width: u32, height: u32, faces: u32, levels: &[&[u8]]) -> Vec<u8> {
    let mut bytes = vec![0xab, b'K', b'T', b'X', b' ', b'2', b'0', 0xbb, b'\r', b'\n', 0x1a, b'\n'];
    for field in [format, 1, width, height, 0, 0, faces, levels.len() as u32, 0, 0, 0, 0, 0] {
        bytes.extend_from_slice(&field.to_le_bytes());
    }
    bytes.extend_from_slice(&0u64.to_le_bytes());
    bytes.extend_from_slice(&0u64.to_le_bytes());
    let mut offset = (80 + 24 * levels.len()) as u64 + 8;
    let mut placed = Vec::new();
    for level in levels.iter().rev() {
        placed.push((offset, level.len() as u64));
        offset += level.len() as u64;
    }
    placed.reverse();
    for (at, length) in &placed {
        bytes.extend_from_slice(&at.to_le_bytes());
        bytes.extend_from_slice(&length.to_le_bytes());
        bytes.extend_from_slice(&length.to_le_bytes());
    }
    bytes.extend_from_slice(&[0xee; 8]);
    for level in levels.iter().rev() {
        bytes.extend_from_slice(level);
    }
    bytes
}

#[test]
fn ktx_levels_are_copied_one_by_one() {
    let mut gpu = new_gpu();
    let level0: Vec<u8> = (0..64).collect();
    let level1: Vec<u8> = (100..116).collect();
    let level2: Vec<u8> = vec![200, 201, 202, 203];
    let file = ktx_file(37, 4, 4, 1, &[&level0, &level1, &level2]);
    let texture = load_ktx(&mut gpu, &file).unwrap();
    assert_eq!((texture.width, texture.height), (4, 4));
    assert_eq!(texture.image.object.info.mip_levels, 3);
    assert_eq!(texture.image.object.info.array_layers, 1);
    assert_eq!(texture.image.object.info.format, 37);
    assert_eq!(texture.image.object.info.usage, 0x6);
    assert_eq!(texture.image_view.info.view_type, 1);
    assert_alive(&gpu, &texture_objects());
    let mut data = level2.clone();
    data.extend_from_slice(&level1);
    data.extend_from_slice(&level0);
    assert_eq!(gpu.device.stored.len(), 1);
    assert_eq!(gpu.device.stored[0].2, data);
    let commands = &gpu.device.recorded[0];
    assert_eq!(commands.len(), 5);
    assert!(matches!(&commands[0], Command::PipelineBarrier { src_stage_mask: 0x4000, dst_stage_mask: 0x1000, .. }));
    let expected = [(20u64, 4u32), (4, 2), (0, 1)];
    for (level, (offset, size)) in expected.iter().enumerate() {
        assert!(matches!(&commands[1 + level], Command::CopyBufferToImage { dst_image_layout: 7, regions, .. }
            if regions.len() == 1 && regions[0].buffer_offset == *offset
                && regions[0].image_subresource.mip_level == level as u32
                && regions[0].image_subresource.layer_count == 1
                && regions[0].image_extent == (Extent3D { width: *size, height: *size, depth: 1 })));
    }
    assert!(matches!(&commands[4], Command::PipelineBarrier { src_stage_mask: 0x1000, dst_stage_mask: 0x80, barriers }
        if barriers[0].old_layout == 7 && barriers[0].new_layout == 5));
}

#[test]
fn ktx_with_six_faces_becomes_a_cube() {
    let mut gpu = new_gpu();
    let faces: Vec<u8> = vec![5; 6 * 4];
    let file = ktx_file(43, 1, 1, 6, &[&faces]);
    let texture = load_ktx(&mut gpu, &file).unwrap();
    assert_eq!(texture.image.object.info.array_layers, 6);
    assert_eq!(texture.image.object.info.flags, 0x10);
    assert_eq!(texture.image_view.info.view_type, 3);
    assert!(matches!(&gpu.device.recorded[0][1], Command::CopyBufferToImage { regions, .. }
        if regions[0].image_subresource.layer_count == 6));
}

#[test]
fn ktx_that_cannot_be_loaded_asks_nothing_of_the_device() {
    let mut gpu = new_gpu();
    let good = ktx_file(37, 2, 2, 1, &[&[1; 16]]);
    assert!(matches!(load_ktx(&mut gpu, &good[..79]), Err(Error::Io)));
    let mut wrong = good.clone();
    wrong[1] = b'k';
    assert!(matches!(load_ktx(&mut gpu, &wrong), Err(Error::Ktx)));
    assert!(matches!(load_ktx(&mut gpu, &good[..good.len() - 1]), Err(Error::Io)));
    let mut faces = good.clone();
    faces[36] = 2;
    assert!(matches!(load_ktx(&mut gpu, &faces), Err(Error::Ktx)));
    assert!(gpu.device.calls.is_empty());
    let mut format = good.clone();
    format[15] = 0x80;
    assert!(matches!(load_ktx(&mut gpu, &format), Err(Error::Ktx)));
    assert!(gpu.device.calls.is_empty());
    for step in ["image", "buffer", "map", "memory", "command buffer", "wait", "image view", "sampler"] {
        let mut gpu = new_gpu();
        gpu.device.fail = Some((step, -6));
        assert_eq!(vk_error(load_ktx(&mut gpu, &good).map(|_| ())), -6);
        assert_eq!(gpu.device.total_alive(), 0, "after failing at {}", step);
    }
}

fn scene_definition() -> (definition::Scene, SceneAssets) {
    let program = definition::Program {
        id: 10,
        vertex_input: vec![definition::VertexInputBinding {
            binding: 0,
            stride: 28,
            attributes: vec![
                definition::VertexAttribute { location: 0, offset: 0, format: definition::AttributeFormat::Vec3 },
                definition::VertexAttribute { location: 1, offset: 12, format: definition::AttributeFormat::Vec4 },
            ],
        }],
        descriptors: vec![definition::Descriptor {
            binding: 0,
            ty: definition::DescriptorType::Texture,
            stages: vec![definition::StageType::Fragment],
        }],
        vertex: String::from("void main() {}"),
        fragment: String::from("void main() {}"),
    };
    let material = definition::Material {
        id: 20,
        program: 10,
        textures: vec![definition::MaterialTexture { location: 0, texture: 30 }],
    };
    let texture = definition::TextureFile {
        id: 30,
        format: definition::TextureFormat::Png,
        space: definition::TextureColorSpace::Srgb,
        path: String::from("checker.png"),
    };
    let file = definition::File { id: 40, path: String::from("quad.bin") };
    let mesh = definition::Mesh {
        transform: (0..64).collect(),
        material: 20,
        bindings: vec![definition::MeshBinding {
            binding: 0,
            view: definition::BufferView { buffer: 40, offset: 0, size: 112 },
        }],
        indices: definition::MeshIndices {
            count: 6,
            format: definition::MeshIndexFormat::U16,
            view: definition::BufferView { buffer: 40, offset: 112, size: 12 },
        },
    };
    let scene = definition::Scene {
        programs: vec![program],
        materials: vec![material],
        textures: vec![texture],
        buffers: vec![file],
        meshes: vec![mesh],
    };
    let assets = SceneAssets {
        shaders: vec![CompiledProgram { vertex: vec![0x0723_0203, 1], fragment: vec![0x0723_0203, 2] }],
        textures: vec![encode_png(2, 2, png::ColorType::RGBA, &[128; 16])],
        buffers: vec![(0..124).map(|i| i as u8).collect()],
    };
    (scene, assets)
}

fn scene_objects() -> Vec<(&'static str, i64)> {
    vec![
        ("pipeline cache", 1),
        ("set layout", 1),
        ("pipeline layout", 1),
        ("shader", 2),
        ("pipeline", 1),
        ("image", 1),
        ("image view", 1),
        ("sampler", 1),
        ("memory", 1 + 2 + 1),
        ("buffer", 2 + 1),
        ("pool", 1),
    ]
}

#[test]
fn scene_is_built_from_its_declaration() {
    let mut gpu = new_gpu();
    let (declared, assets) = scene_definition();
    assert!(is_consistent(&declared, &assets));
    let scene = Scene::parse(&mut gpu, &declared, &assets, RenderPassHandle(3), 4).unwrap();
    assert_alive(&gpu, &scene_objects());
    assert_eq!(scene.program_ids, vec![10]);
    assert_eq!(scene.material_ids, vec![20]);
    assert_eq!(scene.texture_ids, vec![30]);
    assert_eq!(scene.models.len(), 1);
    assert_eq!(scene.models[0].material, 20);
    assert_eq!(scene.models[0].mesh.index_count, 6);
    assert_eq!(scene.models[0].mesh.index_type, 0);
    assert_eq!(scene.models[0].mesh.vertex_buffers.len(), 1);
    assert_eq!(scene.memories.len(), 2);
    assert_eq!(gpu.device.pipelines, vec![(2, 1, 2)]);
    let vertex_bytes: Vec<u8> = (0..112).map(|i| i as u8).collect();
    let index_bytes: Vec<u8> = (112..124).map(|i| i as u8).collect();
    assert!(gpu.device.stored.iter().any(|(_, offset, bytes)| *offset == 0 && *bytes == vertex_bytes));
    assert!(gpu.device.stored.iter().any(|(_, offset, bytes)| *offset == 0 && *bytes == index_bytes));
    let texture = &scene.textures[0];
    assert!(gpu.device.writes.contains(&WriteDescriptor::Image {
        set: scene.materials[0].descriptors.as_raw(),
        binding: 0,
        descriptor_type: 1,
        sampler: texture.sampler.as_raw(),
        image_view: texture.image_view.as_raw(),
        image_layout: 5,
    }));
    let uniforms: BufferHandle = scene.view_uniform_buffer.as_raw();
    assert!(gpu.device.writes.contains(&WriteDescriptor::Buffer {
        set: scene.view_set.as_raw(),
        binding: 0,
        descriptor_type: 6,
        buffer: uniforms,
        offset: 0,
        range: 140,
    }));
    scene.destroy(&mut gpu);
    assert_eq!(gpu.device.total_alive(), 0);
}

#[test]
fn scene_building_leaves_nothing_behind_when_a_step_fails() {
    let (declared, assets) = scene_definition();
    for step in [
        "set layout", "pipeline cache", "pipeline layout", "shader", "pool", "image", "sampler",
        "allocate set", "buffer", "memory", "pipeline", "map", "bind buffer", "submit",
    ] {
        let mut gpu = new_gpu();
        gpu.device.fail = Some((step, -6));
        let built = Scene::parse(&mut gpu, &declared, &assets, RenderPassHandle(3), 4);
        assert_eq!(vk_error(built.map(|_| ())), -6);
        assert_eq!(gpu.device.total_alive(), 0, "after failing at {}", step);
    }
    let mut gpu = new_gpu();
    let (mut declared, assets) = scene_definition();
    declared.meshes[0].indices.view.size = 13;
    assert!(is_consistent(&declared, &assets));
    let built = Scene::parse(&mut gpu, &declared, &assets, RenderPassHandle(3), 4);
    assert!(matches!(built, Err(Error::Io)));
    assert_eq!(gpu.device.total_alive(), 0);
}

#[test]
fn a_declaration_with_dangling_numbers_is_not_consistent() {
    let (declared, assets) = scene_definition();
    assert!(is_consistent(&declared, &assets));
    let (mut dangling, _) = scene_definition();
    dangling.materials[0].program = 11;
    assert!(!is_consistent(&dangling, &assets));
    let (mut dangling, _) = scene_definition();
    dangling.materials[0].textures[0].texture = 31;
    assert!(!is_consistent(&dangling, &assets));
    let (mut dangling, _) = scene_definition();
    dangling.meshes[0].material = 21;
    assert!(!is_consistent(&dangling, &assets));
    let (mut dangling, _) = scene_definition();
    dangling.meshes[0].bindings[0].view.buffer = 41;
    assert!(!is_consistent(&dangling, &assets));
    let (mut dangling, _) = scene_definition();
    dangling.meshes[0].indices.view.buffer = 41;
    assert!(!is_consistent(&dangling, &assets));
    let (_, mut short) = scene_definition();
    short.textures.clear();
    assert!(!is_consistent(&declared, &short));
}

#[test]
fn scene_draws_every_model() {
    let mut gpu = new_gpu();
    let (declared, assets) = scene_definition();
    let scene = Scene::parse(&mut gpu, &declared, &assets, RenderPassHandle(3), 4).unwrap();
    let stored = gpu.device.stored.len();
    let mut pass = CommandBuffer::create(&mut gpu).unwrap().begin_render_pass(begin_info());
    let uniforms = [3u8; 140];
    scene.render(&mut gpu, &mut pass, &uniforms).unwrap();
    assert_eq!(gpu.device.stored.len(), stored + 1);
    assert_eq!(gpu.device.stored[stored].2, uniforms.to_vec());
    let material = &scene.materials[0];
    let layout = scene.programs[0].pipeline_layout.as_raw();
    let mesh = &scene.models[0].mesh;
    let commands = pass.commands();
    assert_eq!(commands.len(), 1 + 4 + 3);
    assert!(matches!(commands[1], Command::BindPipeline { pipeline } if pipeline == material.pipeline.as_raw()));
    assert!(matches!(commands[2], Command::BindDescriptorSet { layout: l, set_index: 0, set } if l == layout && set == scene.view_set.as_raw()));
    assert!(matches!(commands[3], Command::BindDescriptorSet { layout: l, set_index: 1, set } if l == layout && set == material.descriptors.as_raw()));
    let matrix: Vec<u8> = (0..64).collect();
    assert!(matches!(&commands[4], Command::PushConstants { layout: l, stage_flags: 0x11, offset: 0, data } if *l == layout && *data == matrix));
    assert!(matches!(commands[5], Command::BindVertexBuffer { binding: 0, buffer } if buffer == mesh.vertex_buffers[0].as_raw()));
    assert!(matches!(commands[6], Command::BindIndexBuffer { buffer, index_type: 0 } if buffer == mesh.index_buffer.as_raw()));
    assert!(matches!(commands[7], Command::DrawIndexed { index_count: 6 }));
    let too_long = [0u8; 141];
    assert!(matches!(scene.render(&mut gpu, &mut pass, &too_long), Err(Error::MapOutOfRange)));
    assert_eq!(pass.commands().len(), 8);
    pass.discard(&mut gpu);
}

#[test]
fn a_replaced_scene_is_destroyed_after_the_swap() {
    let mut gpu = new_gpu();
    let (declared, assets) = scene_definition();
    let mut scene = Scene::parse(&mut gpu, &declared, &assets, RenderPassHandle(3), 4).unwrap();
    let old_pool = scene.descriptor_pool.as_raw();
    let rebuilt = Scene::parse(&mut gpu, &declared, &assets, RenderPassHandle(3), 4).unwrap();
    let new_pool = rebuilt.descriptor_pool.as_raw();
    assert_ne!(old_pool, new_pool);
    scene.replace(&mut gpu, rebuilt);
    assert_eq!(scene.descriptor_pool.as_raw(), new_pool);
    assert_alive(&gpu, &scene_objects());
}

#[test]
fn a_frame_acquires_records_submits_and_presents() {
    let mut gpu = new_gpu();
    let (declared, assets) = scene_definition();
    let mut renderer = Renderer::create(&mut gpu, SurfaceHandle(7), (320, 200)).unwrap();
    let scene = Scene::parse(&mut gpu, &declared, &assets, renderer.render_pass.as_raw(), renderer.samples).unwrap();
    let alive = gpu.device.total_alive();
    let calls = gpu.device.calls.len();
    let recorded = gpu.device.recorded.len();
    gpu.device.acquire = vec![Ok(AcquiredImage { index: 2, suboptimal: false })];
    render_frame(&mut gpu, &mut renderer, &scene, [1, 2, 3, 4], &[0; 140]).unwrap();
    assert_eq!(gpu.device.total_alive(), alive);
    let frame = &gpu.device.recorded[recorded];
    assert_eq!(frame.len(), 2 + 1 + 7 + 1);
    assert!(matches!(frame[0], Command::SetViewport { width: 320, height: 200 }));
    assert!(matches!(frame[1], Command::SetScissor { width: 320, height: 200 }));
    assert!(matches!(&frame[2], Command::BeginRenderPass(info)
        if info.render_pass == renderer.render_pass.as_raw() && info.clear_values == vec![[1, 2, 3, 4]]
            && (info.width, info.height) == (320, 200)));
    assert!(matches!(frame[9], Command::DrawIndexed { index_count: 6 }));
    assert!(matches!(frame[10], Command::EndRenderPass));
    let wait = gpu.device.submissions.last().unwrap().1.unwrap();
    assert_eq!(wait.semaphore, renderer.image_acquire_semaphore.as_raw());
    assert_eq!(wait.stage_mask, 0x400);
    let order: Vec<&str> = gpu.device.calls[calls..]
        .iter()
        .map(|c| c.as_str())
        .filter(|c| ["acquire", "end", "submit", "wait", "present"].contains(c))
        .collect();
    assert_eq!(order, vec!["acquire", "end", "submit", "wait", "present"]);
    for step in ["command buffer", "map", "end", "fence", "submit", "wait"] {
        gpu.device.fail = Some((step, -4));
        assert_eq!(vk_error(render_frame(&mut gpu, &mut renderer, &scene, [0; 4], &[0; 140])), -4);
        assert_eq!(gpu.device.total_alive(), alive, "after failing at {}", step);
    }
}

#[test]
fn adopted_handles_keep_their_order() {
    let mut gpu = new_gpu();
    let handles = vec![BufferHandle(7), BufferHandle(3), BufferHandle(7), BufferHandle(11)];
    let owners = Owned::from_raw_vec(&mut gpu, handles.clone());
    let adopted: Vec<BufferHandle> = owners.iter().map(|owner| owner.as_raw()).collect();
    assert_eq!(adopted, handles);
    assert!(gpu.device.calls.is_empty());
    let none: Vec<Owned<BufferHandle>> = Owned::from_raw_vec(&mut gpu, Vec::new());
    assert!(none.is_empty());
    for owner in owners {
        owner.destroy(&mut gpu);
    }
    assert_eq!(gpu.device.count("destroy buffer"), 4);
}

#[test]
fn a_fence_remembers_that_it_was_seen_signalled() {
    let mut gpu = new_gpu();
    let mut fence = Fence::create(&mut gpu).unwrap();
    assert_eq!(fence.seen(Ok(false)), Ok(false));
    assert!(!fence.signalled);
    assert_eq!(fence.seen(Err(VkError(-4))), Err(Error::Vk(VkError(-4))));
    assert!(!fence.signalled);
    assert_eq!(fence.seen(Ok(true)), Ok(true));
    assert!(fence.signalled);
    assert_eq!(fence.seen(Ok(false)), Ok(false));
    assert!(fence.signalled);
    assert_eq!(fence.seen(Err(VkError(-1))), Err(Error::Vk(VkError(-1))));
    assert!(fence.signalled);
}

#[test]
fn the_answer_to_an_acquire_is_an_image_staleness_or_a_failure() {
    let mut gpu = new_gpu();
    gpu.device.swapchain_images = 2;
    let swapchain = Swapchain::create(&mut gpu, SwapchainHandle(0), SurfaceHandle(7), RenderPassHandle(8), (8, 8), 50, 1).unwrap();
    let first = swapchain.acquired(Ok(AcquiredImage { index: 0, suboptimal: false })).unwrap();
    let second = swapchain.acquired(Ok(AcquiredImage { index: 1, suboptimal: true })).unwrap();
    assert_eq!((first.index, second.index), (0, 1));
    assert_ne!(first.image, second.image);
    assert_ne!(first.image_view, second.image_view);
    assert_ne!(first.framebuffer, second.framebuffer);
    assert_eq!(swapchain.acquired(Ok(AcquiredImage { index: 1, suboptimal: false })), Ok(second));
    assert_eq!(
        swapchain.acquired(Ok(AcquiredImage { index: 2, suboptimal: false })),
        Err(SwapchainVerdict::Stale)
    );
    assert_eq!(
        swapchain.acquired(Ok(AcquiredImage { index: u32::MAX, suboptimal: false })),
        Err(SwapchainVerdict::Stale)
    );
    assert_eq!(swapchain.acquired(Err(VkError(-1000001004))), Err(SwapchainVerdict::Stale));
    assert_eq!(swapchain.acquired(Err(VkError(1000001003))), Err(SwapchainVerdict::Stale));
    assert_eq!(swapchain.acquired(Err(VkError(-4))), Err(SwapchainVerdict::Failed(VkError(-4))));
    assert_eq!(swapchain.acquired(Err(VkError(0))), Err(SwapchainVerdict::Failed(VkError(0))));
    let item = swapchain.next(&mut gpu, 0, SemaphoreHandle(1), FenceHandle(0)).unwrap();
    assert_eq!(item, first);
}

#[test]
fn a_swapchain_that_stays_stale_counts_as_out_of_date() {
    let mut gpu = new_gpu();
    let mut renderer = Renderer::create(&mut gpu, SurfaceHandle(7), (800, 600)).unwrap();
    gpu.device.acquire = vec![Err(-1000001004), Ok(AcquiredImage { index: 9, suboptimal: false })];
    assert_eq!(vk_error(renderer.acquire_image(&mut gpu).map(|_| ())), -1000001004);
    assert_eq!(gpu.device.swapchains.len(), 2);
    assert_eq!(gpu.device.alive("swapchain"), 1);
    assert_eq!(gpu.device.alive("framebuffer"), 3);
    let mut failing = new_gpu();
    let mut renderer = Renderer::create(&mut failing, SurfaceHandle(7), (800, 600)).unwrap();
    let before = renderer.swapchain.as_raw();
    failing.device.acquire = vec![Err(-1000001004)];
    failing.device.fail = Some(("swapchain", -3));
    assert_eq!(vk_error(renderer.acquire_image(&mut failing).map(|_| ())), -3);
    assert_eq!(renderer.swapchain.as_raw(), before);
    assert_eq!(failing.device.count("acquire"), 1);
}

#[test]
fn a_buffer_in_too_short_a_block_is_not_kept() {
    let mut gpu = new_gpu();
    gpu.device.short_memory = true;
    let created = Buffer::create_with(&mut gpu, 0x1, &[1, 2, 3, 4, 5, 6]);
    assert!(matches!(created, Err(Error::MapOutOfRange)));
    assert_eq!(gpu.device.total_alive(), 0);
    assert!(gpu.device.stored.is_empty());
    let file: Vec<u8> = (0..32).collect();
    let view = definition::BufferView { buffer: 0, offset: 8, size: 16 };
    assert!(matches!(load_buffer_view(&mut gpu, &file, &view, 0x80), Err(Error::MapOutOfRange)));
    assert_eq!(gpu.device.total_alive(), 0);
    gpu.device.short_memory = false;
    let buffer = load_buffer_view(&mut gpu, &file, &view, 0x80).unwrap();
    assert_eq!(buffer.object.info, BufferInfo { size: 16, usage: 0x80 });
    assert_eq!(gpu.device.stored.len(), 1);
    assert_eq!(gpu.device.stored[0].1, 0);
    assert_eq!(gpu.device.stored[0].2, file[8..24].to_vec());
    for (offset, size) in [(17u64, 16u64), (0, 33), (33, 0), (u64::MAX, 2)] {
        let outside = definition::BufferView { buffer: 0, offset, size };
        let calls = gpu.device.calls.len();
        assert!(matches!(load_buffer_view(&mut gpu, &file, &outside, 0x80), Err(Error::Io)));
        assert_eq!(gpu.device.calls.len(), calls);
    }
    let whole = definition::BufferView { buffer: 0, offset: 0, size: 32 };
    assert!(load_buffer_view(&mut gpu, &file, &whole, 0x40).is_ok());
    let empty = definition::BufferView { buffer: 0, offset: 32, size: 0 };
    assert!(load_buffer_view(&mut gpu, &file, &empty, 0x40).is_ok());
}

#[test]
fn a_picture_with_a_fault_is_refused_with_that_fault() {
    let picture = |width, height, color_type, bits_per_sample, data: Vec<u8>| DecodedPng {
        width,
        height,
        color_type,
        bits_per_sample,
        data,
    };
    let mut gpu = new_gpu();
    let faults = vec![
        (picture(0, 1, ColorType::Rgba, 8, vec![]), Error::TooLarge),
        (picture(1, 0x8000_0000, ColorType::Rgb, 8, vec![]), Error::TooLarge),
        (picture(1, 1, ColorType::Rgba, 16, vec![0; 4]), Error::Png),
        (picture(1, 1, ColorType::Rgba, 8, vec![0; 5]), Error::Png),
        (picture(2, 1, ColorType::Rgb, 8, vec![0; 3]), Error::Png),
        (picture(1, 1, ColorType::Indexed, 8, vec![0]), Error::Png),
    ];
    for (faulty, fault) in faults {
        match texture_from_picture(&mut gpu, faulty, true) {
            Err(e) => assert_eq!(e, fault),
            Ok(_) => panic!("expected the picture to be refused"),
        }
    }
    assert!(gpu.device.calls.is_empty());
    let texture = texture_from_picture(&mut gpu, picture(2, 1, ColorType::Rgb, 8, vec![1, 2, 3, 4, 5, 6]), false).unwrap();
    assert_eq!((texture.width, texture.height), (2, 1));
    assert_eq!(texture.image.object.info.format, 37);
    assert_eq!(gpu.device.stored[0].2, vec![1, 2, 3, 255, 4, 5, 6, 255]);
    assert_alive(&gpu, &texture_objects());
    let mut short = new_gpu();
    short.device.short_memory = true;
    let refused = texture_from_picture(&mut short, picture(1, 1, ColorType::Rgba, 8, vec![9; 4]), false);
    assert!(matches!(refused, Err(Error::MapOutOfRange)));
    assert_eq!(short.device.total_alive(), 0);
}

#[test]
fn a_scene_with_a_faulty_file_is_not_built() {
    let (declared, mut assets) = scene_definition();
    assets.textures[0] = b"no picture".to_vec();
    let mut gpu = new_gpu();
    assert!(matches!(Scene::parse(&mut gpu, &declared, &assets, RenderPassHandle(3), 4), Err(Error::Png)));
    assert_eq!(gpu.device.total_alive(), 0);
    assert_eq!(gpu.device.count("submit"), 0);
    let (mut declared, mut assets) = scene_definition();
    declared.textures[0].format = definition::TextureFormat::Ktx;
    assets.textures[0] = vec![0; 100];
    assert!(matches!(Scene::parse(&mut gpu, &declared, &assets, RenderPassHandle(3), 4), Err(Error::Ktx)));
    assets.textures[0] = vec![0; 10];
    assert!(matches!(Scene::parse(&mut gpu, &declared, &assets, RenderPassHandle(3), 4), Err(Error::Io)));
    assert_eq!(gpu.device.total_alive(), 0);
    let (mut declared, assets) = scene_definition();
    declared.meshes[0].bindings[0].view.offset = 13;
    assert!(matches!(Scene::parse(&mut gpu, &declared, &assets, RenderPassHandle(3), 4), Err(Error::Io)));
    assert_eq!(gpu.device.total_alive(), 0);
}

#[test]
fn a_built_scene_holds_its_views_in_buffers_of_their_own() {
    let mut gpu = new_gpu();
    let (mut declared, assets) = scene_definition();
    declared.meshes[0].bindings.push(definition::MeshBinding {
        binding: 1,
        view: definition::BufferView { buffer: 40, offset: 100, size: 24 },
    });
    let scene = Scene::parse(&mut gpu, &declared, &assets, RenderPassHandle(3), 4).unwrap();
    let mesh = &scene.models[0].mesh;
    assert_eq!(mesh.vertex_buffers.len(), 2);
    assert_eq!(mesh.vertex_buffers[0].info, BufferInfo { size: 112, usage: 0x80 });
    assert_eq!(mesh.vertex_buffers[1].info, BufferInfo { size: 24, usage: 0x80 });
    assert_eq!(mesh.index_buffer.info, BufferInfo { size: 12, usage: 0x40 });
    assert_eq!(scene.memories.len(), 3);
    let bound: Vec<(u64, u64)> = mesh
        .vertex_buffers
        .iter()
        .chain(std::iter::once(&mesh.index_buffer))
        .map(|buffer| {
            let binding = buffer.binding.unwrap();
            (binding.memory.0, binding.offset)
        })
        .collect();
    let blocks: Vec<(u64, u64)> = scene.memories.iter().map(|memory| (memory.as_raw().0, 0)).collect();
    assert_eq!(bound, blocks);
    let texture = &scene.textures[0];
    assert_eq!((texture.width, texture.height), (2, 2));
    assert_eq!(texture.image.object.info.format, 43);
    assert_eq!(texture.image.object.info.mip_levels, 2);
    assert_eq!(texture.sampler.info.max_lod, 16);
}

#[test]
fn uniforms_that_do_not_fit_end_the_frame_before_anything_is_queued() {
    let mut gpu = new_gpu();
    let (declared, assets) = scene_definition();
    let mut renderer = Renderer::create(&mut gpu, SurfaceHandle(7), (320, 200)).unwrap();
    let scene = Scene::parse(&mut gpu, &declared, &assets, renderer.render_pass.as_raw(), renderer.samples).unwrap();
    let alive = gpu.device.total_alive();
    let stored = gpu.device.stored.len();
    let submitted = gpu.device.count("submit");
    let rendered = render_frame(&mut gpu, &mut renderer, &scene, [0; 4], &[0; 141]);
    assert!(matches!(rendered, Err(Error::MapOutOfRange)));
    assert_eq!(gpu.device.total_alive(), alive);
    assert_eq!(gpu.device.stored.len(), stored);
    assert_eq!(gpu.device.count("submit"), submitted);
    assert_eq!(gpu.device.count("present"), 0);
    render_frame(&mut gpu, &mut renderer, &scene, [0; 4], &[5; 140]).unwrap();
    assert_eq!(gpu.device.stored.len(), stored + 1);
    assert_eq!(gpu.device.stored[stored].2, vec![5; 140]);
    assert_eq!(gpu.device.count("present"), 1);
}

#[test]
fn the_pool_of_a_scene_holds_what_its_materials_take() {
    let (mut declared, assets) = scene_definition();
    declared.programs[0].descriptors.push(definition::Descriptor {
        binding: 1,
        ty: definition::DescriptorType::Uniform,
        stages: vec![definition::StageType::Vertex],
    });
    for id in [21, 22] {
        declared.materials.push(definition::Material {
            id,
            program: 10,
            textures: vec![definition::MaterialTexture { location: 0, texture: 30 }],
        });
    }
    assert!(is_consistent(&declared, &assets));
    let sizes = descriptor_pool_sizes(&declared.programs, &declared.materials);
    let uniform = DescriptorPoolSize { ty: 6, descriptor_count: 1 };
    let texture = DescriptorPoolSize { ty: 1, descriptor_count: 1 };
    assert_eq!(sizes, vec![uniform, texture, uniform, texture, uniform, texture, uniform]);
    let mut gpu = new_gpu();
    let scene = Scene::parse(&mut gpu, &declared, &assets, RenderPassHandle(3), 4).unwrap();
    assert_eq!(scene.textures.len(), 1);
    assert_eq!(scene.materials.len(), 3);
    assert_eq!(gpu.device.pools, vec![(4, sizes)]);
    assert_eq!(gpu.device.count("allocate set"), 4);
    let layout = DescriptorSetLayout::builder().add_uniform_buffer(0, 0x1).build(&mut gpu).unwrap();
    let mut scene = scene;
    assert!(!scene.descriptor_pool.fits(&layout));
    assert!(matches!(scene.descriptor_pool.allocate(&mut gpu, &layout), Err(Error::PoolExhausted)));
}

#[test]
fn a_material_of_no_declared_program_takes_nothing_from_the_pool() {
    let (mut declared, _) = scene_definition();
    declared.materials[0].program = 11;
    let sizes = descriptor_pool_sizes(&declared.programs, &declared.materials);
    assert_eq!(sizes, vec![DescriptorPoolSize { ty: 6, descriptor_count: 1 }]);
    declared.materials.clear();
    assert_eq!(descriptor_pool_sizes(&declared.programs, &declared.materials), sizes);
}

#[test]
fn a_material_pipeline_keeps_what_it_was_compiled_from() {
    let mut gpu = new_gpu();
    let (declared, assets) = scene_definition();
    let scene = Scene::parse(&mut gpu, &declared, &assets, RenderPassHandle(3), 4).unwrap();
    let program = &scene.programs[0];
    let info = &scene.materials[0].pipeline.info;
    assert_eq!(info.render_pass, RenderPassHandle(3));
    assert_eq!(info.state.rasterization_samples, 4);
    assert_eq!(info.subpass, 0);
    assert_eq!(info.layout, program.pipeline_layout.as_raw());
    assert_eq!(info.stages.len(), 2);
    assert_eq!((info.stages[0].stage, info.stages[0].module), (0x1, program.vs.as_raw()));
    assert_eq!((info.stages[1].stage, info.stages[1].module), (0x10, program.fs.as_raw()));
    assert_eq!(info.vertex_bindings, program.vertex_binding_descriptions);
    assert_eq!(info.vertex_attributes, program.vertex_attribute_descriptions);
    assert_eq!(program.vs.code(), &assets.shaders[0].vertex[..]);
    assert_eq!(program.fs.code(), &assets.shaders[0].fragment[..]);
    assert_eq!((program.vs.stage(), program.fs.stage()), (0x1, 0x10));
    let other = program.create_material_pipeline(&mut gpu, RenderPassHandle(8), 1).unwrap();
    assert_eq!(other.info.render_pass, RenderPassHandle(8));
    assert_eq!(other.info.state.rasterization_samples, 1);
    let copy = other.info.duplicate();
    assert_eq!(copy.stages, other.info.stages);
    assert_eq!(copy.layout, other.info.layout);
}

#[test]
fn the_block_of_a_mesh_is_laid_out_from_what_the_device_asks() {
    let vertex = MemoryRequirements { size: 128, alignment: 64, memory_type_bits: 0b0110 };
    let index = MemoryRequirements { size: 64, alignment: 64, memory_type_bits: 0b0011 };
    assert_eq!(
        mesh_layout(vertex, index, 112, 24).unwrap(),
        MeshLayout { size: 192, memory_types: MemoryTypeMask(0b0010), indices_offset: 128 }
    );
    assert_eq!(mesh_layout(vertex, index, 128, 64).unwrap().size, 192);
    assert!(matches!(mesh_layout(vertex, index, 129, 24), Err(Error::MapOutOfRange)));
    assert!(matches!(mesh_layout(vertex, index, 112, 65), Err(Error::MapOutOfRange)));
    let huge = MemoryRequirements { size: u64::MAX, alignment: 1, memory_type_bits: 1 };
    assert!(matches!(mesh_layout(huge, index, 0, 0), Err(Error::MapOutOfRange)));
    assert!(matches!(mesh_layout(vertex, huge, 0, 0), Err(Error::MapOutOfRange)));
}

#[test]
fn a_view_of_a_file_is_refused_as_input_exactly_when_it_leaves_the_file() {
    let mut gpu = new_gpu();
    let file: Vec<u8> = (0..32).collect();
    for (offset, size) in [(0, 33), (32, 1), (33, 0), (u64::MAX, 1), (1, u64::MAX)] {
        let view = definition::BufferView { buffer: 0, offset, size };
        assert!(matches!(load_buffer_view(&mut gpu, &file, &view, 0x80), Err(Error::Io)));
    }
    assert_eq!(gpu.device.calls.len(), 0);
    for (offset, size) in [(0, 32), (31, 1), (32, 0), (8, 16)] {
        let view = definition::BufferView { buffer: 0, offset, size };
        let buffer = load_buffer_view(&mut gpu, &file, &view, 0x80).unwrap();
        buffer.destroy(&mut gpu);
    }
    gpu.device.fail = Some(("buffer", -2));
    let view = definition::BufferView { buffer: 0, offset: 0, size: 32 };
    assert_eq!(vk_error(load_buffer_view(&mut gpu, &file, &view, 0x80).map(|_| ())), -2);
}

#[test]
fn a_part_of_a_mapping_that_is_written_is_all_that_reaches_the_device() {
    let mut gpu = new_gpu();
    let memory = Memory::allocate(&mut gpu, 64, MemoryTypeIndex(1)).unwrap();
    memory.write(&mut gpu, 0, &[7; 64]).unwrap();
    let mut mapping = memory.map(&mut gpu, 16, 32).unwrap();
    mapping.write(8, &[1, 2, 3]);
    mapping.unmap(&mut gpu);
    let handle = memory.as_raw().0;
    assert_eq!(gpu.device.stored, vec![(handle, 0, vec![7; 64]), (handle, 24, vec![1, 2, 3])]);
    let untouched = memory.map(&mut gpu, 0, 64).unwrap();
    untouched.unmap(&mut gpu);
    assert_eq!(gpu.device.stored.len(), 2);
    assert_eq!(gpu.device.count("unmap"), 3);
}

#[test]
fn the_first_answer_to_an_acquire_decides_what_the_renderer_does() {
    let mut gpu = new_gpu();
    let mut renderer = Renderer::create(&mut gpu, SurfaceHandle(7), (800, 600)).unwrap();
    let before = renderer.swapchain.as_raw();
    let calls = gpu.device.calls.len();
    let item = SwapchainItem {
        index: 1,
        image: ImageHandle(5),
        image_view: ImageViewHandle(6),
        framebuffer: FramebufferHandle(7),
    };
    assert_eq!(renderer.acquired_after(&mut gpu, Ok(item)).unwrap(), item);
    let failed = renderer.acquired_after(&mut gpu, Err(SwapchainVerdict::Failed(VkError(-4))));
    assert_eq!(vk_error(failed.map(|_| ())), -4);
    assert_eq!(gpu.device.calls.len(), calls);
    assert_eq!(renderer.swapchain.as_raw(), before);
    gpu.device.acquire = vec![Ok(AcquiredImage { index: 2, suboptimal: false })];
    let again = renderer.acquired_after(&mut gpu, Err(SwapchainVerdict::Stale)).unwrap();
    assert_eq!(again.index, 2);
    assert_ne!(renderer.swapchain.as_raw(), before);
    assert_eq!(gpu.device.swapchains.len(), 2);
    assert_eq!(gpu.device.swapchains[1].old_swapchain, before);
    assert_eq!(gpu.device.alive("swapchain"), 1);
    assert_eq!(gpu.device.count("acquire"), 1);
}

#[test]
fn the_result_of_a_presentation_decides_what_the_renderer_does() {
    let mut gpu = new_gpu();
    let mut renderer = Renderer::create(&mut gpu, SurfaceHandle(7), (800, 600)).unwrap();
    let before = renderer.swapchain.as_raw();
    let calls = gpu.device.calls.len();
    renderer.presented(&mut gpu, 0).unwrap();
    assert_eq!(vk_error(renderer.presented(&mut gpu, -4)), -4);
    assert_eq!(vk_error(renderer.presented(&mut gpu, 5)), 5);
    assert_eq!(gpu.device.calls.len(), calls);
    assert_eq!(renderer.swapchain.as_raw(), before);
    for (stale, built) in [(1000001003, 2), (-1000001004, 3)] {
        let replaced = renderer.swapchain.as_raw();
        renderer.presented(&mut gpu, stale).unwrap();
        assert_ne!(renderer.swapchain.as_raw(), replaced);
        assert_eq!(gpu.device.swapchains.len(), built);
        assert_eq!(gpu.device.swapchains[built - 1].old_swapchain, replaced);
        assert_eq!(gpu.device.alive("swapchain"), 1);
    }
    let kept = renderer.swapchain.as_raw();
    gpu.device.fail = Some(("swapchain", -3));
    assert_eq!(vk_error(renderer.presented(&mut gpu, 1000001003)), -3);
    assert_eq!(renderer.swapchain.as_raw(), kept);
    assert_eq!(gpu.device.count("present"), 0);
}

#[test]
fn a_frame_draws_to_and_presents_the_image_it_acquired() {
    let mut gpu = new_gpu();
    let (declared, assets) = scene_definition();
    let mut renderer = Renderer::create(&mut gpu, SurfaceHandle(7), (320, 200)).unwrap();
    let scene = Scene::parse(&mut gpu, &declared, &assets, renderer.render_pass.as_raw(), renderer.samples).unwrap();
    for index in [2u32, 0, 1] {
        gpu.device.acquire = vec![Ok(AcquiredImage { index, suboptimal: false })];
        let expected = renderer
            .swapchain
            .acquired(Ok(AcquiredImage { index, suboptimal: false }))
            .unwrap();
        assert_eq!(expected.index, index);
        let chain = renderer.swapchain.as_raw().0;
        render_frame(&mut gpu, &mut renderer, &scene, [0; 4], &[0; 140]).unwrap();
        assert_eq!(gpu.device.presented.last(), Some(&(chain, index)));
        let frame = gpu.device.recorded.last().unwrap();
        assert!(matches!(&frame[2], Command::BeginRenderPass(info) if info.framebuffer == expected.framebuffer));
    }
    assert_eq!(gpu.device.presented.len(), 3);
}

#[test]
fn the_files_of_a_scene_are_its_textures_then_its_buffers() {
    let (mut declared, _) = scene_definition();
    assert_eq!(paths_of(&declared), vec![String::from("checker.png"), String::from("quad.bin")]);
    declared.buffers.push(definition::File { id: 41, path: String::from("more.bin") });
    declared.textures.push(definition::TextureFile {
        id: 31,
        format: definition::TextureFormat::Ktx,
        space: definition::TextureColorSpace::Linear,
        path: String::from("sky.ktx"),
    });
    assert_eq!(
        paths_of(&declared),
        vec![
            String::from("checker.png"),
            String::from("sky.ktx"),
            String::from("quad.bin"),
            String::from("more.bin"),
        ]
    );
    declared.textures.clear();
    declared.buffers.clear();
    assert!(paths_of(&declared).is_empty());
}
