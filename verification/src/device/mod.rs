//! The device layer: handles, ownership, memory and the objects built on them.

pub mod backend;
pub mod buffer;
pub mod command_buffer;
pub mod descriptor_set;
pub mod descriptor_set_layout;
pub mod fence;
pub mod image;
pub mod image_view;
pub mod memory;
pub mod pipeline;
pub mod raw_handle;
pub mod sampler;
pub mod semaphore;
pub mod types;

pub use backend::{AcquiredImage, Device};
pub use buffer::{Buffer, BufferHandle, BufferObject};
pub use command_buffer::{
    Command, CommandBuffer, CommandBufferHandle, CommandBufferRecorder,
    CommandBufferRenderPassRecorder, SubmitWait,
};
pub use descriptor_set::{DescriptorPool, DescriptorPoolHandle, DescriptorSet, DescriptorSetHandle};
pub use descriptor_set_layout::{
    DescriptorSetLayout, DescriptorSetLayoutBuilder, DescriptorSetLayoutHandle,
};
pub use fence::{Fence, FenceHandle};
pub use image::{mip_levels, Image, ImageHandle, ImageObject};
pub use image_view::{ImageView, ImageViewHandle};
pub use memory::{
    select_memory_type, words_to_bytes, DeviceMemoryHandle, Memory, MemoryMapping, MemoryTypeIndex,
    MemoryTypeMask, MemoryTypes,
};
pub use pipeline::{
    GraphicsPipelineInfo, Pipeline, PipelineCache, PipelineCacheHandle, PipelineHandle,
    PipelineLayout, PipelineLayoutHandle,
};
pub use raw_handle::{
    AsRawHandle, Create, CreateVec, Destroy, FramebufferHandle, Gpu, ObjectKind, Owned, RawHandle,
    RenderPassHandle, SamplerHandle, ShaderModuleHandle, SurfaceHandle, SwapchainHandle,
};
pub use sampler::Sampler;
pub use semaphore::{Semaphore, SemaphoreHandle};
