//! Plain values exchanged with the device: flag bits, enumeration codes and
//! parameter records. Codes and bits carry the numbers of the GPU interface.

use vstd::prelude::*;
use crate::device::buffer::BufferHandle;
use crate::device::descriptor_set::DescriptorSetHandle;
use crate::device::image::ImageHandle;
use crate::device::image_view::ImageViewHandle;
use crate::device::memory::DeviceMemoryHandle;
use crate::device::raw_handle::{
    FramebufferHandle, RenderPassHandle, SamplerHandle, ShaderModuleHandle, SurfaceHandle,
    SwapchainHandle,
};

verus! {

// Memory property flags.
pub const MEMORY_PROPERTY_DEVICE_LOCAL: u32 = 0x1;

pub const MEMORY_PROPERTY_HOST_VISIBLE: u32 = 0x2;

pub const MEMORY_PROPERTY_HOST_COHERENT: u32 = 0x4;

/// The largest number of memory types a device can enumerate: one per bit
/// of a memory type mask.
pub const MAX_MEMORY_TYPES: u32 = 32;

// Pixel formats.
pub const FORMAT_UNDEFINED: i32 = 0;

pub const FORMAT_R8G8B8A8_UNORM: i32 = 37;

pub const FORMAT_R8G8B8A8_SRGB: i32 = 43;

pub const FORMAT_B8G8R8A8_SRGB: i32 = 50;

pub const FORMAT_R32_UINT: i32 = 98;

pub const FORMAT_R32_SFLOAT: i32 = 100;

pub const FORMAT_R32G32_UINT: i32 = 101;

pub const FORMAT_R32G32_SFLOAT: i32 = 103;

pub const FORMAT_R32G32B32_UINT: i32 = 104;

pub const FORMAT_R32G32B32_SFLOAT: i32 = 106;

pub const FORMAT_R32G32B32A32_UINT: i32 = 107;

pub const FORMAT_R32G32B32A32_SFLOAT: i32 = 109;

pub const FORMAT_D32_SFLOAT: i32 = 126;

// Image layouts.
pub const IMAGE_LAYOUT_UNDEFINED: i32 = 0;

pub const IMAGE_LAYOUT_COLOR_ATTACHMENT_OPTIMAL: i32 = 2;

pub const IMAGE_LAYOUT_DEPTH_STENCIL_ATTACHMENT_OPTIMAL: i32 = 3;

pub const IMAGE_LAYOUT_SHADER_READ_ONLY_OPTIMAL: i32 = 5;

pub const IMAGE_LAYOUT_TRANSFER_SRC_OPTIMAL: i32 = 6;

pub const IMAGE_LAYOUT_TRANSFER_DST_OPTIMAL: i32 = 7;

pub const IMAGE_LAYOUT_PREINITIALIZED: i32 = 8;

pub const IMAGE_LAYOUT_PRESENT_SRC: i32 = 1_000_001_002;

// Buffer usage flags.
pub const BUFFER_USAGE_TRANSFER_SRC: u32 = 0x1;

pub const BUFFER_USAGE_UNIFORM_BUFFER: u32 = 0x10;

pub const BUFFER_USAGE_INDEX_BUFFER: u32 = 0x40;

pub const BUFFER_USAGE_VERTEX_BUFFER: u32 = 0x80;

// Image usage flags.
pub const IMAGE_USAGE_TRANSFER_SRC: u32 = 0x1;

pub const IMAGE_USAGE_TRANSFER_DST: u32 = 0x2;

pub const IMAGE_USAGE_SAMPLED: u32 = 0x4;

pub const IMAGE_USAGE_COLOR_ATTACHMENT: u32 = 0x10;

pub const IMAGE_USAGE_DEPTH_STENCIL_ATTACHMENT: u32 = 0x20;

// Image creation.
pub const IMAGE_CREATE_CUBE_COMPATIBLE: u32 = 0x10;

pub const IMAGE_TYPE_2D: i32 = 1;

pub const IMAGE_TILING_OPTIMAL: i32 = 0;

pub const SAMPLE_COUNT_1: u32 = 0x1;

// Image views.
pub const IMAGE_VIEW_TYPE_2D: i32 = 1;

pub const IMAGE_VIEW_TYPE_CUBE: i32 = 3;

pub const IMAGE_ASPECT_COLOR: u32 = 0x1;

pub const IMAGE_ASPECT_DEPTH: u32 = 0x2;

/// Stands for every mip level from the base level on.
pub const REMAINING_MIP_LEVELS: u32 = 0xffff_ffff;

/// Stands for every array layer from the base layer on.
pub const REMAINING_ARRAY_LAYERS: u32 = 0xffff_ffff;

// Samplers.
pub const FILTER_NEAREST: i32 = 0;

pub const FILTER_LINEAR: i32 = 1;

pub const SAMPLER_MIPMAP_MODE_NEAREST: i32 = 0;

pub const SAMPLER_MIPMAP_MODE_LINEAR: i32 = 1;

pub const SAMPLER_ADDRESS_MODE_REPEAT: i32 = 0;

pub const SAMPLER_ADDRESS_MODE_CLAMP_TO_EDGE: i32 = 2;

// Shader stages.
pub const SHADER_STAGE_VERTEX: u32 = 0x1;

pub const SHADER_STAGE_FRAGMENT: u32 = 0x10;

pub const SHADER_STAGE_ALL: u32 = 0x7fff_ffff;

// Pipeline stages.
pub const PIPELINE_STAGE_FRAGMENT_SHADER: u32 = 0x80;

pub const PIPELINE_STAGE_COLOR_ATTACHMENT_OUTPUT: u32 = 0x400;

pub const PIPELINE_STAGE_TRANSFER: u32 = 0x1000;

pub const PIPELINE_STAGE_HOST: u32 = 0x4000;

// Memory access flags.
pub const ACCESS_NONE: u32 = 0;

pub const ACCESS_SHADER_READ: u32 = 0x20;

pub const ACCESS_TRANSFER_READ: u32 = 0x800;

pub const ACCESS_TRANSFER_WRITE: u32 = 0x1000;

pub const ACCESS_HOST_WRITE: u32 = 0x4000;

// Descriptor types.
pub const DESCRIPTOR_TYPE_SAMPLER: i32 = 0;

pub const DESCRIPTOR_TYPE_COMBINED_IMAGE_SAMPLER: i32 = 1;

pub const DESCRIPTOR_TYPE_UNIFORM_BUFFER: i32 = 6;

// Index types.
pub const INDEX_TYPE_UINT16: i32 = 0;

pub const INDEX_TYPE_UINT32: i32 = 1;

// Render passes.
pub const ATTACHMENT_LOAD_OP_CLEAR: i32 = 1;

pub const ATTACHMENT_LOAD_OP_DONT_CARE: i32 = 2;

pub const ATTACHMENT_STORE_OP_STORE: i32 = 0;

pub const ATTACHMENT_STORE_OP_DONT_CARE: i32 = 1;

pub const PIPELINE_BIND_POINT_GRAPHICS: i32 = 0;

// Fixed-function pipeline state.
pub const VERTEX_INPUT_RATE_VERTEX: i32 = 0;

pub const PRIMITIVE_TOPOLOGY_TRIANGLE_LIST: i32 = 3;

pub const FRONT_FACE_COUNTER_CLOCKWISE: i32 = 0;

pub const CULL_MODE_BACK: u32 = 0x2;

pub const BLEND_FACTOR_ZERO: i32 = 0;

pub const BLEND_FACTOR_ONE: i32 = 1;

pub const BLEND_FACTOR_SRC_COLOR: i32 = 2;

pub const BLEND_FACTOR_ONE_MINUS_SRC_ALPHA: i32 = 7;

pub const BLEND_OP_ADD: i32 = 0;

pub const COLOR_COMPONENT_ALL: u32 = 0xf;

pub const DYNAMIC_STATE_VIEWPORT: i32 = 0;

pub const DYNAMIC_STATE_SCISSOR: i32 = 1;

// Presentation.
pub const COLOR_SPACE_SRGB_NONLINEAR: i32 = 0;

pub const PRESENT_MODE_FIFO: i32 = 2;

pub const SURFACE_TRANSFORM_IDENTITY: u32 = 0x1;

pub const COMPOSITE_ALPHA_OPAQUE: u32 = 0x1;

// Queue capabilities.
pub const QUEUE_GRAPHICS: u32 = 0x1;

// Result codes.
pub const RESULT_SUCCESS: i32 = 0;

pub const RESULT_SUBOPTIMAL: i32 = 1_000_001_003;

pub const RESULT_ERROR_OUT_OF_DATE: i32 = -1_000_001_004;

/// What a buffer or image asks of the memory it is bound to.
#[derive(Clone, Copy, PartialEq, Eq, Structural, Debug)]
pub struct MemoryRequirements {
    pub size: u64,
    pub alignment: u64,
    pub memory_type_bits: u32,
}

/// The parameters a memory block is allocated from.
#[derive(Clone, Copy, PartialEq, Eq, Structural, Debug)]
pub struct MemoryAllocateInfo {
    pub allocation_size: u64,
    pub memory_type_index: u32,
}

/// Where an object is bound: the memory block and the offset in it.
#[derive(Clone, Copy, PartialEq, Eq, Structural, Debug)]
pub struct MemoryBinding {
    pub memory: DeviceMemoryHandle,
    pub offset: u64,
}

/// The parameters a buffer is created from.
#[derive(Clone, Copy, PartialEq, Eq, Structural, Debug)]
pub struct BufferInfo {
    pub size: u64,
    pub usage: u32,
}

/// The parameters an image is created from.
#[derive(Clone, Copy, PartialEq, Eq, Structural, Debug)]
pub struct ImageInfo {
    pub flags: u32,
    pub image_type: i32,
    pub format: i32,
    pub width: u32,
    pub height: u32,
    pub depth: u32,
    pub mip_levels: u32,
    pub array_layers: u32,
    pub samples: u32,
    pub tiling: i32,
    pub usage: u32,
    pub initial_layout: i32,
}

/// The parameters an image view is created from. The view starts at mip
/// level 0 and array layer 0.
#[derive(Clone, Copy, PartialEq, Eq, Structural, Debug)]
pub struct ImageViewInfo {
    pub image: ImageHandle,
    pub view_type: i32,
    pub format: i32,
    pub aspect_mask: u32,
    pub level_count: u32,
    pub layer_count: u32,
}

/// The parameters a sampler is created from. Levels of detail and the
/// anisotropy limit are whole numbers.
#[derive(Clone, Copy, PartialEq, Eq, Structural, Debug)]
pub struct SamplerInfo {
    pub mag_filter: i32,
    pub min_filter: i32,
    pub mipmap_mode: i32,
    pub address_mode_u: i32,
    pub address_mode_v: i32,
    pub address_mode_w: i32,
    pub anisotropy_enable: bool,
    pub max_anisotropy: u32,
    pub min_lod: u32,
    pub max_lod: u32,
}

/// One attachment of a render pass.
#[derive(Clone, Copy, PartialEq, Eq, Structural, Debug)]
pub struct AttachmentDescription {
    pub format: i32,
    pub samples: u32,
    pub load_op: i32,
    pub store_op: i32,
    pub initial_layout: i32,
    pub final_layout: i32,
}

/// A use of attachment number `attachment` in the layout `layout`.
#[derive(Clone, Copy, PartialEq, Eq, Structural, Debug)]
pub struct AttachmentReference {
    pub attachment: u32,
    pub layout: i32,
}

/// A render pass with a single graphics subpass: its attachments, and
/// which of them the subpass draws to, tests depth against and resolves to.
#[derive(Clone, Copy, PartialEq, Eq, Structural, Debug)]
pub struct RenderPassInfo {
    pub color: AttachmentDescription,
    pub depth: AttachmentDescription,
    pub resolve: AttachmentDescription,
    pub color_reference: AttachmentReference,
    pub depth_reference: AttachmentReference,
    pub resolve_reference: AttachmentReference,
}

/// The parameters a swapchain is created from.
#[derive(Clone, Copy, PartialEq, Eq, Structural, Debug)]
pub struct SwapchainInfo {
    pub surface: SurfaceHandle,
    pub min_image_count: u32,
    pub image_format: i32,
    pub image_color_space: i32,
    pub width: u32,
    pub height: u32,
    pub image_array_layers: u32,
    pub image_usage: u32,
    pub pre_transform: u32,
    pub composite_alpha: u32,
    pub present_mode: i32,
    pub old_swapchain: SwapchainHandle,
}

/// The parameters a framebuffer is created from: the views of the color,
/// depth and resolve attachments, in that order, and the size.
#[derive(Clone, Copy, PartialEq, Eq, Structural, Debug)]
pub struct FramebufferInfo {
    pub render_pass: RenderPassHandle,
    pub color: ImageViewHandle,
    pub depth: ImageViewHandle,
    pub resolve: ImageViewHandle,
    pub width: u32,
    pub height: u32,
    pub layers: u32,
}

/// How many descriptors of one type a pool holds.
#[derive(Clone, Copy, PartialEq, Eq, Structural, Debug)]
pub struct DescriptorPoolSize {
    pub ty: i32,
    pub descriptor_count: u32,
}

/// One binding of a descriptor set layout.
#[derive(Clone, Copy, PartialEq, Eq, Structural, Debug)]
pub struct DescriptorSetLayoutBinding {
    pub binding: u32,
    pub descriptor_type: i32,
    pub descriptor_count: u32,
    pub stage_flags: u32,
}

/// A range of push constant bytes visible to some shader stages.
#[derive(Clone, Copy, PartialEq, Eq, Structural, Debug)]
pub struct PushConstantRange {
    pub stage_flags: u32,
    pub offset: u32,
    pub size: u32,
}

/// A write of one buffer range or of one sampler and image view into a
/// binding of a descriptor set. Each write replaces the binding whole.
#[derive(Clone, Copy, PartialEq, Eq, Structural, Debug)]
pub enum WriteDescriptor {
    Buffer {
        set: DescriptorSetHandle,
        binding: u32,
        descriptor_type: i32,
        buffer: BufferHandle,
        offset: u64,
        range: u64,
    },
    Image {
        set: DescriptorSetHandle,
        binding: u32,
        descriptor_type: i32,
        sampler: SamplerHandle,
        image_view: ImageViewHandle,
        image_layout: i32,
    },
}

/// One vertex buffer binding of a pipeline's vertex input.
#[derive(Clone, Copy, PartialEq, Eq, Structural, Debug)]
pub struct VertexInputBindingDescription {
    pub binding: u32,
    pub stride: u32,
    pub input_rate: i32,
}

/// One vertex attribute of a pipeline's vertex input.
#[derive(Clone, Copy, PartialEq, Eq, Structural, Debug)]
pub struct VertexInputAttributeDescription {
    pub location: u32,
    pub binding: u32,
    pub format: i32,
    pub offset: u32,
}

/// How a color attachment blends what is drawn with what it holds.
#[derive(Clone, Copy, PartialEq, Eq, Structural, Debug)]
pub struct ColorBlendAttachment {
    pub blend_enable: bool,
    pub src_color_blend_factor: i32,
    pub dst_color_blend_factor: i32,
    pub color_blend_op: i32,
    pub src_alpha_blend_factor: i32,
    pub dst_alpha_blend_factor: i32,
    pub alpha_blend_op: i32,
    pub color_write_mask: u32,
}

/// The fixed-function state of a graphics pipeline with one viewport, one
/// scissor and one color attachment; viewport and scissor are set while
/// recording.
#[derive(Clone, Copy, PartialEq, Eq, Structural, Debug)]
pub struct FixedFunctionState {
    pub topology: i32,
    pub viewport_count: u32,
    pub scissor_count: u32,
    pub line_width: u32,
    pub front_face: i32,
    pub cull_mode: u32,
    pub rasterization_samples: u32,
    pub blend: ColorBlendAttachment,
    pub dynamic_viewport: bool,
    pub dynamic_scissor: bool,
}

/// A three-dimensional texel offset.
#[derive(Clone, Copy, PartialEq, Eq, Structural, Debug)]
pub struct Offset3D {
    pub x: i32,
    pub y: i32,
    pub z: i32,
}

/// A three-dimensional texel extent.
#[derive(Clone, Copy, PartialEq, Eq, Structural, Debug)]
pub struct Extent3D {
    pub width: u32,
    pub height: u32,
    pub depth: u32,
}

/// Some layers of one mip level of an image.
#[derive(Clone, Copy, PartialEq, Eq, Structural, Debug)]
pub struct ImageSubresourceLayers {
    pub aspect_mask: u32,
    pub mip_level: u32,
    pub base_array_layer: u32,
    pub layer_count: u32,
}

/// Some mip levels and layers of an image.
#[derive(Clone, Copy, PartialEq, Eq, Structural, Debug)]
pub struct ImageSubresourceRange {
    pub aspect_mask: u32,
    pub base_mip_level: u32,
    pub level_count: u32,
    pub base_array_layer: u32,
    pub layer_count: u32,
}

/// A copy of tightly packed buffer bytes into a region of an image.
#[derive(Clone, Copy, PartialEq, Eq, Structural, Debug)]
pub struct BufferImageCopy {
    pub buffer_offset: u64,
    pub image_subresource: ImageSubresourceLayers,
    pub image_offset: Offset3D,
    pub image_extent: Extent3D,
}

/// A copy of a region of one image into another.
#[derive(Clone, Copy, PartialEq, Eq, Structural, Debug)]
pub struct ImageCopy {
    pub src_subresource: ImageSubresourceLayers,
    pub src_offset: Offset3D,
    pub dst_subresource: ImageSubresourceLayers,
    pub dst_offset: Offset3D,
    pub extent: Extent3D,
}

/// A scaled copy of the box between two corners of one image into the box
/// between two corners of another.
#[derive(Clone, Copy, PartialEq, Eq, Structural, Debug)]
pub struct ImageBlit {
    pub src_subresource: ImageSubresourceLayers,
    pub src_begin: Offset3D,
    pub src_end: Offset3D,
    pub dst_subresource: ImageSubresourceLayers,
    pub dst_begin: Offset3D,
    pub dst_end: Offset3D,
}

/// A change of layout of part of an image, ordered between earlier writes
/// and later reads.
#[derive(Clone, Copy, PartialEq, Eq, Structural, Debug)]
pub struct ImageMemoryBarrier {
    pub src_access_mask: u32,
    pub dst_access_mask: u32,
    pub old_layout: i32,
    pub new_layout: i32,
    pub image: ImageHandle,
    pub subresource_range: ImageSubresourceRange,
}

/// What a render pass instance draws into and what it clears to. A clear
/// value is four 32-bit words, read according to the attachment's format.
pub struct RenderPassBeginInfo {
    pub render_pass: RenderPassHandle,
    pub framebuffer: FramebufferHandle,
    pub width: u32,
    pub height: u32,
    pub clear_values: Vec<[u32; 4]>,
}

/// One stage of a pipeline: a shader module and the stage it runs in. The
/// entry point is named `main`.
#[derive(Clone, Copy, PartialEq, Eq, Structural, Debug)]
pub struct ShaderStage {
    pub stage: u32,
    pub module: ShaderModuleHandle,
}

} // verus!
