use ash::vk;
use render_core::device::types::{
    ACCESS_HOST_WRITE, ACCESS_SHADER_READ, ACCESS_TRANSFER_READ, ACCESS_TRANSFER_WRITE,
    ATTACHMENT_LOAD_OP_CLEAR, ATTACHMENT_LOAD_OP_DONT_CARE, ATTACHMENT_STORE_OP_DONT_CARE,
    ATTACHMENT_STORE_OP_STORE, BLEND_FACTOR_ONE, BLEND_FACTOR_ONE_MINUS_SRC_ALPHA,
    BLEND_FACTOR_SRC_COLOR, BLEND_FACTOR_ZERO, BLEND_OP_ADD, BUFFER_USAGE_INDEX_BUFFER,
    BUFFER_USAGE_TRANSFER_SRC, BUFFER_USAGE_UNIFORM_BUFFER, BUFFER_USAGE_VERTEX_BUFFER,
    COLOR_COMPONENT_ALL, COLOR_SPACE_SRGB_NONLINEAR, COMPOSITE_ALPHA_OPAQUE, CULL_MODE_BACK,
    DESCRIPTOR_TYPE_COMBINED_IMAGE_SAMPLER, DESCRIPTOR_TYPE_SAMPLER,
    DESCRIPTOR_TYPE_UNIFORM_BUFFER, DYNAMIC_STATE_SCISSOR, DYNAMIC_STATE_VIEWPORT, FILTER_LINEAR,
    FILTER_NEAREST, FORMAT_B8G8R8A8_SRGB, FORMAT_D32_SFLOAT, FORMAT_R32G32B32A32_SFLOAT,
    FORMAT_R32G32B32A32_UINT, FORMAT_R32G32B32_SFLOAT, FORMAT_R32G32B32_UINT,
    FORMAT_R32G32_SFLOAT, FORMAT_R32G32_UINT, FORMAT_R32_SFLOAT, FORMAT_R32_UINT,
    FORMAT_R8G8B8A8_SRGB, FORMAT_R8G8B8A8_UNORM, FORMAT_UNDEFINED, FRONT_FACE_COUNTER_CLOCKWISE,
    IMAGE_ASPECT_COLOR, IMAGE_ASPECT_DEPTH, IMAGE_CREATE_CUBE_COMPATIBLE,
    IMAGE_LAYOUT_COLOR_ATTACHMENT_OPTIMAL, IMAGE_LAYOUT_DEPTH_STENCIL_ATTACHMENT_OPTIMAL,
    IMAGE_LAYOUT_PREINITIALIZED, IMAGE_LAYOUT_PRESENT_SRC, IMAGE_LAYOUT_SHADER_READ_ONLY_OPTIMAL,
    IMAGE_LAYOUT_TRANSFER_DST_OPTIMAL, IMAGE_LAYOUT_TRANSFER_SRC_OPTIMAL, IMAGE_LAYOUT_UNDEFINED,
    IMAGE_TILING_OPTIMAL, IMAGE_TYPE_2D, IMAGE_USAGE_COLOR_ATTACHMENT,
    IMAGE_USAGE_DEPTH_STENCIL_ATTACHMENT, IMAGE_USAGE_SAMPLED, IMAGE_USAGE_TRANSFER_DST,
    IMAGE_USAGE_TRANSFER_SRC, IMAGE_VIEW_TYPE_2D, IMAGE_VIEW_TYPE_CUBE, INDEX_TYPE_UINT16,
    INDEX_TYPE_UINT32, MAX_MEMORY_TYPES, MEMORY_PROPERTY_DEVICE_LOCAL,
    MEMORY_PROPERTY_HOST_COHERENT, MEMORY_PROPERTY_HOST_VISIBLE, PIPELINE_BIND_POINT_GRAPHICS,
    PIPELINE_STAGE_COLOR_ATTACHMENT_OUTPUT, PIPELINE_STAGE_FRAGMENT_SHADER, PIPELINE_STAGE_HOST,
    PIPELINE_STAGE_TRANSFER, PRESENT_MODE_FIFO, PRIMITIVE_TOPOLOGY_TRIANGLE_LIST, QUEUE_GRAPHICS,
    REMAINING_ARRAY_LAYERS, REMAINING_MIP_LEVELS, RESULT_ERROR_OUT_OF_DATE, RESULT_SUBOPTIMAL,
    RESULT_SUCCESS, SAMPLER_ADDRESS_MODE_CLAMP_TO_EDGE, SAMPLER_ADDRESS_MODE_REPEAT,
    SAMPLER_MIPMAP_MODE_LINEAR, SAMPLER_MIPMAP_MODE_NEAREST, SAMPLE_COUNT_1, SHADER_STAGE_ALL,
    SHADER_STAGE_FRAGMENT, SHADER_STAGE_VERTEX, SURFACE_TRANSFORM_IDENTITY,
    VERTEX_INPUT_RATE_VERTEX,
};
use render_core::init::{select_physical_device_and_graphics_queue, QueueFamily, Selection};
use render_core::error::{Error, VkError};
use render_core::renderer::{highest_sample_count, judge, SwapchainVerdict};
use render_core::scene::definition::{AttributeFormat, DescriptorType, MeshIndexFormat, StageType, TextureColorSpace};

#[test]
fn format_codes_are_those_of_the_interface() {
    assert_eq!(FORMAT_UNDEFINED, vk::Format::UNDEFINED.as_raw());
    assert_eq!(FORMAT_R8G8B8A8_UNORM, vk::Format::R8G8B8A8_UNORM.as_raw());
    assert_eq!(FORMAT_R8G8B8A8_SRGB, vk::Format::R8G8B8A8_SRGB.as_raw());
    assert_eq!(FORMAT_B8G8R8A8_SRGB, vk::Format::B8G8R8A8_SRGB.as_raw());
    assert_eq!(FORMAT_R32_UINT, vk::Format::R32_UINT.as_raw());
    assert_eq!(FORMAT_R32_SFLOAT, vk::Format::R32_SFLOAT.as_raw());
    assert_eq!(FORMAT_R32G32_UINT, vk::Format::R32G32_UINT.as_raw());
    assert_eq!(FORMAT_R32G32_SFLOAT, vk::Format::R32G32_SFLOAT.as_raw());
    assert_eq!(FORMAT_R32G32B32_UINT, vk::Format::R32G32B32_UINT.as_raw());
    assert_eq!(FORMAT_R32G32B32_SFLOAT, vk::Format::R32G32B32_SFLOAT.as_raw());
    assert_eq!(FORMAT_R32G32B32A32_UINT, vk::Format::R32G32B32A32_UINT.as_raw());
    assert_eq!(FORMAT_R32G32B32A32_SFLOAT, vk::Format::R32G32B32A32_SFLOAT.as_raw());
    assert_eq!(FORMAT_D32_SFLOAT, vk::Format::D32_SFLOAT.as_raw());
}

#[test]
fn layout_codes_are_those_of_the_interface() {
    assert_eq!(IMAGE_LAYOUT_UNDEFINED, vk::ImageLayout::UNDEFINED.as_raw());
    assert_eq!(IMAGE_LAYOUT_COLOR_ATTACHMENT_OPTIMAL, vk::ImageLayout::COLOR_ATTACHMENT_OPTIMAL.as_raw());
    assert_eq!(
        IMAGE_LAYOUT_DEPTH_STENCIL_ATTACHMENT_OPTIMAL,
        vk::ImageLayout::DEPTH_STENCIL_ATTACHMENT_OPTIMAL.as_raw()
    );
    assert_eq!(IMAGE_LAYOUT_SHADER_READ_ONLY_OPTIMAL, vk::ImageLayout::SHADER_READ_ONLY_OPTIMAL.as_raw());
    assert_eq!(IMAGE_LAYOUT_TRANSFER_SRC_OPTIMAL, vk::ImageLayout::TRANSFER_SRC_OPTIMAL.as_raw());
    assert_eq!(IMAGE_LAYOUT_TRANSFER_DST_OPTIMAL, vk::ImageLayout::TRANSFER_DST_OPTIMAL.as_raw());
    assert_eq!(IMAGE_LAYOUT_PREINITIALIZED, vk::ImageLayout::PREINITIALIZED.as_raw());
    assert_eq!(IMAGE_LAYOUT_PRESENT_SRC, vk::ImageLayout::PRESENT_SRC_KHR.as_raw());
}

#[test]
fn flag_bits_are_those_of_the_interface() {
    assert_eq!(MEMORY_PROPERTY_DEVICE_LOCAL, vk::MemoryPropertyFlags::DEVICE_LOCAL.as_raw());
    assert_eq!(MEMORY_PROPERTY_HOST_VISIBLE, vk::MemoryPropertyFlags::HOST_VISIBLE.as_raw());
    assert_eq!(MEMORY_PROPERTY_HOST_COHERENT, vk::MemoryPropertyFlags::HOST_COHERENT.as_raw());
    assert_eq!(MAX_MEMORY_TYPES as usize, vk::MAX_MEMORY_TYPES);
    assert_eq!(BUFFER_USAGE_TRANSFER_SRC, vk::BufferUsageFlags::TRANSFER_SRC.as_raw());
    assert_eq!(BUFFER_USAGE_UNIFORM_BUFFER, vk::BufferUsageFlags::UNIFORM_BUFFER.as_raw());
    assert_eq!(BUFFER_USAGE_INDEX_BUFFER, vk::BufferUsageFlags::INDEX_BUFFER.as_raw());
    assert_eq!(BUFFER_USAGE_VERTEX_BUFFER, vk::BufferUsageFlags::VERTEX_BUFFER.as_raw());
    assert_eq!(IMAGE_USAGE_TRANSFER_SRC, vk::ImageUsageFlags::TRANSFER_SRC.as_raw());
    assert_eq!(IMAGE_USAGE_TRANSFER_DST, vk::ImageUsageFlags::TRANSFER_DST.as_raw());
    assert_eq!(IMAGE_USAGE_SAMPLED, vk::ImageUsageFlags::SAMPLED.as_raw());
    assert_eq!(IMAGE_USAGE_COLOR_ATTACHMENT, vk::ImageUsageFlags::COLOR_ATTACHMENT.as_raw());
    assert_eq!(
        IMAGE_USAGE_DEPTH_STENCIL_ATTACHMENT,
        vk::ImageUsageFlags::DEPTH_STENCIL_ATTACHMENT.as_raw()
    );
    assert_eq!(IMAGE_CREATE_CUBE_COMPATIBLE, vk::ImageCreateFlags::CUBE_COMPATIBLE.as_raw());
    assert_eq!(SAMPLE_COUNT_1, vk::SampleCountFlags::TYPE_1.as_raw());
    assert_eq!(IMAGE_ASPECT_COLOR, vk::ImageAspectFlags::COLOR.as_raw());
    assert_eq!(IMAGE_ASPECT_DEPTH, vk::ImageAspectFlags::DEPTH.as_raw());
    assert_eq!(SHADER_STAGE_VERTEX, vk::ShaderStageFlags::VERTEX.as_raw());
    assert_eq!(SHADER_STAGE_FRAGMENT, vk::ShaderStageFlags::FRAGMENT.as_raw());
    assert_eq!(SHADER_STAGE_ALL, vk::ShaderStageFlags::ALL.as_raw());
    assert_eq!(PIPELINE_STAGE_HOST, vk::PipelineStageFlags::HOST.as_raw());
    assert_eq!(PIPELINE_STAGE_TRANSFER, vk::PipelineStageFlags::TRANSFER.as_raw());
    assert_eq!(PIPELINE_STAGE_FRAGMENT_SHADER, vk::PipelineStageFlags::FRAGMENT_SHADER.as_raw());
    assert_eq!(
        PIPELINE_STAGE_COLOR_ATTACHMENT_OUTPUT,
        vk::PipelineStageFlags::COLOR_ATTACHMENT_OUTPUT.as_raw()
    );
    assert_eq!(ACCESS_SHADER_READ, vk::AccessFlags::SHADER_READ.as_raw());
    assert_eq!(ACCESS_TRANSFER_READ, vk::AccessFlags::TRANSFER_READ.as_raw());
    assert_eq!(ACCESS_TRANSFER_WRITE, vk::AccessFlags::TRANSFER_WRITE.as_raw());
    assert_eq!(ACCESS_HOST_WRITE, vk::AccessFlags::HOST_WRITE.as_raw());
    assert_eq!(CULL_MODE_BACK, vk::CullModeFlags::BACK.as_raw());
    assert_eq!(COLOR_COMPONENT_ALL, vk::ColorComponentFlags::all().as_raw());
    assert_eq!(SURFACE_TRANSFORM_IDENTITY, vk::SurfaceTransformFlagsKHR::IDENTITY.as_raw());
    assert_eq!(COMPOSITE_ALPHA_OPAQUE, vk::CompositeAlphaFlagsKHR::OPAQUE.as_raw());
    assert_eq!(QUEUE_GRAPHICS, vk::QueueFlags::GRAPHICS.as_raw());
}

#[test]
fn enumeration_codes_are_those_of_the_interface() {
    assert_eq!(IMAGE_TYPE_2D, vk::ImageType::TYPE_2D.as_raw());
    assert_eq!(IMAGE_TILING_OPTIMAL, vk::ImageTiling::OPTIMAL.as_raw());
    assert_eq!(IMAGE_VIEW_TYPE_2D, vk::ImageViewType::TYPE_2D.as_raw());
    assert_eq!(IMAGE_VIEW_TYPE_CUBE, vk::ImageViewType::CUBE.as_raw());
    assert_eq!(REMAINING_MIP_LEVELS, vk::REMAINING_MIP_LEVELS);
    assert_eq!(REMAINING_ARRAY_LAYERS, vk::REMAINING_ARRAY_LAYERS);
    assert_eq!(FILTER_NEAREST, vk::Filter::NEAREST.as_raw());
    assert_eq!(FILTER_LINEAR, vk::Filter::LINEAR.as_raw());
    assert_eq!(SAMPLER_MIPMAP_MODE_NEAREST, vk::SamplerMipmapMode::NEAREST.as_raw());
    assert_eq!(SAMPLER_MIPMAP_MODE_LINEAR, vk::SamplerMipmapMode::LINEAR.as_raw());
    assert_eq!(SAMPLER_ADDRESS_MODE_REPEAT, vk::SamplerAddressMode::REPEAT.as_raw());
    assert_eq!(SAMPLER_ADDRESS_MODE_CLAMP_TO_EDGE, vk::SamplerAddressMode::CLAMP_TO_EDGE.as_raw());
    assert_eq!(DESCRIPTOR_TYPE_SAMPLER, vk::DescriptorType::SAMPLER.as_raw());
    assert_eq!(
        DESCRIPTOR_TYPE_COMBINED_IMAGE_SAMPLER,
        vk::DescriptorType::COMBINED_IMAGE_SAMPLER.as_raw()
    );
    assert_eq!(DESCRIPTOR_TYPE_UNIFORM_BUFFER, vk::DescriptorType::UNIFORM_BUFFER.as_raw());
    assert_eq!(INDEX_TYPE_UINT16, vk::IndexType::UINT16.as_raw());
    assert_eq!(INDEX_TYPE_UINT32, vk::IndexType::UINT32.as_raw());
    assert_eq!(ATTACHMENT_LOAD_OP_CLEAR, vk::AttachmentLoadOp::CLEAR.as_raw());
    assert_eq!(ATTACHMENT_LOAD_OP_DONT_CARE, vk::AttachmentLoadOp::DONT_CARE.as_raw());
    assert_eq!(ATTACHMENT_STORE_OP_STORE, vk::AttachmentStoreOp::STORE.as_raw());
    assert_eq!(ATTACHMENT_STORE_OP_DONT_CARE, vk::AttachmentStoreOp::DONT_CARE.as_raw());
    assert_eq!(PIPELINE_BIND_POINT_GRAPHICS, vk::PipelineBindPoint::GRAPHICS.as_raw());
    assert_eq!(VERTEX_INPUT_RATE_VERTEX, vk::VertexInputRate::VERTEX.as_raw());
    assert_eq!(PRIMITIVE_TOPOLOGY_TRIANGLE_LIST, vk::PrimitiveTopology::TRIANGLE_LIST.as_raw());
    assert_eq!(FRONT_FACE_COUNTER_CLOCKWISE, vk::FrontFace::COUNTER_CLOCKWISE.as_raw());
    assert_eq!(BLEND_FACTOR_ZERO, vk::BlendFactor::ZERO.as_raw());
    assert_eq!(BLEND_FACTOR_ONE, vk::BlendFactor::ONE.as_raw());
    assert_eq!(BLEND_FACTOR_SRC_COLOR, vk::BlendFactor::SRC_COLOR.as_raw());
    assert_eq!(BLEND_FACTOR_ONE_MINUS_SRC_ALPHA, vk::BlendFactor::ONE_MINUS_SRC_ALPHA.as_raw());
    assert_eq!(BLEND_OP_ADD, vk::BlendOp::ADD.as_raw());
    assert_eq!(DYNAMIC_STATE_VIEWPORT, vk::DynamicState::VIEWPORT.as_raw());
    assert_eq!(DYNAMIC_STATE_SCISSOR, vk::DynamicState::SCISSOR.as_raw());
    assert_eq!(COLOR_SPACE_SRGB_NONLINEAR, vk::ColorSpaceKHR::SRGB_NONLINEAR.as_raw());
    assert_eq!(PRESENT_MODE_FIFO, vk::PresentModeKHR::FIFO.as_raw());
    assert_eq!(RESULT_SUCCESS, vk::Result::SUCCESS.as_raw());
    assert_eq!(RESULT_SUBOPTIMAL, vk::Result::SUBOPTIMAL_KHR.as_raw());
    assert_eq!(RESULT_ERROR_OUT_OF_DATE, vk::Result::ERROR_OUT_OF_DATE_KHR.as_raw());
}

#[test]
fn declared_kinds_map_to_their_codes() {
    assert_eq!(AttributeFormat::F32.format(), vk::Format::R32_SFLOAT.as_raw());
    assert_eq!(AttributeFormat::Vec2.format(), vk::Format::R32G32_SFLOAT.as_raw());
    assert_eq!(AttributeFormat::Vec3.format(), vk::Format::R32G32B32_SFLOAT.as_raw());
    assert_eq!(AttributeFormat::Vec4.format(), vk::Format::R32G32B32A32_SFLOAT.as_raw());
    assert_eq!(AttributeFormat::U32.format(), vk::Format::R32_UINT.as_raw());
    assert_eq!(AttributeFormat::UVec2.format(), vk::Format::R32G32_UINT.as_raw());
    assert_eq!(AttributeFormat::UVec3.format(), vk::Format::R32G32B32_UINT.as_raw());
    assert_eq!(AttributeFormat::UVec4.format(), vk::Format::R32G32B32A32_UINT.as_raw());
    assert_eq!(DescriptorType::Uniform.descriptor_type(), vk::DescriptorType::UNIFORM_BUFFER.as_raw());
    assert_eq!(
        DescriptorType::Texture.descriptor_type(),
        vk::DescriptorType::COMBINED_IMAGE_SAMPLER.as_raw()
    );
    assert_eq!(StageType::Vertex.stage_flags(), vk::ShaderStageFlags::VERTEX.as_raw());
    assert_eq!(StageType::Fragment.stage_flags(), vk::ShaderStageFlags::FRAGMENT.as_raw());
    assert_eq!(MeshIndexFormat::U16.index_type(), vk::IndexType::UINT16.as_raw());
    assert_eq!(MeshIndexFormat::U32.index_type(), vk::IndexType::UINT32.as_raw());
    assert_eq!(TextureColorSpace::default(), TextureColorSpace::Linear);
}

#[test]
fn highest_sample_count_is_half_the_next_power_of_two() {
    assert_eq!(highest_sample_count(0b0000_0001), 0);
    assert_eq!(highest_sample_count(0b0000_0011), 2);
    assert_eq!(highest_sample_count(0b0000_0111), 4);
    assert_eq!(highest_sample_count(0b0000_1111), 8);
    assert_eq!(highest_sample_count(0b0111_1111), 64);
    assert_eq!(highest_sample_count(0b0000_1000), 4);
    assert_eq!(highest_sample_count(0b0000_0101), 4);
    assert_eq!(highest_sample_count(0), 0);
    assert_eq!(highest_sample_count(0xffff_ff80), 0);
    assert_eq!(highest_sample_count(0xffff_ffff), 64);
    for counts in 0..=0x7fu32 {
        assert_eq!(highest_sample_count(counts), counts.next_power_of_two() >> 1);
    }
}

#[test]
fn result_codes_are_judged() {
    assert_eq!(judge(0), SwapchainVerdict::Current);
    assert_eq!(judge(1000001003), SwapchainVerdict::Stale);
    assert_eq!(judge(-1000001004), SwapchainVerdict::Stale);
    assert_eq!(judge(-4), SwapchainVerdict::Failed(VkError(-4)));
    assert_eq!(judge(5), SwapchainVerdict::Failed(VkError(5)));
}

#[test]
fn the_first_family_that_draws_and_presents_is_chosen() {
    let family = |flags: u32, supports_surface: bool| QueueFamily { flags, supports_surface };
    let devices = vec![
        vec![family(0x2, true), family(0x1, false)],
        vec![],
        vec![family(0x4, true), family(0x6, true), family(0x7, true), family(0x1, true)],
        vec![family(0x1, true)],
    ];
    assert_eq!(
        select_physical_device_and_graphics_queue(&devices),
        Ok(Selection { physical_device: 2, queue_family: 2 })
    );
    let none = vec![vec![family(0x1, false), family(0xe, true)], vec![family(0, true)]];
    assert_eq!(select_physical_device_and_graphics_queue(&none), Err(Error::VkSupport));
    assert_eq!(select_physical_device_and_graphics_queue(&Vec::new()), Err(Error::VkSupport));
    let first = vec![vec![family(0xf, true)]];
    assert_eq!(
        select_physical_device_and_graphics_queue(&first),
        Ok(Selection { physical_device: 0, queue_family: 0 })
    );
}
