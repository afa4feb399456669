use vstd::prelude::*;
use crate::device::backend::Device;
use crate::device::buffer::BufferHandle;
use crate::device::command_buffer::{CommandBuffer, CommandBufferRecorder, CommandView};
use crate::device::image::{image_info_2d, mip_levels, spec_mip_levels, Image, ImageHandle};
use crate::device::image_view::{whole_image_view, ImageView};
use crate::device::memory::MemoryTypeMask;
use crate::device::raw_handle::{
    extends, one, requested, stores, AsRawHandle, Gpu, ObjectKind, Request,
};
use crate::device::sampler::{linear_sampler, Sampler};
use crate::device::types::{
    BufferImageCopy, Extent3D, ImageBlit, ImageMemoryBarrier, ImageSubresourceLayers,
    ImageSubresourceRange, Offset3D, ACCESS_NONE, ACCESS_SHADER_READ, ACCESS_TRANSFER_READ,
    ACCESS_TRANSFER_WRITE, FILTER_LINEAR, IMAGE_ASPECT_COLOR,
    IMAGE_LAYOUT_SHADER_READ_ONLY_OPTIMAL, IMAGE_LAYOUT_TRANSFER_DST_OPTIMAL,
    IMAGE_LAYOUT_TRANSFER_SRC_OPTIMAL, IMAGE_LAYOUT_UNDEFINED, IMAGE_USAGE_SAMPLED,
    IMAGE_USAGE_TRANSFER_DST, IMAGE_USAGE_TRANSFER_SRC, IMAGE_VIEW_TYPE_2D,
    PIPELINE_STAGE_FRAGMENT_SHADER, PIPELINE_STAGE_HOST, PIPELINE_STAGE_TRANSFER,
    REMAINING_ARRAY_LAYERS, REMAINING_MIP_LEVELS, SAMPLE_COUNT_1,
};
use crate::error::Error;

verus! {

/// The largest width or height of a texture: corners of image regions are
/// signed 32-bit numbers.
pub const MAX_TEXTURE_DIMENSION: u32 = 0x7fff_ffff;

/// A sampled image with its view and its sampler.
pub struct Texture {
    pub width: u32,
    pub height: u32,
    pub image: Image,
    pub image_view: ImageView,
    pub sampler: Sampler,
}

/// The size of mip level `level` along a dimension that measures `size` at
/// level 0: halved `level` times, but at least 1.
pub open spec fn mip_size(size: u32, level: u32) -> u32 {
    if level < 32 && (size >> level) >= 1 {
        size >> level
    } else {
        1
    }
}

/// All layers of the color aspect from mip level `base` on, `count` levels.
pub open spec fn color_levels(base: u32, count: u32) -> ImageSubresourceRange {
    ImageSubresourceRange {
        aspect_mask: IMAGE_ASPECT_COLOR,
        base_mip_level: base,
        level_count: count,
        base_array_layer: 0,
        layer_count: REMAINING_ARRAY_LAYERS,
    }
}

/// The first `layers` layers of the color aspect of mip level `level`.
pub open spec fn color_layers(level: u32, layers: u32) -> ImageSubresourceLayers {
    ImageSubresourceLayers {
        aspect_mask: IMAGE_ASPECT_COLOR,
        mip_level: level,
        base_array_layer: 0,
        layer_count: layers,
    }
}

/// The blit that fills mip level `level` of a `width` by `height` image
/// from level 0.
pub open spec fn mip_blit(width: u32, height: u32, level: u32) -> ImageBlit {
    ImageBlit {
        src_subresource: color_layers(0, 1),
        src_begin: Offset3D { x: 0, y: 0, z: 0 },
        src_end: Offset3D { x: width as i32, y: height as i32, z: 1 },
        dst_subresource: color_layers(level, 1),
        dst_begin: Offset3D { x: 0, y: 0, z: 0 },
        dst_end: Offset3D {
            x: mip_size(width, level) as i32,
            y: mip_size(height, level) as i32,
            z: 1,
        },
    }
}

/// The blits that fill every mip level above 0 of a full chain, in level
/// order.
pub open spec fn mip_blits(width: u32, height: u32) -> Seq<ImageBlit> {
    Seq::new(
        (spec_mip_levels(width, height) - 1) as nat,
        |i: int| mip_blit(width, height, (i + 1) as u32),
    )
}

/// A layout change of `range` of `image`.
pub open spec fn transition(
    image: ImageHandle,
    src_access_mask: u32,
    dst_access_mask: u32,
    old_layout: i32,
    new_layout: i32,
    range: ImageSubresourceRange,
) -> ImageMemoryBarrier {
    ImageMemoryBarrier {
        src_access_mask,
        dst_access_mask,
        old_layout,
        new_layout,
        image,
        subresource_range: range,
    }
}

/// The commands that fill a `width` by `height` texture from tightly
/// packed texels in `buffer` at `offset`: make the whole image a transfer
/// target, copy the texels into level 0, make level 0 a transfer source,
/// blit it into every further level, and make all levels readable by
/// fragment shaders.
pub open spec fn copy_commands(
    image: ImageHandle,
    buffer: BufferHandle,
    offset: u64,
    width: u32,
    height: u32,
) -> Seq<CommandView> {
    seq![
        CommandView::PipelineBarrier {
            src_stage_mask: PIPELINE_STAGE_HOST,
            dst_stage_mask: PIPELINE_STAGE_TRANSFER,
            barriers: seq![
                transition(
                    image,
                    ACCESS_NONE,
                    ACCESS_TRANSFER_READ,
                    IMAGE_LAYOUT_UNDEFINED,
                    IMAGE_LAYOUT_TRANSFER_DST_OPTIMAL,
                    color_levels(0, REMAINING_MIP_LEVELS),
                ),
            ],
        },
        CommandView::CopyBufferToImage {
            src_buffer: buffer,
            dst_image: image,
            dst_image_layout: IMAGE_LAYOUT_TRANSFER_DST_OPTIMAL,
            regions: seq![
                BufferImageCopy {
                    buffer_offset: offset,
                    image_subresource: color_layers(0, 1),
                    image_offset: Offset3D { x: 0, y: 0, z: 0 },
                    image_extent: Extent3D { width, height, depth: 1 },
                },
            ],
        },
        CommandView::PipelineBarrier {
            src_stage_mask: PIPELINE_STAGE_TRANSFER,
            dst_stage_mask: PIPELINE_STAGE_TRANSFER,
            barriers: seq![
                transition(
                    image,
                    ACCESS_TRANSFER_WRITE,
                    ACCESS_TRANSFER_READ,
                    IMAGE_LAYOUT_TRANSFER_DST_OPTIMAL,
                    IMAGE_LAYOUT_TRANSFER_SRC_OPTIMAL,
                    color_levels(0, 1),
                ),
            ],
        },
        CommandView::BlitImage {
            src_image: image,
            src_image_layout: IMAGE_LAYOUT_TRANSFER_SRC_OPTIMAL,
            dst_image: image,
            dst_image_layout: IMAGE_LAYOUT_TRANSFER_DST_OPTIMAL,
            regions: mip_blits(width, height),
            filter: FILTER_LINEAR,
        },
        CommandView::PipelineBarrier {
            src_stage_mask: PIPELINE_STAGE_TRANSFER,
            dst_stage_mask: PIPELINE_STAGE_FRAGMENT_SHADER,
            barriers: seq![
                transition(
                    image,
                    ACCESS_TRANSFER_READ,
                    ACCESS_SHADER_READ,
                    IMAGE_LAYOUT_TRANSFER_SRC_OPTIMAL,
                    IMAGE_LAYOUT_SHADER_READ_ONLY_OPTIMAL,
                    color_levels(0, 1),
                ),
                transition(
                    image,
                    ACCESS_TRANSFER_READ,
                    ACCESS_SHADER_READ,
                    IMAGE_LAYOUT_TRANSFER_DST_OPTIMAL,
                    IMAGE_LAYOUT_SHADER_READ_ONLY_OPTIMAL,
                    color_levels(1, REMAINING_MIP_LEVELS),
                ),
            ],
        },
    ]
}

/// Whether `after` is `before` with the three requests that fill `texture`
/// with `texels`: the texels stored at the start of a memory block, the
/// commands that copy them from the start of a buffer into the texture, and
/// the wait for those commands.
pub open spec fn filled_with(
    before: Seq<Request>,
    after: Seq<Request>,
    texture: &Texture,
    texels: Seq<u8>,
) -> bool {
    &&& after.len() == before.len() + 3
    &&& extends(before, after, 3)
    &&& after[before.len() as int + 2] == Request::Wait
    &&& stores(after[before.len() as int], 0, texels)
    &&& exists|staging: BufferHandle|
        after[before.len() as int + 1] == (Request::Submit {
            commands: #[trigger] copy_commands(
                texture.image.object.raw_handle(),
                staging,
                0,
                texture.width,
                texture.height,
            ),
            wait: None,
        })
}

/// The size of mip level `level` along a dimension of `size` texels.
pub fn mip_dimension(size: u32, level: u32) -> (dimension: u32)
    ensures
        dimension == mip_size(size, level),
        1 <= dimension,
        size >= 1 ==> dimension <= size,
{
    if level < 32 {
        let shifted: u32 = size >> level;
        assert(shifted <= size) by (bit_vector)
            requires
                shifted == size >> level,
                level < 32,
        ;
        if shifted >= 1 {
            shifted
        } else {
            1
        }
    } else {
        1
    }
}

/// The blits that fill every mip level above 0 from level 0.
pub fn build_mip_blits(width: u32, height: u32) -> (blits: Vec<ImageBlit>)
    requires
        1 <= width <= MAX_TEXTURE_DIMENSION,
        1 <= height <= MAX_TEXTURE_DIMENSION,
    ensures
        blits@ == mip_blits(width, height),
{
    let levels = mip_levels((width, height));
    let mut blits: Vec<ImageBlit> = Vec::new();
    let mut level: u32 = 1;
    while level < levels
        invariant
            1 <= level,
            level <= levels || levels == 0,
            levels == spec_mip_levels(width, height),
            levels <= 32,
            1 <= width <= MAX_TEXTURE_DIMENSION,
            1 <= height <= MAX_TEXTURE_DIMENSION,
            blits@.len() == level - 1,
            forall|i: int| 0 <= i < blits@.len() ==> blits@[i] == mip_blit(width, height, (i + 1) as u32),
        decreases levels - level,
    {
        let dst_width = mip_dimension(width, level);
        let dst_height = mip_dimension(height, level);
        blits.push(
            ImageBlit {
                src_subresource: ImageSubresourceLayers {
                    aspect_mask: IMAGE_ASPECT_COLOR,
                    mip_level: 0,
                    base_array_layer: 0,
                    layer_count: 1,
                },
                src_begin: Offset3D { x: 0, y: 0, z: 0 },
                src_end: Offset3D { x: width as i32, y: height as i32, z: 1 },
                dst_subresource: ImageSubresourceLayers {
                    aspect_mask: IMAGE_ASPECT_COLOR,
                    mip_level: level,
                    base_array_layer: 0,
                    layer_count: 1,
                },
                dst_begin: Offset3D { x: 0, y: 0, z: 0 },
                dst_end: Offset3D { x: dst_width as i32, y: dst_height as i32, z: 1 },
            },
        );
        level = level + 1;
    }
    proof {
        assert(spec_mip_levels(width, height) >= 1) by {
            reveal_with_fuel(crate::device::image::bit_length, 2);
        }
        assert(blits@ =~= mip_blits(width, height));
    }
    blits
}

fn color_range(base: u32, count: u32) -> (range: ImageSubresourceRange)
    ensures
        range == color_levels(base, count),
{
    ImageSubresourceRange {
        aspect_mask: IMAGE_ASPECT_COLOR,
        base_mip_level: base,
        level_count: count,
        base_array_layer: 0,
        layer_count: REMAINING_ARRAY_LAYERS,
    }
}

impl Texture {
    /// What a texture adds to the live objects of kind `kind`.
    pub open spec fn footprint(kind: ObjectKind) -> int {
        Image::footprint(kind) + one(ObjectKind::ImageView, kind) + one(ObjectKind::Sampler, kind)
    }

    /// The texture has texels, and its image has the full mip chain for
    /// its size.
    pub open spec fn wf(&self) -> bool {
        &&& 1 <= self.width <= MAX_TEXTURE_DIMENSION
        &&& 1 <= self.height <= MAX_TEXTURE_DIMENSION
        &&& self.image.wf()
        &&& self.image_view.info.image == self.image.object.raw_handle()
    }

    /// Creates a `width` by `height` texture of `format` with a full mip
    /// chain, in any memory the device allows, with a view of all of it and
    /// a linear sampler. A texture without texels, or wider or higher than
    /// `MAX_TEXTURE_DIMENSION`, is refused. If any step fails, what the
    /// earlier steps made is destroyed.
    pub fn create<D: Device>(gpu: &mut Gpu<D>, width: u32, height: u32, format: i32) -> (created:
        Result<Texture, Error>)
        ensures
            final(gpu).memory_types == old(gpu).memory_types,
            final(gpu).requests() == old(gpu).requests(),
            !(1 <= width <= MAX_TEXTURE_DIMENSION && 1 <= height <= MAX_TEXTURE_DIMENSION)
                <==> created == Err::<Texture, Error>(Error::TooLarge),
            created matches Err(e) ==> e == Error::TooLarge || e == Error::NoCompatibleMemoryType
                || e is Vk,
            created matches Ok(texture) ==> {
                &&& texture.wf()
                &&& texture.width == width
                &&& texture.height == height
                &&& texture.image.object.info == image_info_2d(
                    width,
                    height,
                    spec_mip_levels(width, height) as u32,
                    format,
                    SAMPLE_COUNT_1,
                    IMAGE_USAGE_TRANSFER_SRC | IMAGE_USAGE_TRANSFER_DST | IMAGE_USAGE_SAMPLED,
                )
                &&& texture.image_view.info == whole_image_view(
                    texture.image.object.raw_handle(),
                    IMAGE_VIEW_TYPE_2D,
                    format,
                    IMAGE_ASPECT_COLOR,
                )
                &&& texture.sampler.info == linear_sampler()
            },
            forall|k: ObjectKind| #[trigger]
                final(gpu).live(k) == old(gpu).live(k) + (if created is Ok {
                    Self::footprint(k)
                } else {
                    0
                }),
    {
        if width < 1 || width > MAX_TEXTURE_DIMENSION || height < 1 || height
            > MAX_TEXTURE_DIMENSION {
            return Err(Error::TooLarge);
        }
        let image = Image::create_2d(
            gpu,
            (width, height),
            mip_levels((width, height)),
            format,
            SAMPLE_COUNT_1,
            IMAGE_USAGE_TRANSFER_SRC | IMAGE_USAGE_TRANSFER_DST | IMAGE_USAGE_SAMPLED,
            MemoryTypeMask::any(),
        )?;
        let image_view = match ImageView::create_2d(
            gpu,
            image.object.as_raw(),
            format,
            IMAGE_ASPECT_COLOR,
        ) {
            Ok(view) => view,
            Err(e) => {
                image.destroy(gpu);
                return Err(e);
            },
        };
        let sampler = match Sampler::linear(gpu) {
            Ok(sampler) => sampler,
            Err(e) => {
                image_view.destroy(gpu);
                image.destroy(gpu);
                return Err(e);
            },
        };
        Ok(Self { width, height, image, image_view, sampler })
    }

    /// Records the commands that fill the texture from tightly packed
    /// texels in `buffer` at `offset`.
    pub fn record_copy(&self, recording: &mut CommandBufferRecorder, buffer: BufferHandle, offset: u64)
        requires
            old(recording).wf(),
            self.wf(),
        ensures
            final(recording).wf(),
            final(recording).raw_handle() == old(recording).raw_handle(),
            final(recording)@ == old(recording)@ + copy_commands(
                self.image.object.raw_handle(),
                buffer,
                offset,
                self.width,
                self.height,
            ),
    {
        let image = self.image.object.as_raw();
        let to_target = [
            ImageMemoryBarrier {
                src_access_mask: ACCESS_NONE,
                dst_access_mask: ACCESS_TRANSFER_READ,
                old_layout: IMAGE_LAYOUT_UNDEFINED,
                new_layout: IMAGE_LAYOUT_TRANSFER_DST_OPTIMAL,
                image,
                subresource_range: color_range(0, REMAINING_MIP_LEVELS),
            },
        ];
        recording.image_transition(PIPELINE_STAGE_HOST, PIPELINE_STAGE_TRANSFER, &to_target);
        let texels = [
            BufferImageCopy {
                buffer_offset: offset,
                image_subresource: ImageSubresourceLayers {
                    aspect_mask: IMAGE_ASPECT_COLOR,
                    mip_level: 0,
                    base_array_layer: 0,
                    layer_count: 1,
                },
                image_offset: Offset3D { x: 0, y: 0, z: 0 },
                image_extent: Extent3D { width: self.width, height: self.height, depth: 1 },
            },
        ];
        recording.copy_buffer_to_image(buffer, image, IMAGE_LAYOUT_TRANSFER_DST_OPTIMAL, &texels);
        let to_source = [
            ImageMemoryBarrier {
                src_access_mask: ACCESS_TRANSFER_WRITE,
                dst_access_mask: ACCESS_TRANSFER_READ,
                old_layout: IMAGE_LAYOUT_TRANSFER_DST_OPTIMAL,
                new_layout: IMAGE_LAYOUT_TRANSFER_SRC_OPTIMAL,
                image,
                subresource_range: color_range(0, 1),
            },
        ];
        recording.image_transition(PIPELINE_STAGE_TRANSFER, PIPELINE_STAGE_TRANSFER, &to_source);
        let blits = build_mip_blits(self.width, self.height);
        recording.blit_image(
            image,
            IMAGE_LAYOUT_TRANSFER_SRC_OPTIMAL,
            image,
            IMAGE_LAYOUT_TRANSFER_DST_OPTIMAL,
            blits.as_slice(),
            FILTER_LINEAR,
        );
        let to_shader = [
            ImageMemoryBarrier {
                src_access_mask: ACCESS_TRANSFER_READ,
                dst_access_mask: ACCESS_SHADER_READ,
                old_layout: IMAGE_LAYOUT_TRANSFER_SRC_OPTIMAL,
                new_layout: IMAGE_LAYOUT_SHADER_READ_ONLY_OPTIMAL,
                image,
                subresource_range: color_range(0, 1),
            },
            ImageMemoryBarrier {
                src_access_mask: ACCESS_TRANSFER_READ,
                dst_access_mask: ACCESS_SHADER_READ,
                old_layout: IMAGE_LAYOUT_TRANSFER_DST_OPTIMAL,
                new_layout: IMAGE_LAYOUT_SHADER_READ_ONLY_OPTIMAL,
                image,
                subresource_range: color_range(1, REMAINING_MIP_LEVELS),
            },
        ];
        recording.image_transition(
            PIPELINE_STAGE_TRANSFER,
            PIPELINE_STAGE_FRAGMENT_SHADER,
            &to_shader,
        );
        proof {
            assert(to_target@ =~= seq![to_target@[0]]);
            assert(texels@ =~= seq![texels@[0]]);
            assert(to_source@ =~= seq![to_source@[0]]);
            assert(to_shader@ =~= seq![to_shader@[0], to_shader@[1]]);
            assert(recording@ =~= old(recording)@ + copy_commands(
                image,
                buffer,
                offset,
                self.width,
                self.height,
            ));
        }
    }

    /// Fills the texture from tightly packed texels in `buffer` at
    /// `offset`, and waits until the device has done so.
    pub fn copy_from<D: Device>(&self, gpu: &mut Gpu<D>, buffer: BufferHandle, offset: u64) -> (copied:
        Result<(), Error>)
        requires
            self.wf(),
        ensures
            final(gpu).memory_types == old(gpu).memory_types,
            forall|k: ObjectKind| #[trigger] final(gpu).live(k) == old(gpu).live(k),
            copied matches Err(e) ==> e is Vk,
            requested(
                old(gpu).requests(),
                final(gpu).requests(),
                Request::Submit {
                    commands: copy_commands(
                        self.image.object.raw_handle(),
                        buffer,
                        offset,
                        self.width,
                        self.height,
                    ),
                    wait: None,
                },
                copied is Ok,
            ),
    {
        let mut recording = CommandBuffer::create(gpu)?;
        self.record_copy(&mut recording, buffer, offset);
        let closed = recording.end(gpu)?;
        closed.submit(gpu)
    }

    /// Destroys the sampler, the view and the image.
    pub fn destroy<D: Device>(self, gpu: &mut Gpu<D>)
        ensures
            final(gpu).memory_types == old(gpu).memory_types,
            final(gpu).requests() == old(gpu).requests(),
            forall|k: ObjectKind| #[trigger]
                final(gpu).live(k) == old(gpu).live(k) - Self::footprint(k),
    {
        self.sampler.destroy(gpu);
        self.image_view.destroy(gpu);
        self.image.destroy(gpu);
    }
}

} // verus!
