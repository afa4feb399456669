use vstd::prelude::*;
use crate::device::backend::Device;
use crate::device::buffer::{Buffer, BufferHandle};
use crate::device::command_buffer::{CommandBuffer, CommandBufferRecorder, CommandView};
use crate::device::image::{image_info_2d, image_info_cube, Image, ImageHandle, ImageObject};
use crate::device::image_view::{whole_image_view, ImageView};
use crate::device::memory::MemoryTypeMask;
use crate::device::raw_handle::{extends, stores, AsRawHandle, Gpu, ObjectKind, Request};
use crate::device::sampler::{linear_sampler, Sampler};
use crate::device::types::{
    BufferImageCopy, Extent3D, ImageMemoryBarrier, ImageSubresourceLayers, ImageSubresourceRange,
    Offset3D, ACCESS_NONE, ACCESS_SHADER_READ, ACCESS_TRANSFER_READ, BUFFER_USAGE_TRANSFER_SRC,
    IMAGE_ASPECT_COLOR, IMAGE_LAYOUT_SHADER_READ_ONLY_OPTIMAL, IMAGE_LAYOUT_TRANSFER_DST_OPTIMAL,
    IMAGE_LAYOUT_UNDEFINED, IMAGE_USAGE_SAMPLED, IMAGE_USAGE_TRANSFER_DST, IMAGE_VIEW_TYPE_2D,
    IMAGE_VIEW_TYPE_CUBE, PIPELINE_STAGE_FRAGMENT_SHADER, PIPELINE_STAGE_HOST,
    PIPELINE_STAGE_TRANSFER, REMAINING_ARRAY_LAYERS, REMAINING_MIP_LEVELS, SAMPLE_COUNT_1,
};
use crate::error::Error;
use crate::resources::texture::{color_layers, color_levels, mip_dimension, mip_size, transition, Texture};

verus! {

/// The size of the fixed header of a texture container.
pub const HEADER_SIZE: usize = 80;

/// The size of one entry of the level index that follows the header.
pub const LEVEL_INDEX_SIZE: usize = 24;

/// The most mip levels an image can have.
pub const MAX_LEVELS: u32 = 32;

/// The twelve bytes every texture container starts with.
pub open spec fn ktx_signature() -> Seq<u8> {
    seq![0xabu8, 0x4b, 0x54, 0x58, 0x20, 0x32, 0x30, 0xbb, 0x0d, 0x0a, 0x1a, 0x0a]
}

/// The 32-bit number stored at `at`, lowest byte first.
pub open spec fn le_u32(bytes: Seq<u8>, at: int) -> u32 {
    (bytes[at] + 0x100 * bytes[at + 1] + 0x1_0000 * bytes[at + 2] + 0x100_0000 * bytes[at + 3]) as u32
}

/// The 64-bit number stored at `at`, lowest byte first.
pub open spec fn le_u64(bytes: Seq<u8>, at: int) -> u64 {
    (le_u32(bytes, at) + 0x1_0000_0000 * le_u32(bytes, at + 4)) as u64
}

/// The fixed header of a texture container, after the signature.
#[derive(Clone, Copy, PartialEq, Eq, Structural, Debug)]
pub struct Header {
    pub format: u32,
    pub type_size: u32,
    pub width: u32,
    pub height: u32,
    pub depth: u32,
    pub layers: u32,
    pub faces: u32,
    pub levels: u32,
    pub supercompression_scheme: u32,
    pub dfd_byte_offset: u32,
    pub dfd_byte_length: u32,
    pub kvd_byte_offset: u32,
    pub kvd_byte_length: u32,
    pub sgd_byte_offset: u64,
    pub sgd_byte_length: u64,
}

/// Where the data of one mip level lies in the container.
#[derive(Clone, Copy, PartialEq, Eq, Structural, Debug)]
pub struct LevelIndex {
    pub byte_offset: u64,
    pub byte_length: u64,
    pub uncompressed_byte_length: u64,
}

/// The header that the first 80 bytes of a container spell.
pub open spec fn header_of(bytes: Seq<u8>) -> Header {
    Header {
        format: le_u32(bytes, 12),
        type_size: le_u32(bytes, 16),
        width: le_u32(bytes, 20),
        height: le_u32(bytes, 24),
        depth: le_u32(bytes, 28),
        layers: le_u32(bytes, 32),
        faces: le_u32(bytes, 36),
        levels: le_u32(bytes, 40),
        supercompression_scheme: le_u32(bytes, 44),
        dfd_byte_offset: le_u32(bytes, 48),
        dfd_byte_length: le_u32(bytes, 52),
        kvd_byte_offset: le_u32(bytes, 56),
        kvd_byte_length: le_u32(bytes, 60),
        sgd_byte_offset: le_u64(bytes, 64),
        sgd_byte_length: le_u64(bytes, 72),
    }
}

/// Entry `level` of the level index that follows the header.
pub open spec fn level_of(bytes: Seq<u8>, level: int) -> LevelIndex {
    LevelIndex {
        byte_offset: le_u64(bytes, HEADER_SIZE + LEVEL_INDEX_SIZE * level),
        byte_length: le_u64(bytes, HEADER_SIZE + LEVEL_INDEX_SIZE * level + 8),
        uncompressed_byte_length: le_u64(bytes, HEADER_SIZE + LEVEL_INDEX_SIZE * level + 16),
    }
}

/// The number of entries of the level index: one per level, and one for a
/// container that leaves its levels to be generated.
pub open spec fn level_count(header: Header) -> nat {
    if header.levels >= 1 {
        header.levels as nat
    } else {
        1
    }
}

/// The level index of a container.
pub open spec fn levels_of(bytes: Seq<u8>) -> Seq<LevelIndex> {
    Seq::new(level_count(header_of(bytes)), |i: int| level_of(bytes, i))
}

/// The lowest offset at which level data starts.
pub open spec fn data_start(levels: Seq<LevelIndex>) -> int
    decreases levels.len(),
{
    if levels.len() == 0 {
        0
    } else if levels.len() == 1 {
        levels[0].byte_offset as int
    } else {
        let rest = data_start(levels.drop_last());
        if levels.last().byte_offset < rest {
            levels.last().byte_offset as int
        } else {
            rest
        }
    }
}

/// The highest offset at which level data ends.
pub open spec fn data_end(levels: Seq<LevelIndex>) -> int
    decreases levels.len(),
{
    if levels.len() == 0 {
        0
    } else {
        let rest = data_end(levels.drop_last());
        let end = levels.last().byte_offset + levels.last().byte_length;
        if end > rest {
            end
        } else {
            rest
        }
    }
}

/// Why a container cannot be loaded, and `None` for one that can. A file
/// that is too short for what it announces is an input error; anything
/// else that is wrong with it makes it an unsupported container: a wrong
/// signature, a volume, an array, supercompressed data, level data that
/// ends beyond what 64 bits can address, a face count other than 1 (a
/// plain image) or 6 (a cube), or more levels than an image can have.
pub open spec fn ktx_error(bytes: Seq<u8>) -> Option<Error> {
    let header = header_of(bytes);
    let levels = levels_of(bytes);
    if bytes.len() < HEADER_SIZE {
        Some(Error::Io)
    } else if bytes.subrange(0, 12) != ktx_signature() {
        Some(Error::Ktx)
    } else if HEADER_SIZE + LEVEL_INDEX_SIZE * level_count(header) > bytes.len() {
        Some(Error::Io)
    } else if header.depth != 0 || header.layers != 0 || header.supercompression_scheme != 0 {
        Some(Error::Ktx)
    } else if data_end(levels) > u64::MAX {
        Some(Error::Ktx)
    } else if header.faces != 1 && header.faces != 6 {
        Some(Error::Ktx)
    } else if header.levels > MAX_LEVELS {
        Some(Error::Ktx)
    } else if data_end(levels) > bytes.len() {
        Some(Error::Io)
    } else {
        None
    }
}

/// What loading needs to know of a container: its header, its level index,
/// and the range of bytes that holds the data of all levels.
pub struct KtxLayout {
    pub header: Header,
    pub levels: Vec<LevelIndex>,
    pub data_start: u64,
    pub data_size: u64,
}

fn read_u32(bytes: &[u8], at: usize) -> (value: u32)
    requires
        at + 4 <= bytes@.len(),
    ensures
        value == le_u32(bytes@, at as int),
{
    let b0: u32 = bytes[at] as u32;
    let b1: u32 = bytes[at + 1] as u32;
    let b2: u32 = bytes[at + 2] as u32;
    let b3: u32 = bytes[at + 3] as u32;
    assert((b0 | (b1 << 8) | (b2 << 16) | (b3 << 24)) == b0 + 0x100 * b1 + 0x1_0000 * b2 + 0x100_0000
        * b3) by (bit_vector)
        requires
            b0 < 256,
            b1 < 256,
            b2 < 256,
            b3 < 256,
    ;
    b0 | (b1 << 8) | (b2 << 16) | (b3 << 24)
}

fn read_u64(bytes: &[u8], at: usize) -> (value: u64)
    requires
        at + 8 <= bytes@.len(),
    ensures
        value == le_u64(bytes@, at as int),
{
    let length: usize = bytes.len();
    assert(at + 8 <= length);
    let low: u64 = read_u32(bytes, at) as u64;
    let high: u64 = read_u32(bytes, at + 4) as u64;
    assert((low | (high << 32)) == low + 0x1_0000_0000 * high) by (bit_vector)
        requires
            low <= 0xffff_ffff,
            high <= 0xffff_ffff,
    ;
    low | (high << 32)
}

fn has_signature(bytes: &[u8]) -> (matches: bool)
    requires
        bytes@.len() >= 12,
    ensures
        matches == (bytes@.subrange(0, 12) == ktx_signature()),
{
    let matches = bytes[0] == 0xab && bytes[1] == 0x4b && bytes[2] == 0x54 && bytes[3] == 0x58
        && bytes[4] == 0x20 && bytes[5] == 0x32 && bytes[6] == 0x30 && bytes[7] == 0xbb && bytes[8]
        == 0x0d && bytes[9] == 0x0a && bytes[10] == 0x1a && bytes[11] == 0x0a;
    proof {
        let head = bytes@.subrange(0, 12);
        let signature = ktx_signature();
        if matches {
            assert(head =~= signature);
        } else {
            assert(head[0] == bytes@[0] && head[1] == bytes@[1] && head[2] == bytes@[2] && head[3]
                == bytes@[3] && head[4] == bytes@[4] && head[5] == bytes@[5] && head[6]
                == bytes@[6] && head[7] == bytes@[7] && head[8] == bytes@[8] && head[9]
                == bytes@[9] && head[10] == bytes@[10] && head[11] == bytes@[11]);
        }
    }
    matches
}

fn read_header(bytes: &[u8]) -> (header: Header)
    requires
        bytes@.len() >= HEADER_SIZE,
    ensures
        header == header_of(bytes@),
{
    Header {
        format: read_u32(bytes, 12),
        type_size: read_u32(bytes, 16),
        width: read_u32(bytes, 20),
        height: read_u32(bytes, 24),
        depth: read_u32(bytes, 28),
        layers: read_u32(bytes, 32),
        faces: read_u32(bytes, 36),
        levels: read_u32(bytes, 40),
        supercompression_scheme: read_u32(bytes, 44),
        dfd_byte_offset: read_u32(bytes, 48),
        dfd_byte_length: read_u32(bytes, 52),
        kvd_byte_offset: read_u32(bytes, 56),
        kvd_byte_length: read_u32(bytes, 60),
        sgd_byte_offset: read_u64(bytes, 64),
        sgd_byte_length: read_u64(bytes, 72),
    }
}

/// The byte range that holds the data of all `levels`, as its start and
/// its end, and `None` where a level ends beyond what 64 bits can address.
fn data_range(levels: &Vec<LevelIndex>) -> (range: Option<(u64, u64)>)
    requires
        levels@.len() >= 1,
    ensures
        range is None <==> data_end(levels@) > u64::MAX,
        range matches Some(pair) ==> pair.0 == data_start(levels@) && pair.1 == data_end(levels@)
            && pair.0 <= pair.1,
{
    let first = levels[0];
    proof {
        assert(levels@.take(1).drop_last() =~= Seq::<LevelIndex>::empty());
        assert(levels@.take(1).last() == first);
        assert(data_end(levels@.take(1).drop_last()) == 0);
        assert(data_end(levels@.take(1)) == first.byte_offset + first.byte_length);
        assert(data_start(levels@.take(1)) == first.byte_offset);
    }
    if first.byte_length > u64::MAX - first.byte_offset {
        proof {
            lemma_data_end_grows(levels@, 1);
        }
        return None;
    }
    let mut start: u64 = first.byte_offset;
    let mut end: u64 = first.byte_offset + first.byte_length;
    let mut index: usize = 1;
    while index < levels.len()
        invariant
            1 <= index <= levels@.len(),
            start == data_start(levels@.take(index as int)),
            end == data_end(levels@.take(index as int)),
            start <= end,
        decreases levels@.len() - index,
    {
        let level = levels[index];
        proof {
            assert(levels@.take(index + 1).drop_last() =~= levels@.take(index as int));
            assert(levels@.take(index + 1).last() == level);
        }
        if level.byte_length > u64::MAX - level.byte_offset {
            proof {
                lemma_data_end_grows(levels@, index + 1);
            }
            return None;
        }
        if level.byte_offset < start {
            start = level.byte_offset;
        }
        if level.byte_offset + level.byte_length > end {
            end = level.byte_offset + level.byte_length;
        }
        index = index + 1;
    }
    proof {
        assert(levels@.take(index as int) =~= levels@);
    }
    Some((start, end))
}

proof fn lemma_data_end_grows(levels: Seq<LevelIndex>, upto: int)
    requires
        0 <= upto <= levels.len(),
    ensures
        data_end(levels.take(upto)) <= data_end(levels),
    decreases levels.len() - upto,
{
    if upto < levels.len() {
        assert(levels.take(upto + 1).drop_last() =~= levels.take(upto));
        lemma_data_end_grows(levels, upto + 1);
    } else {
        assert(levels.take(upto) =~= levels);
    }
}

/// Reads the header and the level index of a container and finds where its
/// level data lies. It fails exactly when `ktx_error` names an error, and
/// with that error.
pub fn parse_ktx(bytes: &[u8]) -> (parsed: Result<KtxLayout, Error>)
    ensures
        match parsed {
            Ok(layout) => {
                &&& ktx_error(bytes@) is None
                &&& layout.header == header_of(bytes@)
                &&& layout.levels@ == levels_of(bytes@)
                &&& layout.data_start == data_start(layout.levels@)
                &&& layout.data_start + layout.data_size == data_end(layout.levels@)
                &&& layout.data_start + layout.data_size <= bytes@.len()
            },
            Err(e) => ktx_error(bytes@) == Some(e),
        },
{
    if bytes.len() < HEADER_SIZE {
        return Err(Error::Io);
    }
    if !has_signature(bytes) {
        return Err(Error::Ktx);
    }
    let header = read_header(bytes);
    let count: usize = if header.levels >= 1 {
        header.levels as usize
    } else {
        1
    };
    if count > (bytes.len() - HEADER_SIZE) / LEVEL_INDEX_SIZE {
        return Err(Error::Io);
    }
    let length: usize = bytes.len();
    assert(HEADER_SIZE + LEVEL_INDEX_SIZE * count <= length);
    let mut levels: Vec<LevelIndex> = Vec::new();
    let mut index: usize = 0;
    while index < count
        invariant
            index <= count,
            bytes@.len() == length,
            HEADER_SIZE + LEVEL_INDEX_SIZE * count <= bytes@.len(),
            levels@.len() == index,
            forall|i: int| 0 <= i < index ==> levels@[i] == level_of(bytes@, i),
        decreases count - index,
    {
        let at: usize = HEADER_SIZE + LEVEL_INDEX_SIZE * index;
        levels.push(
            LevelIndex {
                byte_offset: read_u64(bytes, at),
                byte_length: read_u64(bytes, at + 8),
                uncompressed_byte_length: read_u64(bytes, at + 16),
            },
        );
        index = index + 1;
    }
    proof {
        assert(levels@ =~= levels_of(bytes@));
    }
    if header.depth != 0 || header.layers != 0 || header.supercompression_scheme != 0 {
        return Err(Error::Ktx);
    }
    let (start, end) = match data_range(&levels) {
        Some(range) => range,
        None => {
            return Err(Error::Ktx);
        },
    };
    if header.faces != 1 && header.faces != 6 {
        return Err(Error::Ktx);
    }
    if header.levels > MAX_LEVELS {
        return Err(Error::Ktx);
    }
    if end > bytes.len() as u64 {
        return Err(Error::Io);
    }
    Ok(KtxLayout { header, levels, data_start: start, data_size: end - start })
}

/// How many layers each level's copy covers: every face of the one layer.
pub open spec fn copied_layers(header: Header) -> u32 {
    header.faces
}

/// The copy that fills mip level `level` from the staging buffer, which
/// holds the container's level data from `data_start` on.
pub open spec fn level_region(
    header: Header,
    index: LevelIndex,
    level: u32,
    data_start: u64,
) -> BufferImageCopy {
    BufferImageCopy {
        buffer_offset: (index.byte_offset - data_start) as u64,
        image_subresource: color_layers(level, copied_layers(header)),
        image_offset: Offset3D { x: 0, y: 0, z: 0 },
        image_extent: Extent3D {
            width: mip_size(header.width, level),
            height: mip_size(header.height, level),
            depth: mip_size(header.depth, level),
        },
    }
}

/// The copy commands of levels `from` and up, one command per level.
pub open spec fn level_copies(
    image: ImageHandle,
    buffer: BufferHandle,
    header: Header,
    levels: Seq<LevelIndex>,
    data_start: u64,
    from: int,
) -> Seq<CommandView>
    decreases levels.len() - from,
{
    if from < 0 || from >= levels.len() {
        Seq::empty()
    } else {
        seq![
            CommandView::CopyBufferToImage {
                src_buffer: buffer,
                dst_image: image,
                dst_image_layout: IMAGE_LAYOUT_TRANSFER_DST_OPTIMAL,
                regions: seq![level_region(header, levels[from], from as u32, data_start)],
            },
        ] + level_copies(image, buffer, header, levels, data_start, from + 1)
    }
}

/// The commands that fill an image from a container's level data: make
/// the whole image a transfer target, copy each level, and make the whole
/// image readable by fragment shaders.
pub open spec fn ktx_commands(
    image: ImageHandle,
    buffer: BufferHandle,
    header: Header,
    levels: Seq<LevelIndex>,
    data_start: u64,
) -> Seq<CommandView> {
    seq![
        CommandView::PipelineBarrier {
            src_stage_mask: PIPELINE_STAGE_HOST,
            dst_stage_mask: PIPELINE_STAGE_TRANSFER,
            barriers: seq![
                transition(
                    image,
                    ACCESS_NONE,
                    ACCESS_TRANSFER_READ,
                    IMAGE_LAYOUT_UNDEFINED,
                    IMAGE_LAYOUT_TRANSFER_DST_OPTIMAL,
                    color_levels(0, REMAINING_MIP_LEVELS),
                ),
            ],
        },
    ] + level_copies(image, buffer, header, levels, data_start, 0) + seq![
        CommandView::PipelineBarrier {
            src_stage_mask: PIPELINE_STAGE_TRANSFER,
            dst_stage_mask: PIPELINE_STAGE_FRAGMENT_SHADER,
            barriers: seq![
                transition(
                    image,
                    ACCESS_TRANSFER_READ,
                    ACCESS_SHADER_READ,
                    IMAGE_LAYOUT_TRANSFER_DST_OPTIMAL,
                    IMAGE_LAYOUT_SHADER_READ_ONLY_OPTIMAL,
                    color_levels(0, REMAINING_MIP_LEVELS),
                ),
            ],
        },
    ]
}

proof fn lemma_data_start_is_lowest(levels: Seq<LevelIndex>, at: int)
    requires
        0 <= at < levels.len(),
    ensures
        data_start(levels) <= levels[at].byte_offset,
    decreases levels.len(),
{
    if levels.len() > 1 {
        if at < levels.len() - 1 {
            lemma_data_start_is_lowest(levels.drop_last(), at);
        }
    }
}

/// Records the commands that fill `image` from the level data in `buffer`.
pub fn record_ktx_copy(
    recording: &mut CommandBufferRecorder,
    layout: &KtxLayout,
    image: ImageHandle,
    buffer: BufferHandle,
)
    requires
        old(recording).wf(),
        layout.levels@.len() <= MAX_LEVELS,
        layout.data_start == data_start(layout.levels@),
    ensures
        final(recording).wf(),
        final(recording).raw_handle() == old(recording).raw_handle(),
        final(recording)@ == old(recording)@ + ktx_commands(
            image,
            buffer,
            layout.header,
            layout.levels@,
            layout.data_start,
        ),
{
    let to_target = [
        ImageMemoryBarrier {
            src_access_mask: ACCESS_NONE,
            dst_access_mask: ACCESS_TRANSFER_READ,
            old_layout: IMAGE_LAYOUT_UNDEFINED,
            new_layout: IMAGE_LAYOUT_TRANSFER_DST_OPTIMAL,
            image,
            subresource_range: ImageSubresourceRange {
                aspect_mask: IMAGE_ASPECT_COLOR,
                base_mip_level: 0,
                level_count: REMAINING_MIP_LEVELS,
                base_array_layer: 0,
                layer_count: REMAINING_ARRAY_LAYERS,
            },
        },
    ];
    recording.image_transition(PIPELINE_STAGE_HOST, PIPELINE_STAGE_TRANSFER, &to_target);
    let ghost begun = recording@;
    let ghost copies = level_copies(
        image,
        buffer,
        layout.header,
        layout.levels@,
        layout.data_start,
        0,
    );
    let mut level: usize = 0;
    while level < layout.levels.len()
        invariant
            level <= layout.levels@.len(),
            layout.levels@.len() <= MAX_LEVELS,
            layout.data_start == data_start(layout.levels@),
            recording.wf(),
            recording.raw_handle() == old(recording).raw_handle(),
            recording@ + level_copies(
                image,
                buffer,
                layout.header,
                layout.levels@,
                layout.data_start,
                level as int,
            ) == begun + copies,
        decreases layout.levels@.len() - level,
    {
        let index = layout.levels[level];
        proof {
            lemma_data_start_is_lowest(layout.levels@, level as int);
        }
        let region = [
            BufferImageCopy {
                buffer_offset: index.byte_offset - layout.data_start,
                image_subresource: ImageSubresourceLayers {
                    aspect_mask: IMAGE_ASPECT_COLOR,
                    mip_level: level as u32,
                    base_array_layer: 0,
                    layer_count: layout.header.faces,
                },
                image_offset: Offset3D { x: 0, y: 0, z: 0 },
                image_extent: Extent3D {
                    width: mip_dimension(layout.header.width, level as u32),
                    height: mip_dimension(layout.header.height, level as u32),
                    depth: mip_dimension(layout.header.depth, level as u32),
                },
            },
        ];
        let ghost before = recording@;
        recording.copy_buffer_to_image(buffer, image, IMAGE_LAYOUT_TRANSFER_DST_OPTIMAL, &region);
        proof {
            assert(region@ =~= seq![
                level_region(layout.header, layout.levels@[level as int], level as u32, layout.data_start),
            ]);
            let rest = level_copies(
                image,
                buffer,
                layout.header,
                layout.levels@,
                layout.data_start,
                level + 1,
            );
            assert(before + level_copies(
                image,
                buffer,
                layout.header,
                layout.levels@,
                layout.data_start,
                level as int,
            ) =~= recording@ + rest);
        }
        level = level + 1;
    }
    let to_shader = [
        ImageMemoryBarrier {
            src_access_mask: ACCESS_TRANSFER_READ,
            dst_access_mask: ACCESS_SHADER_READ,
            old_layout: IMAGE_LAYOUT_TRANSFER_DST_OPTIMAL,
            new_layout: IMAGE_LAYOUT_SHADER_READ_ONLY_OPTIMAL,
            image,
            subresource_range: ImageSubresourceRange {
                aspect_mask: IMAGE_ASPECT_COLOR,
                base_mip_level: 0,
                level_count: REMAINING_MIP_LEVELS,
                base_array_layer: 0,
                layer_count: REMAINING_ARRAY_LAYERS,
            },
        },
    ];
    let ghost copied = recording@;
    recording.image_transition(PIPELINE_STAGE_TRANSFER, PIPELINE_STAGE_FRAGMENT_SHADER, &to_shader);
    proof {
        assert(to_target@ =~= seq![to_target@[0]]);
        assert(to_shader@ =~= seq![to_shader@[0]]);
        assert(copied + Seq::<CommandView>::empty() =~= copied);
        assert(recording@ =~= old(recording)@ + ktx_commands(
            image,
            buffer,
            layout.header,
            layout.levels@,
            layout.data_start,
        ));
    }
}

/// The kind of view a container's texture gets: a cube view for six faces,
/// a plain two-dimensional view otherwise.
pub open spec fn ktx_view_type(header: Header) -> i32 {
    if header.faces == 6 {
        IMAGE_VIEW_TYPE_CUBE
    } else {
        IMAGE_VIEW_TYPE_2D
    }
}

/// The parameters of the image a container is loaded into.
pub open spec fn ktx_image_info(header: Header) -> crate::device::types::ImageInfo {
    if header.faces == 6 {
        image_info_cube(
            header.width,
            header.height,
            header.levels,
            header.format as i32,
            IMAGE_USAGE_SAMPLED | IMAGE_USAGE_TRANSFER_DST,
        )
    } else {
        image_info_2d(
            header.width,
            header.height,
            header.levels,
            header.format as i32,
            SAMPLE_COUNT_1,
            IMAGE_USAGE_SAMPLED | IMAGE_USAGE_TRANSFER_DST,
        )
    }
}

/// Whether `after` is `before` with the three requests that fill `image`
/// from the container `bytes`: the container's level data stored at the
/// start of a memory block, the commands that copy each level from a
/// buffer into the image, and the wait for those commands.
pub open spec fn filled_from_container(
    before: Seq<Request>,
    after: Seq<Request>,
    image: ImageHandle,
    bytes: Seq<u8>,
) -> bool {
    &&& after.len() == before.len() + 3
    &&& extends(before, after, 3)
    &&& after[before.len() as int + 2] == Request::Wait
    &&& stores(
        after[before.len() as int],
        0,
        bytes.subrange(data_start(levels_of(bytes)), data_end(levels_of(bytes))),
    )
    &&& exists|staging: BufferHandle|
        after[before.len() as int + 1] == (Request::Submit {
            commands: #[trigger] ktx_commands(
                image,
                staging,
                header_of(bytes),
                levels_of(bytes),
                data_start(levels_of(bytes)) as u64,
            ),
            wait: None,
        })
}

/// Why a container cannot become a texture, and `None` for one that can:
/// what `ktx_error` faults, and a format code beyond the codes the GPU
/// interface has, which makes an unsupported container.
pub open spec fn ktx_fault(bytes: Seq<u8>) -> Option<Error> {
    if ktx_error(bytes) is Some {
        ktx_error(bytes)
    } else if header_of(bytes).format > i32::MAX {
        Some(Error::Ktx)
    } else {
        None
    }
}

/// Loads a texture from the bytes of a texture container: the level data
/// goes through a staging buffer into a new image, level by level. A
/// container with a fault is refused with that fault before the device is
/// asked for anything; every other error comes from creating the image, the
/// staging buffer, the view or the sampler, from storing the level data or
/// from the copy. The staging buffer is gone when the call returns; if any
/// step fails, so is everything else the call made.
pub fn load_ktx<D: Device>(gpu: &mut Gpu<D>, bytes: &[u8]) -> (loaded: Result<Texture, Error>)
    ensures
        final(gpu).memory_types == old(gpu).memory_types,
        ktx_error(bytes@) matches Some(e) ==> loaded == Err::<Texture, Error>(e),
        ktx_error(bytes@) is Some ==> final(gpu).same_objects(old(gpu)),
        header_of(bytes@).format > i32::MAX ==> loaded is Err,
        ktx_fault(bytes@) matches Some(e) ==> {
            &&& loaded == Err::<Texture, Error>(e)
            &&& final(gpu).same_objects(old(gpu))
        },
        loaded matches Err(e) ==> ktx_fault(bytes@) == Some(e) || e
            == Error::NoCompatibleMemoryType || e == Error::MapOutOfRange || e is Vk,
        extends(old(gpu).requests(), final(gpu).requests(), 3),
        loaded matches Ok(texture) ==> {
            &&& ktx_fault(bytes@) is None
            &&& filled_from_container(
                old(gpu).requests(),
                final(gpu).requests(),
                texture.image.object.raw_handle(),
                bytes@,
            )
            &&& texture.width == header_of(bytes@).width
            &&& texture.height == header_of(bytes@).height
            &&& texture.image.wf()
            &&& texture.image.object.info == ktx_image_info(header_of(bytes@))
            &&& texture.image_view.info == whole_image_view(
                texture.image.object.raw_handle(),
                ktx_view_type(header_of(bytes@)),
                header_of(bytes@).format as i32,
                IMAGE_ASPECT_COLOR,
            )
            &&& texture.sampler.info == linear_sampler()
        },
        forall|k: ObjectKind| #[trigger]
            final(gpu).live(k) == old(gpu).live(k) + (if loaded is Ok {
                Texture::footprint(k)
            } else {
                0
            }),
{
    let layout = parse_ktx(bytes)?;
    let header = layout.header;
    if header.format > i32::MAX as u32 {
        return Err(Error::Ktx);
    }
    let format: i32 = header.format as i32;
    let usage = IMAGE_USAGE_SAMPLED | IMAGE_USAGE_TRANSFER_DST;
    let object = if header.faces == 6 {
        ImageObject::create_cube(gpu, (header.width, header.height), header.levels, format, usage)
    } else {
        ImageObject::create_2d(
            gpu,
            (header.width, header.height),
            header.levels,
            format,
            SAMPLE_COUNT_1,
            usage,
        )
    }?;
    let staging = match Buffer::create(gpu, layout.data_size, BUFFER_USAGE_TRANSFER_SRC) {
        Ok(staging) => staging,
        Err(e) => {
            object.destroy(gpu);
            return Err(e);
        },
    };
    let length: usize = bytes.len();
    assert(layout.data_start + layout.data_size <= length);
    let data = vstd::slice::slice_subrange(
        bytes,
        layout.data_start as usize,
        (layout.data_start + layout.data_size) as usize,
    );
    match staging.write(gpu, 0, data) {
        Ok(()) => {},
        Err(e) => {
            staging.destroy(gpu);
            object.destroy(gpu);
            return Err(e);
        },
    }
    let image = match Image::create(gpu, object, MemoryTypeMask::any()) {
        Ok(image) => image,
        Err(e) => {
            staging.destroy(gpu);
            return Err(e);
        },
    };
    let uploaded = match CommandBuffer::create(gpu) {
        Ok(mut recording) => {
            record_ktx_copy(
                &mut recording,
                &layout,
                image.object.as_raw(),
                AsRawHandle::<BufferHandle>::as_raw(&staging),
            );
            match recording.end(gpu) {
                Ok(closed) => closed.submit(gpu),
                Err(e) => Err(e),
            }
        },
        Err(e) => Err(e),
    };
    staging.destroy(gpu);
    match uploaded {
        Ok(()) => {},
        Err(e) => {
            image.destroy(gpu);
            return Err(e);
        },
    }
    let view_type = if header.faces == 6 {
        IMAGE_VIEW_TYPE_CUBE
    } else {
        IMAGE_VIEW_TYPE_2D
    };
    let image_view = match ImageView::create(
        gpu,
        image.object.as_raw(),
        view_type,
        format,
        IMAGE_ASPECT_COLOR,
    ) {
        Ok(view) => view,
        Err(e) => {
            image.destroy(gpu);
            return Err(e);
        },
    };
    let sampler = match Sampler::linear(gpu) {
        Ok(sampler) => sampler,
        Err(e) => {
            image_view.destroy(gpu);
            image.destroy(gpu);
            return Err(e);
        },
    };
    Ok(Texture { width: header.width, height: header.height, image, image_view, sampler })
}

} // verus!
