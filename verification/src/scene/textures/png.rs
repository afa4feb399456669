use vstd::prelude::*;
use crate::device::backend::Device;
use crate::device::buffer::{Buffer, BufferHandle};
use crate::device::image::spec_mip_levels;
use crate::device::raw_handle::{extends, AsRawHandle, Gpu, ObjectKind};
use crate::device::sampler::linear_sampler;
use crate::device::types::{BUFFER_USAGE_TRANSFER_SRC, FORMAT_R8G8B8A8_SRGB, FORMAT_R8G8B8A8_UNORM};
use crate::error::Error;
use crate::resources::texture::{filled_with, Texture, MAX_TEXTURE_DIMENSION};

verus! {

/// The decoder's error type; nothing is read out of it.
#[verifier::external_type_specification]
#[verifier::external_body]
pub struct ExDecodingError(png::DecodingError);

/// How the samples of a decoded picture are laid out.
#[derive(Clone, Copy, PartialEq, Eq, Structural, Debug)]
pub enum ColorType {
    Grayscale,
    Rgb,
    Indexed,
    GrayscaleAlpha,
    Rgba,
}

/// A decoded picture: its rows from top to bottom, tightly packed.
pub struct DecodedPng {
    pub width: u32,
    pub height: u32,
    pub color_type: ColorType,
    pub bits_per_sample: u8,
    pub data: Vec<u8>,
}

/// A decoded picture as a mathematical value.
pub struct Picture {
    pub width: u32,
    pub height: u32,
    pub color_type: ColorType,
    pub bits_per_sample: u8,
    pub data: Seq<u8>,
}

impl View for DecodedPng {
    type V = Picture;

    open spec fn view(&self) -> Picture {
        Picture {
            width: self.width,
            height: self.height,
            color_type: self.color_type,
            bits_per_sample: self.bits_per_sample,
            data: self.data@,
        }
    }
}

/// The first frame that the decoder finds in the bytes of a picture file,
/// and `None` where it finds none.
pub uninterp spec fn png_decoded(bytes: Seq<u8>) -> Option<Picture>;

/// Decodes the first frame of a picture file with the `png` crate:
/// `Decoder::new` on the bytes, `read_info`, then `next_frame` into a
/// buffer of `output_buffer_size` bytes. The contract only gives the
/// outcome a name; it claims nothing of what a picture looks like.
#[verifier::external_body]
fn decode_png(bytes: &[u8]) -> (decoded: core::result::Result<DecodedPng, png::DecodingError>)
    ensures
        decoded is Ok <==> png_decoded(bytes@) is Some,
        decoded matches Ok(picture) ==> png_decoded(bytes@) == Some(picture@),
{
    let (info, mut reader) = png::Decoder::new(bytes).read_info()?;
    let mut data = vec![0u8; reader.output_buffer_size()];
    reader.next_frame(&mut data)?;
    let color_type = match info.color_type {
        png::ColorType::Grayscale => ColorType::Grayscale,
        png::ColorType::RGB => ColorType::Rgb,
        png::ColorType::Indexed => ColorType::Indexed,
        png::ColorType::GrayscaleAlpha => ColorType::GrayscaleAlpha,
        png::ColorType::RGBA => ColorType::Rgba,
    };
    let bits_per_sample = info.bit_depth as u8;
    Ok(DecodedPng { width: info.width, height: info.height, color_type, bits_per_sample, data })
}

/// Tightly packed RGBA texels made from tightly packed RGB texels: each
/// texel keeps its three samples and gets full opacity.
pub open spec fn expanded(rgb: Seq<u8>) -> Seq<u8> {
    Seq::new(
        4 * (rgb.len() / 3),
        |i: int|
            if i % 4 == 3 {
                0xffu8
            } else {
                rgb[3 * (i / 4) + i % 4]
            },
    )
}

/// The number of texels of a `width` by `height` picture.
fn texel_count(width: u32, height: u32) -> (count: u64)
    ensures
        count == width * height,
        3 * width * height == 3 * count,
        4 * width * height == 4 * count,
{
    assert(width * height <= 0xffff_ffff * 0xffff_ffff && 3 * width * height == 3 * (width
        * height) && 4 * width * height == 4 * (width * height)) by (nonlinear_arith)
        requires
            width <= 0xffff_ffff,
            height <= 0xffff_ffff,
    ;
    width as u64 * height as u64
}

/// Expands the RGB texels of a `width` by `height` picture to RGBA. The
/// data must hold exactly three bytes per texel, and the result must fit
/// the machine's sizes.
pub fn expand_rgb(rgb: &[u8], width: u32, height: u32) -> (rgba: Result<Vec<u8>, Error>)
    ensures
        rgb@.len() != 3 * width * height ==> rgba == Err::<Vec<u8>, Error>(Error::Png),
        rgb@.len() == 3 * width * height && 4 * width * height > usize::MAX ==> rgba == Err::<
            Vec<u8>,
            Error,
        >(Error::TooLarge),
        rgb@.len() == 3 * width * height && 4 * width * height <= usize::MAX ==> rgba is Ok,
        rgba matches Ok(texels) ==> texels@ == expanded(rgb@) && texels@.len() == 4 * width
            * height,
{
    let texel_count: u64 = texel_count(width, height);
    if rgb.len() as u128 != 3 * texel_count as u128 {
        return Err(Error::Png);
    }
    if 4 * texel_count as u128 > usize::MAX as u128 {
        return Err(Error::TooLarge);
    }
    let texels: usize = texel_count as usize;
    let mut rgba: Vec<u8> = Vec::new();
    let mut index: usize = 0;
    while index < texels
        invariant
            index <= texels,
            rgb@.len() == 3 * texels,
            4 * texels <= usize::MAX,
            rgba@.len() == 4 * index,
            forall|i: int|
                0 <= i < 4 * index ==> #[trigger] rgba@[i] == (if i % 4 == 3 {
                    0xffu8
                } else {
                    rgb@[3 * (i / 4) + i % 4]
                }),
        decreases texels - index,
    {
        rgba.push(rgb[3 * index]);
        rgba.push(rgb[3 * index + 1]);
        rgba.push(rgb[3 * index + 2]);
        rgba.push(0xff);
        index = index + 1;
    }
    proof {
        assert(rgba@ =~= expanded(rgb@));
    }
    Ok(rgba)
}

/// The texel format of a picture's texture: sRGB where the picture holds
/// sRGB colors, plain normalized bytes otherwise.
pub open spec fn picture_format(srgb: bool) -> i32 {
    if srgb {
        FORMAT_R8G8B8A8_SRGB
    } else {
        FORMAT_R8G8B8A8_UNORM
    }
}

/// Whether a decoded picture can become a texture: it has texels, it is no
/// wider or higher than a texture may be, its samples are bytes, and it
/// holds exactly three (RGB) or four (RGBA) samples per texel.
pub open spec fn uploadable(picture: Picture) -> bool {
    &&& 1 <= picture.width <= MAX_TEXTURE_DIMENSION
    &&& 1 <= picture.height <= MAX_TEXTURE_DIMENSION
    &&& picture.bits_per_sample == 8
    &&& 4 * picture.width * picture.height <= usize::MAX
    &&& match picture.color_type {
        ColorType::Rgb => picture.data.len() == 3 * picture.width * picture.height,
        ColorType::Rgba => picture.data.len() == 4 * picture.width * picture.height,
        _ => false,
    }
}

/// Why a decoded picture cannot become a texture, and `None` for one that
/// can: a picture without texels, or wider or higher than a texture may
/// be, is too large; samples that are not bytes, a layout other than RGB
/// or RGBA, and data of the wrong length make an unsupported picture; RGB
/// texels whose expansion would not fit the machine's sizes are too large.
pub open spec fn picture_fault(picture: Picture) -> Option<Error> {
    if !(1 <= picture.width <= MAX_TEXTURE_DIMENSION && 1 <= picture.height
        <= MAX_TEXTURE_DIMENSION) {
        Some(Error::TooLarge)
    } else if picture.bits_per_sample != 8 {
        Some(Error::Png)
    } else {
        match picture.color_type {
            ColorType::Rgb => if picture.data.len() != 3 * picture.width * picture.height {
                Some(Error::Png)
            } else if 4 * picture.width * picture.height > usize::MAX {
                Some(Error::TooLarge)
            } else {
                None
            },
            ColorType::Rgba => if picture.data.len() != 4 * picture.width * picture.height {
                Some(Error::Png)
            } else if 4 * picture.width * picture.height > usize::MAX {
                Some(Error::TooLarge)
            } else {
                None
            },
            _ => Some(Error::Png),
        }
    }
}

/// Why the bytes of a picture file cannot become a texture, and `None` for
/// bytes that can: bytes in which the decoder finds no picture are an
/// unsupported picture; a decoded picture has its own faults.
pub open spec fn png_fault(bytes: Seq<u8>) -> Option<Error> {
    match png_decoded(bytes) {
        None => Some(Error::Png),
        Some(picture) => picture_fault(picture),
    }
}

/// The RGBA texels of an uploadable picture.
pub open spec fn picture_texels(picture: Picture) -> Seq<u8> {
    if picture.color_type == ColorType::Rgb {
        expanded(picture.data)
    } else {
        picture.data
    }
}

/// The RGBA texels of `picture`, or why it cannot become a texture.
pub fn texels_of(picture: DecodedPng) -> (texels: Result<Vec<u8>, Error>)
    ensures
        texels is Ok <==> uploadable(picture@),
        texels matches Ok(rgba) ==> rgba@ == picture_texels(picture@) && rgba@.len() == 4
            * picture.width * picture.height,
        match texels {
            Ok(_) => picture_fault(picture@) is None,
            Err(e) => picture_fault(picture@) == Some(e),
        },
{
    if picture.width < 1 || picture.width > MAX_TEXTURE_DIMENSION || picture.height < 1
        || picture.height > MAX_TEXTURE_DIMENSION {
        return Err(Error::TooLarge);
    }
    if picture.bits_per_sample != 8 {
        return Err(Error::Png);
    }
    match picture.color_type {
        ColorType::Rgb => expand_rgb(picture.data.as_slice(), picture.width, picture.height),
        ColorType::Rgba => {
            let texel_count: u64 = texel_count(picture.width, picture.height);
            if picture.data.len() as u128 != 4 * texel_count as u128 {
                return Err(Error::Png);
            }
            Ok(picture.data)
        },
        _ => Err(Error::Png),
    }
}

/// Makes a texture of a decoded picture: the texels go through a staging
/// buffer into a new texture of the picture's size with a full mip chain.
/// A picture with a fault is refused with that fault before the device is
/// asked for anything; every other error comes from creating the staging
/// buffer or the texture or from the copy. The staging buffer is gone when
/// the call returns; if any step fails, so is everything else the call
/// made.
pub fn texture_from_picture<D: Device>(gpu: &mut Gpu<D>, picture: DecodedPng, srgb: bool) -> (loaded:
    Result<Texture, Error>)
    ensures
        final(gpu).memory_types == old(gpu).memory_types,
        !uploadable(picture@) ==> loaded is Err && final(gpu).requests() == old(gpu).requests(),
        picture_fault(picture@) matches Some(e) ==> {
            &&& loaded == Err::<Texture, Error>(e)
            &&& final(gpu).requests() == old(gpu).requests()
        },
        loaded matches Err(e) ==> picture_fault(picture@) == Some(e) || e
            == Error::NoCompatibleMemoryType || e == Error::MapOutOfRange || e is Vk,
        extends(old(gpu).requests(), final(gpu).requests(), 3),
        loaded matches Ok(texture) ==> {
            &&& picture_fault(picture@) is None
            &&& texture.wf()
            &&& texture.width == picture.width
            &&& texture.height == picture.height
            &&& texture.image.object.info.format == picture_format(srgb)
            &&& texture.image.object.info.mip_levels == spec_mip_levels(
                picture.width,
                picture.height,
            ) as u32
            &&& texture.sampler.info == linear_sampler()
            &&& filled_with(
                old(gpu).requests(),
                final(gpu).requests(),
                &texture,
                picture_texels(picture@),
            )
        },
        forall|k: ObjectKind| #[trigger]
            final(gpu).live(k) == old(gpu).live(k) + (if loaded is Ok {
                Texture::footprint(k)
            } else {
                0
            }),
{
    let width = picture.width;
    let height = picture.height;
    let texels = texels_of(picture)?;
    let staging = Buffer::create_with(gpu, BUFFER_USAGE_TRANSFER_SRC, texels.as_slice())?;
    let format = if srgb {
        FORMAT_R8G8B8A8_SRGB
    } else {
        FORMAT_R8G8B8A8_UNORM
    };
    let texture = match Texture::create(gpu, width, height, format) {
        Ok(texture) => texture,
        Err(e) => {
            staging.destroy(gpu);
            return Err(e);
        },
    };
    let copied = texture.copy_from(gpu, AsRawHandle::<BufferHandle>::as_raw(&staging), 0);
    staging.destroy(gpu);
    match copied {
        Ok(()) => Ok(texture),
        Err(e) => {
            texture.destroy(gpu);
            Err(e)
        },
    }
}

/// Loads a texture from the bytes of a picture file. `srgb` says whether
/// the picture holds sRGB colors.
pub fn load_png<D: Device>(gpu: &mut Gpu<D>, bytes: &[u8], srgb: bool) -> (loaded: Result<
    Texture,
    Error,
>)
    ensures
        final(gpu).memory_types == old(gpu).memory_types,
        png_decoded(bytes@) is None ==> loaded == Err::<Texture, Error>(Error::Png),
        png_decoded(bytes@) matches Some(picture) && !uploadable(picture) ==> loaded is Err,
        png_fault(bytes@) matches Some(e) ==> {
            &&& loaded == Err::<Texture, Error>(e)
            &&& final(gpu).requests() == old(gpu).requests()
        },
        loaded matches Err(e) ==> png_fault(bytes@) == Some(e) || e
            == Error::NoCompatibleMemoryType || e == Error::MapOutOfRange || e is Vk,
        loaded is Ok ==> png_fault(bytes@) is None,
        extends(old(gpu).requests(), final(gpu).requests(), 3),
        loaded matches Ok(texture) ==> {
            &&& png_decoded(bytes@) matches Some(picture)
            &&& texture.wf()
            &&& texture.width == picture.width
            &&& texture.height == picture.height
            &&& texture.image.object.info.format == picture_format(srgb)
            &&& texture.image.object.info.mip_levels == spec_mip_levels(
                picture.width,
                picture.height,
            ) as u32
            &&& texture.sampler.info == linear_sampler()
            &&& filled_with(
                old(gpu).requests(),
                final(gpu).requests(),
                &texture,
                picture_texels(picture),
            )
        },
        forall|k: ObjectKind| #[trigger]
            final(gpu).live(k) == old(gpu).live(k) + (if loaded is Ok {
                Texture::footprint(k)
            } else {
                0
            }),
{
    match decode_png(bytes) {
        Ok(picture) => texture_from_picture(gpu, picture, srgb),
        Err(_) => Err(Error::Png),
    }
}

} // verus!
