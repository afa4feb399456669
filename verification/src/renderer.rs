//! The presentable image chain and the renderer that drives it.

use vstd::prelude::*;
use crate::device::backend::{AcquiredImage, Device};
use crate::device::fence::FenceHandle;
use crate::device::image::{image_info_2d, Image, ImageHandle};
use crate::device::image_view::{whole_image_view, ImageView, ImageViewHandle};
use crate::device::memory::MemoryTypeMask;
use crate::device::raw_handle::{
    many, one, AsRawHandle, FramebufferHandle, Gpu, ObjectKind, Owned, RenderPassHandle, Request,
    SurfaceHandle, SwapchainHandle,
};
use crate::device::semaphore::{Semaphore, SemaphoreHandle};
use crate::device::types::{
    AttachmentDescription, AttachmentReference, FramebufferInfo, RenderPassInfo, SwapchainInfo,
    ATTACHMENT_LOAD_OP_CLEAR, ATTACHMENT_LOAD_OP_DONT_CARE, ATTACHMENT_STORE_OP_DONT_CARE,
    ATTACHMENT_STORE_OP_STORE, COLOR_SPACE_SRGB_NONLINEAR, COMPOSITE_ALPHA_OPAQUE,
    FORMAT_B8G8R8A8_SRGB, FORMAT_D32_SFLOAT, IMAGE_ASPECT_COLOR, IMAGE_ASPECT_DEPTH,
    IMAGE_LAYOUT_COLOR_ATTACHMENT_OPTIMAL, IMAGE_LAYOUT_DEPTH_STENCIL_ATTACHMENT_OPTIMAL,
    IMAGE_LAYOUT_PRESENT_SRC, IMAGE_LAYOUT_UNDEFINED, IMAGE_USAGE_COLOR_ATTACHMENT,
    IMAGE_USAGE_DEPTH_STENCIL_ATTACHMENT, IMAGE_USAGE_TRANSFER_DST, IMAGE_VIEW_TYPE_2D,
    PRESENT_MODE_FIFO,
    RESULT_ERROR_OUT_OF_DATE, RESULT_SUBOPTIMAL, RESULT_SUCCESS, SAMPLE_COUNT_1,
    SURFACE_TRANSFORM_IDENTITY,
};
use crate::error::{Error, VkError};

verus! {

/// The sample count bits that a device can report.
pub const SAMPLE_COUNT_BITS: u32 = 0x7f;

/// Whether `n` is a power of two.
pub open spec fn is_power_of_two(n: u32) -> bool {
    n != 0 && n & ((n - 1) as u32) == 0
}

/// The standard library's `u32::next_power_of_two`: the smallest power of
/// two that is at least `n`. The contract says so for every `n` whose answer
/// fits in 32 bits; larger `n` are left out, as the call may not return for
/// them.
#[verifier::external_body]
fn next_power_of_two(n: u32) -> (power: u32)
    requires
        n <= 0x8000_0000,
    ensures
        is_power_of_two(power),
        power >= n,
        n <= 1 ==> power == 1,
        n > 1 ==> power / 2 < n,
{
    n.next_power_of_two()
}

/// The sample count used for rendering, given the counts a device supports
/// as flag bits: half of the smallest power of two that is at least the
/// supported bits, read as a number. For a device that supports every count
/// up to some highest one, that is the highest count.
pub fn highest_sample_count(sample_counts: u32) -> (samples: u32)
    ensures
        sample_counts & SAMPLE_COUNT_BITS <= 1 ==> samples == 0,
        sample_counts & SAMPLE_COUNT_BITS > 1 ==> {
            &&& is_power_of_two(samples)
            &&& samples < sample_counts & SAMPLE_COUNT_BITS
            &&& sample_counts & SAMPLE_COUNT_BITS <= 2 * samples
        },
        samples <= 64,
{
    let counts: u32 = sample_counts & SAMPLE_COUNT_BITS;
    assert(counts <= 0x7f) by (bit_vector)
        requires
            counts == sample_counts & 0x7f,
    ;
    let power = next_power_of_two(counts);
    assert(power <= 128 && power >> 1 == power / 2 && (power != 1 ==> 2 * (power / 2) == power
        && power / 2 != 0 && (power / 2) & (((power / 2) - 1) as u32) == 0)) by (bit_vector)
        requires
            power != 0 && power & ((power - 1) as u32) == 0,
            power / 2 < 0x80,
    ;
    power >> 1
}

/// The color format of the swapchain and the sample count to render with.
pub fn get_format_and_samples<D: Device>(gpu: &mut Gpu<D>, surface: SurfaceHandle) -> (chosen: Result<
    (i32, u32),
    Error,
>)
    ensures
        final(gpu).same_objects(old(gpu)),
        chosen matches Err(e) ==> e is Vk,
        chosen matches Ok(pair) ==> pair.0 == FORMAT_B8G8R8A8_SRGB && pair.1 <= 64,
{
    let format = FORMAT_B8G8R8A8_SRGB;
    match gpu.device.color_attachment_sample_counts(format) {
        Ok(counts) => Ok((format, highest_sample_count(counts))),
        Err(code) => Err(Error::Vk(code)),
    }
}

/// The render pass of the renderer: a multisampled color attachment that
/// is cleared and kept, a multisampled depth attachment that is cleared,
/// and a single-sampled attachment that the color is resolved into and that
/// is then presented.
pub open spec fn render_pass_info(color_format: i32, samples: u32) -> RenderPassInfo {
    RenderPassInfo {
        color: AttachmentDescription {
            format: color_format,
            samples,
            load_op: ATTACHMENT_LOAD_OP_CLEAR,
            store_op: ATTACHMENT_STORE_OP_STORE,
            initial_layout: IMAGE_LAYOUT_UNDEFINED,
            final_layout: IMAGE_LAYOUT_COLOR_ATTACHMENT_OPTIMAL,
        },
        depth: AttachmentDescription {
            format: FORMAT_D32_SFLOAT,
            samples,
            load_op: ATTACHMENT_LOAD_OP_CLEAR,
            store_op: ATTACHMENT_STORE_OP_DONT_CARE,
            initial_layout: IMAGE_LAYOUT_UNDEFINED,
            final_layout: IMAGE_LAYOUT_DEPTH_STENCIL_ATTACHMENT_OPTIMAL,
        },
        resolve: AttachmentDescription {
            format: color_format,
            samples: SAMPLE_COUNT_1,
            load_op: ATTACHMENT_LOAD_OP_DONT_CARE,
            store_op: ATTACHMENT_STORE_OP_STORE,
            initial_layout: IMAGE_LAYOUT_UNDEFINED,
            final_layout: IMAGE_LAYOUT_PRESENT_SRC,
        },
        color_reference: AttachmentReference {
            attachment: 0,
            layout: IMAGE_LAYOUT_COLOR_ATTACHMENT_OPTIMAL,
        },
        depth_reference: AttachmentReference {
            attachment: 1,
            layout: IMAGE_LAYOUT_DEPTH_STENCIL_ATTACHMENT_OPTIMAL,
        },
        resolve_reference: AttachmentReference {
            attachment: 2,
            layout: IMAGE_LAYOUT_COLOR_ATTACHMENT_OPTIMAL,
        },
    }
}

/// The parameters of the renderer's swapchain: at least two images of
/// `color_format` in sRGB, presented in arrival order, made for `surface`
/// in place of `old_swapchain`.
pub open spec fn swapchain_info(
    old_swapchain: SwapchainHandle,
    surface: SurfaceHandle,
    width: u32,
    height: u32,
    color_format: i32,
) -> SwapchainInfo {
    SwapchainInfo {
        surface,
        min_image_count: 2,
        image_format: color_format,
        image_color_space: COLOR_SPACE_SRGB_NONLINEAR,
        width,
        height,
        image_array_layers: 1,
        image_usage: IMAGE_USAGE_COLOR_ATTACHMENT | IMAGE_USAGE_TRANSFER_DST,
        pre_transform: SURFACE_TRANSFORM_IDENTITY,
        composite_alpha: COMPOSITE_ALPHA_OPAQUE,
        present_mode: PRESENT_MODE_FIFO,
        old_swapchain,
    }
}

/// What to do after asking for an image or presenting one.
#[derive(Clone, Copy, PartialEq, Eq, Structural, Debug)]
pub enum SwapchainVerdict {
    /// The swapchain still fits the surface.
    Current,
    /// The swapchain no longer fits the surface and has to be rebuilt.
    Stale,
    /// The device failed.
    Failed(VkError),
}

/// Whether a result code says that a swapchain no longer fits its surface.
pub open spec fn is_stale(code: i32) -> bool {
    code == RESULT_SUBOPTIMAL || code == RESULT_ERROR_OUT_OF_DATE
}

/// Whether the answer to a request for the next image says that the
/// swapchain has to be rebuilt before an image can be had.
pub open spec fn asks_for_rebuild(answer: Result<SwapchainItem, SwapchainVerdict>) -> bool {
    answer matches Err(verdict) && !(verdict is Failed)
}

/// Reads a result code of the presentation engine: success means the
/// swapchain is current, a code that signals staleness means it has to be
/// rebuilt, and every other code is a failure.
pub fn judge(code: i32) -> (verdict: SwapchainVerdict)
    ensures
        verdict == (if code == RESULT_SUCCESS {
            SwapchainVerdict::Current
        } else if is_stale(code) {
            SwapchainVerdict::Stale
        } else {
            SwapchainVerdict::Failed(VkError(code))
        }),
{
    if code == RESULT_SUCCESS {
        SwapchainVerdict::Current
    } else if code == RESULT_SUBOPTIMAL || code == RESULT_ERROR_OUT_OF_DATE {
        SwapchainVerdict::Stale
    } else {
        SwapchainVerdict::Failed(VkError(code))
    }
}

/// The multisampled color image and the depth image that every frame is
/// drawn into, each with its view.
pub struct RenderTargets {
    pub depth_image: Image,
    pub depth_image_view: ImageView,
    pub color_image: Image,
    pub color_image_view: ImageView,
}

impl RenderTargets {
    /// What the render targets add to the live objects of kind `kind`.
    pub open spec fn footprint(kind: ObjectKind) -> int {
        2 * Image::footprint(kind) + 2 * one(ObjectKind::ImageView, kind)
    }

    /// Creates both images, in any memory the device allows, and their
    /// views. If any step fails, what the earlier steps made is destroyed.
    pub fn create<D: Device>(gpu: &mut Gpu<D>, size: (u32, u32), color_format: i32, samples: u32) -> (created:
        Result<Self, Error>)
        ensures
            final(gpu).memory_types == old(gpu).memory_types,
            final(gpu).requests() == old(gpu).requests(),
            created matches Err(e) ==> e == Error::NoCompatibleMemoryType || e is Vk,
            created matches Ok(targets) ==> {
                &&& targets.depth_image.wf()
                &&& targets.color_image.wf()
                &&& targets.depth_image.object.info == image_info_2d(
                    size.0,
                    size.1,
                    1,
                    FORMAT_D32_SFLOAT,
                    samples,
                    IMAGE_USAGE_DEPTH_STENCIL_ATTACHMENT,
                )
                &&& targets.color_image.object.info == image_info_2d(
                    size.0,
                    size.1,
                    1,
                    color_format,
                    samples,
                    IMAGE_USAGE_COLOR_ATTACHMENT,
                )
                &&& targets.depth_image_view.info == whole_image_view(
                    targets.depth_image.object.raw_handle(),
                    IMAGE_VIEW_TYPE_2D,
                    FORMAT_D32_SFLOAT,
                    IMAGE_ASPECT_DEPTH,
                )
                &&& targets.color_image_view.info == whole_image_view(
                    targets.color_image.object.raw_handle(),
                    IMAGE_VIEW_TYPE_2D,
                    color_format,
                    IMAGE_ASPECT_COLOR,
                )
            },
            forall|k: ObjectKind| #[trigger]
                final(gpu).live(k) == old(gpu).live(k) + (if created is Ok {
                    Self::footprint(k)
                } else {
                    0
                }),
    {
        let depth_image = Image::create_2d(
            gpu,
            size,
            1,
            FORMAT_D32_SFLOAT,
            samples,
            IMAGE_USAGE_DEPTH_STENCIL_ATTACHMENT,
            MemoryTypeMask::any(),
        )?;
        let depth_image_view = match ImageView::create_2d(
            gpu,
            depth_image.object.as_raw(),
            FORMAT_D32_SFLOAT,
            IMAGE_ASPECT_DEPTH,
        ) {
            Ok(view) => view,
            Err(e) => {
                depth_image.destroy(gpu);
                return Err(e);
            },
        };
        let color_image = match Image::create_2d(
            gpu,
            size,
            1,
            color_format,
            samples,
            IMAGE_USAGE_COLOR_ATTACHMENT,
            MemoryTypeMask::any(),
        ) {
            Ok(image) => image,
            Err(e) => {
                depth_image_view.destroy(gpu);
                depth_image.destroy(gpu);
                return Err(e);
            },
        };
        let color_image_view = match ImageView::create_2d(
            gpu,
            color_image.object.as_raw(),
            color_format,
            IMAGE_ASPECT_COLOR,
        ) {
            Ok(view) => view,
            Err(e) => {
                color_image.destroy(gpu);
                depth_image_view.destroy(gpu);
                depth_image.destroy(gpu);
                return Err(e);
            },
        };
        Ok(Self { depth_image, depth_image_view, color_image, color_image_view })
    }

    /// Destroys both views and both images.
    pub fn destroy<D: Device>(self, gpu: &mut Gpu<D>)
        ensures
            final(gpu).memory_types == old(gpu).memory_types,
            final(gpu).requests() == old(gpu).requests(),
            forall|k: ObjectKind| #[trigger]
                final(gpu).live(k) == old(gpu).live(k) - Self::footprint(k),
    {
        self.color_image_view.destroy(gpu);
        self.color_image.destroy(gpu);
        self.depth_image_view.destroy(gpu);
        self.depth_image.destroy(gpu);
    }
}

fn destroy_views<D: Device>(gpu: &mut Gpu<D>, views: Vec<ImageView>)
    ensures
        final(gpu).memory_types == old(gpu).memory_types,
        final(gpu).requests() == old(gpu).requests(),
        forall|k: ObjectKind| #[trigger]
            final(gpu).live(k) == old(gpu).live(k) - many(
                views@.len() as int,
                ObjectKind::ImageView,
                k,
            ),
{
    let mut views = views;
    let ghost total = views@.len();
    while views.len() > 0
        invariant
            gpu.memory_types == old(gpu).memory_types,
            gpu.requests() == old(gpu).requests(),
            views@.len() <= total,
            forall|k: ObjectKind| #[trigger]
                gpu.live(k) == old(gpu).live(k) - many(
                    total - views@.len(),
                    ObjectKind::ImageView,
                    k,
                ),
        decreases views@.len(),
    {
        match views.pop() {
            Some(view) => view.destroy(gpu),
            None => {},
        }
    }
}

/// An owned framebuffer with the parameters it was created from.
pub struct Framebuffer {
    pub owner: Owned<FramebufferHandle>,
    pub info: FramebufferInfo,
}

fn destroy_framebuffers<D: Device>(gpu: &mut Gpu<D>, framebuffers: Vec<Framebuffer>)
    ensures
        final(gpu).memory_types == old(gpu).memory_types,
        final(gpu).requests() == old(gpu).requests(),
        forall|k: ObjectKind| #[trigger]
            final(gpu).live(k) == old(gpu).live(k) - many(
                framebuffers@.len() as int,
                ObjectKind::Framebuffer,
                k,
            ),
{
    let mut framebuffers = framebuffers;
    let ghost total = framebuffers@.len();
    while framebuffers.len() > 0
        invariant
            gpu.memory_types == old(gpu).memory_types,
            gpu.requests() == old(gpu).requests(),
            framebuffers@.len() <= total,
            forall|k: ObjectKind| #[trigger]
                gpu.live(k) == old(gpu).live(k) - many(
                    total - framebuffers@.len(),
                    ObjectKind::Framebuffer,
                    k,
                ),
        decreases framebuffers@.len(),
    {
        match framebuffers.pop() {
            Some(framebuffer) => framebuffer.owner.destroy(gpu),
            None => {},
        }
    }
}

/// One color view per swapchain image, in the images' order. If a view
/// cannot be made, the views made before it are destroyed.
fn create_views<D: Device>(gpu: &mut Gpu<D>, images: &Vec<ImageHandle>, color_format: i32) -> (created:
    Result<Vec<ImageView>, Error>)
    ensures
        final(gpu).memory_types == old(gpu).memory_types,
        final(gpu).requests() == old(gpu).requests(),
        created matches Err(e) ==> e is Vk,
        created matches Ok(views) ==> {
            &&& views@.len() == images@.len()
            &&& forall|i: int|
                0 <= i < views@.len() ==> (#[trigger] views@[i]).info == whole_image_view(
                    images@[i],
                    IMAGE_VIEW_TYPE_2D,
                    color_format,
                    IMAGE_ASPECT_COLOR,
                )
        },
        forall|k: ObjectKind| #[trigger]
            final(gpu).live(k) == old(gpu).live(k) + (if created is Ok {
                many(images@.len() as int, ObjectKind::ImageView, k)
            } else {
                0
            }),
{
    let mut views: Vec<ImageView> = Vec::new();
    let mut index: usize = 0;
    while index < images.len()
        invariant
            gpu.memory_types == old(gpu).memory_types,
            gpu.requests() == old(gpu).requests(),
            index <= images@.len(),
            views@.len() == index,
            forall|i: int|
                0 <= i < views@.len() ==> (#[trigger] views@[i]).info == whole_image_view(
                    images@[i],
                    IMAGE_VIEW_TYPE_2D,
                    color_format,
                    IMAGE_ASPECT_COLOR,
                ),
            forall|k: ObjectKind| #[trigger]
                gpu.live(k) == old(gpu).live(k) + many(index as int, ObjectKind::ImageView, k),
        decreases images@.len() - index,
    {
        match ImageView::create_2d(gpu, images[index], color_format, IMAGE_ASPECT_COLOR) {
            Ok(view) => views.push(view),
            Err(e) => {
                destroy_views(gpu, views);
                return Err(e);
            },
        }
        index = index + 1;
    }
    Ok(views)
}

/// The parameters of the framebuffer of one swapchain image: it draws into
/// the shared color and depth targets and resolves into the image's view.
pub open spec fn framebuffer_info(
    render_pass: RenderPassHandle,
    color: ImageViewHandle,
    depth: ImageViewHandle,
    resolve: ImageViewHandle,
    size: (u32, u32),
) -> FramebufferInfo {
    FramebufferInfo { render_pass, color, depth, resolve, width: size.0, height: size.1, layers: 1 }
}

/// One framebuffer per swapchain image view, in the views' order: each
/// draws into the shared color and depth targets and resolves into its own
/// view. If one cannot be made, those made before it are destroyed.
fn create_framebuffers<D: Device>(
    gpu: &mut Gpu<D>,
    render_pass: RenderPassHandle,
    color: ImageViewHandle,
    depth: ImageViewHandle,
    views: &Vec<ImageView>,
    size: (u32, u32),
) -> (created: Result<Vec<Framebuffer>, Error>)
    ensures
        final(gpu).memory_types == old(gpu).memory_types,
        final(gpu).requests() == old(gpu).requests(),
        created matches Err(e) ==> e is Vk,
        created matches Ok(framebuffers) ==> {
            &&& framebuffers@.len() == views@.len()
            &&& forall|i: int|
                0 <= i < framebuffers@.len() ==> (#[trigger] framebuffers@[i]).info
                    == framebuffer_info(render_pass, color, depth, views@[i].raw_handle(), size)
        },
        forall|k: ObjectKind| #[trigger]
            final(gpu).live(k) == old(gpu).live(k) + (if created is Ok {
                many(views@.len() as int, ObjectKind::Framebuffer, k)
            } else {
                0
            }),
{
    let mut framebuffers: Vec<Framebuffer> = Vec::new();
    let mut index: usize = 0;
    while index < views.len()
        invariant
            gpu.memory_types == old(gpu).memory_types,
            gpu.requests() == old(gpu).requests(),
            index <= views@.len(),
            framebuffers@.len() == index,
            forall|i: int|
                0 <= i < framebuffers@.len() ==> (#[trigger] framebuffers@[i]).info
                    == framebuffer_info(render_pass, color, depth, views@[i].raw_handle(), size),
            forall|k: ObjectKind| #[trigger]
                gpu.live(k) == old(gpu).live(k) + many(index as int, ObjectKind::Framebuffer, k),
        decreases views@.len() - index,
    {
        let info = FramebufferInfo {
            render_pass,
            color,
            depth,
            resolve: views[index].as_raw(),
            width: size.0,
            height: size.1,
            layers: 1,
        };
        match Owned::<FramebufferHandle>::create(gpu, &info) {
            Ok(owner) => framebuffers.push(Framebuffer { owner, info }),
            Err(e) => {
                destroy_framebuffers(gpu, framebuffers);
                return Err(e);
            },
        }
        index = index + 1;
    }
    Ok(framebuffers)
}

/// The presentable images of a surface, each with a view and a
/// framebuffer, and the render targets they share. A swapchain is never
/// patched: it is built whole and replaced whole.
pub struct Swapchain {
    swapchain: Owned<SwapchainHandle>,
    info: SwapchainInfo,
    targets: RenderTargets,
    images: Vec<ImageHandle>,
    image_views: Vec<ImageView>,
    framebuffers: Vec<Framebuffer>,
}

/// One acquired image of a swapchain with what belongs to it.
#[derive(Clone, Copy, PartialEq, Eq, Structural, Debug)]
pub struct SwapchainItem {
    pub index: u32,
    pub image: ImageHandle,
    pub image_view: ImageViewHandle,
    pub framebuffer: FramebufferHandle,
}

impl AsRawHandle<SwapchainHandle> for Swapchain {
    closed spec fn raw_handle(&self) -> SwapchainHandle {
        self.swapchain.raw_handle()
    }

    fn as_raw(&self) -> (raw: SwapchainHandle) {
        self.swapchain.as_raw()
    }
}

impl Swapchain {
    /// The parameters the swapchain was created from.
    pub closed spec fn info(&self) -> SwapchainInfo {
        self.info
    }

    /// The presentable images, in the device's order.
    pub closed spec fn images(&self) -> Seq<ImageHandle> {
        self.images@
    }

    /// The view of image `index`.
    pub closed spec fn image_view(&self, index: int) -> ImageViewHandle {
        self.image_views@[index].raw_handle()
    }

    /// The framebuffer of image `index`.
    pub closed spec fn framebuffer(&self, index: int) -> FramebufferHandle {
        self.framebuffers@[index].owner.raw_handle()
    }

    /// The parameters of the framebuffer of image `index`.
    pub closed spec fn framebuffer_parameters(&self, index: int) -> FramebufferInfo {
        self.framebuffers@[index].info
    }

    /// The view of the shared color target.
    pub closed spec fn color_view(&self) -> ImageViewHandle {
        self.targets.color_image_view.raw_handle()
    }

    /// The view of the shared depth target.
    pub closed spec fn depth_view(&self) -> ImageViewHandle {
        self.targets.depth_image_view.raw_handle()
    }

    /// Every image has its view and its framebuffer, and each framebuffer
    /// draws into the shared targets and resolves into its image's view.
    pub closed spec fn wf(&self) -> bool {
        &&& self.image_views@.len() == self.images@.len()
        &&& self.framebuffers@.len() == self.images@.len()
        &&& forall|i: int|
            0 <= i < self.image_views@.len() ==> (#[trigger] self.image_views@[i]).info
                == whole_image_view(
                self.images@[i],
                IMAGE_VIEW_TYPE_2D,
                self.info.image_format,
                IMAGE_ASPECT_COLOR,
            )
        &&& forall|i: int|
            0 <= i < self.framebuffers@.len() ==> {
                &&& (#[trigger] self.framebuffers@[i]).info.color
                    == self.targets.color_image_view.raw_handle()
                &&& self.framebuffers@[i].info.depth == self.targets.depth_image_view.raw_handle()
                &&& self.framebuffers@[i].info.resolve == self.image_views@[i].raw_handle()
                &&& self.framebuffers@[i].info.width == self.info.width
                &&& self.framebuffers@[i].info.height == self.info.height
                &&& self.framebuffers@[i].info.layers == 1
            }
    }

    /// In a well-formed swapchain the framebuffer of each image draws into
    /// the shared targets, resolves into the image's view and has the
    /// swapchain's size.
    pub proof fn lemma_framebuffers(&self, index: int)
        requires
            self.wf(),
            0 <= index < self.images().len(),
        ensures
            self.framebuffer_parameters(index).color == self.color_view(),
            self.framebuffer_parameters(index).depth == self.depth_view(),
            self.framebuffer_parameters(index).resolve == self.image_view(index),
            self.framebuffer_parameters(index).width == self.info().width,
            self.framebuffer_parameters(index).height == self.info().height,
    {
    }

    /// What the swapchain adds to the live objects of kind `kind`: itself,
    /// the render targets, and a view and a framebuffer per image.
    pub open spec fn footprint(&self, kind: ObjectKind) -> int {
        one(ObjectKind::Swapchain, kind) + RenderTargets::footprint(kind) + many(
            self.images().len() as int,
            ObjectKind::ImageView,
            kind,
        ) + many(self.images().len() as int, ObjectKind::Framebuffer, kind)
    }

    /// The number of presentable images.
    pub fn image_count(&self) -> (count: usize)
        ensures
            count == self.images().len(),
    {
        self.images.len()
    }

    /// Builds a swapchain of `size` for `surface`, in place of
    /// `old_swapchain`, with views and framebuffers for `render_pass`. If
    /// any step fails, everything the earlier steps made is destroyed.
    pub fn create<D: Device>(
        gpu: &mut Gpu<D>,
        old_swapchain: SwapchainHandle,
        surface: SurfaceHandle,
        render_pass: RenderPassHandle,
        size: (u32, u32),
        color_format: i32,
        samples: u32,
    ) -> (created: Result<Self, Error>)
        ensures
            final(gpu).memory_types == old(gpu).memory_types,
            final(gpu).requests() == old(gpu).requests(),
            created matches Err(e) ==> e == Error::NoCompatibleMemoryType || e is Vk,
            created matches Ok(swapchain) ==> {
                &&& swapchain.wf()
                &&& swapchain.info() == swapchain_info(
                    old_swapchain,
                    surface,
                    size.0,
                    size.1,
                    color_format,
                )
            },
            forall|k: ObjectKind| #[trigger]
                final(gpu).live(k) == old(gpu).live(k) + (if created is Ok {
                    created->Ok_0.footprint(k)
                } else {
                    0
                }),
    {
        let info = SwapchainInfo {
            surface,
            min_image_count: 2,
            image_format: color_format,
            image_color_space: COLOR_SPACE_SRGB_NONLINEAR,
            width: size.0,
            height: size.1,
            image_array_layers: 1,
            image_usage: IMAGE_USAGE_COLOR_ATTACHMENT | IMAGE_USAGE_TRANSFER_DST,
            pre_transform: SURFACE_TRANSFORM_IDENTITY,
            composite_alpha: COMPOSITE_ALPHA_OPAQUE,
            present_mode: PRESENT_MODE_FIFO,
            old_swapchain,
        };
        let swapchain = Owned::<SwapchainHandle>::create(gpu, &info)?;
        let targets = match RenderTargets::create(gpu, size, color_format, samples) {
            Ok(targets) => targets,
            Err(e) => {
                swapchain.destroy(gpu);
                return Err(e);
            },
        };
        let images = match gpu.device.swapchain_images(swapchain.as_raw()) {
            Ok(images) => images,
            Err(code) => {
                targets.destroy(gpu);
                swapchain.destroy(gpu);
                return Err(Error::Vk(code));
            },
        };
        let image_views = match create_views(gpu, &images, color_format) {
            Ok(views) => views,
            Err(e) => {
                targets.destroy(gpu);
                swapchain.destroy(gpu);
                return Err(e);
            },
        };
        let framebuffers = match create_framebuffers(
            gpu,
            render_pass,
            targets.color_image_view.as_raw(),
            targets.depth_image_view.as_raw(),
            &image_views,
            size,
        ) {
            Ok(framebuffers) => framebuffers,
            Err(e) => {
                destroy_views(gpu, image_views);
                targets.destroy(gpu);
                swapchain.destroy(gpu);
                return Err(e);
            },
        };
        Ok(Self { swapchain, info, targets, images, image_views, framebuffers })
    }

    /// Replaces the swapchain by one built for the new parameters, handing
    /// the old swapchain's handle to the new one. The old images' views and
    /// framebuffers, the old render targets and the old swapchain are
    /// destroyed once the new swapchain stands. If building fails, the old
    /// swapchain stays as it was.
    pub fn update<D: Device>(
        &mut self,
        gpu: &mut Gpu<D>,
        surface: SurfaceHandle,
        render_pass: RenderPassHandle,
        size: (u32, u32),
        color_format: i32,
        samples: u32,
    ) -> (updated: Result<(), Error>)
        requires
            old(self).wf(),
        ensures
            final(gpu).memory_types == old(gpu).memory_types,
            final(gpu).requests() == old(gpu).requests(),
            final(self).wf(),
            updated matches Err(e) ==> e == Error::NoCompatibleMemoryType || e is Vk,
            updated is Err ==> *final(self) == *old(self),
            updated is Ok ==> final(self).info() == swapchain_info(
                old(self).raw_handle(),
                surface,
                size.0,
                size.1,
                color_format,
            ),
            forall|k: ObjectKind| #[trigger]
                final(gpu).live(k) == old(gpu).live(k) + (if updated is Ok {
                    final(self).footprint(k) - old(self).footprint(k)
                } else {
                    0
                }),
    {
        let mut replaced = Self::create(
            gpu,
            self.swapchain.as_raw(),
            surface,
            render_pass,
            size,
            color_format,
            samples,
        )?;
        core::mem::swap(self, &mut replaced);
        replaced.destroy(gpu);
        Ok(())
    }

    /// What the image with number `index` is: the image, its view and its
    /// framebuffer.
    pub open spec fn item(&self, index: u32) -> SwapchainItem {
        SwapchainItem {
            index,
            image: self.images()[index as int],
            image_view: self.image_view(index as int),
            framebuffer: self.framebuffer(index as int),
        }
    }

    /// What the device's answer to a request for the next image comes to.
    /// An image of the swapchain is handed out with its view and its
    /// framebuffer. An image number beyond the last image, and an error code
    /// that signals staleness, say that the swapchain is stale; every other
    /// error code is a failure.
    pub open spec fn verdict_on(&self, answer: core::result::Result<AcquiredImage, VkError>) -> Result<
        SwapchainItem,
        SwapchainVerdict,
    > {
        match answer {
            Ok(acquired) => if acquired.index < self.images().len() {
                Ok(self.item(acquired.index))
            } else {
                Err(SwapchainVerdict::Stale)
            },
            Err(code) => if is_stale(code.0) {
                Err(SwapchainVerdict::Stale)
            } else {
                Err(SwapchainVerdict::Failed(code))
            },
        }
    }

    /// Reads the device's answer to a request for the next image.
    pub fn acquired(&self, answer: core::result::Result<AcquiredImage, VkError>) -> (acquired: Result<
        SwapchainItem,
        SwapchainVerdict,
    >)
        requires
            self.wf(),
        ensures
            acquired == self.verdict_on(answer),
            acquired matches Err(verdict) ==> verdict !is Current,
            acquired matches Ok(item) ==> {
                &&& answer matches Ok(given)
                &&& item.index == given.index
                &&& item.index < self.images().len()
                &&& item.image == self.images()[item.index as int]
                &&& item.image_view == self.image_view(item.index as int)
                &&& item.framebuffer == self.framebuffer(item.index as int)
            },
    {
        match answer {
            Ok(acquired) => {
                let index = acquired.index as usize;
                if index < self.images.len() {
                    Ok(
                        SwapchainItem {
                            index: acquired.index,
                            image: self.images[index],
                            image_view: self.image_views[index].as_raw(),
                            framebuffer: self.framebuffers[index].owner.as_raw(),
                        },
                    )
                } else {
                    Err(SwapchainVerdict::Stale)
                }
            },
            Err(code) => match judge(code.0) {
                SwapchainVerdict::Stale => Err(SwapchainVerdict::Stale),
                _ => Err(SwapchainVerdict::Failed(code)),
            },
        }
    }

    /// Acquires the next image, waiting at most `timeout` nanoseconds. The
    /// verdict says whether the swapchain has gone stale; an index that the
    /// device gives beyond the last image counts as stale too.
    pub fn next<D: Device>(
        &self,
        gpu: &mut Gpu<D>,
        timeout: u64,
        semaphore: SemaphoreHandle,
        fence: FenceHandle,
    ) -> (acquired: Result<SwapchainItem, SwapchainVerdict>)
        requires
            self.wf(),
        ensures
            final(gpu).same_objects(old(gpu)),
            acquired matches Err(verdict) ==> verdict !is Current,
            acquired matches Ok(item) ==> {
                &&& item == self.item(item.index)
                &&& item.index < self.images().len()
                &&& item.image == self.images()[item.index as int]
                &&& item.image_view == self.image_view(item.index as int)
                &&& item.framebuffer == self.framebuffer(item.index as int)
            },
    {
        let answer = gpu.device.acquire_next_image(
            self.swapchain.as_raw(),
            timeout,
            semaphore,
            fence,
        );
        self.acquired(answer)
    }

    /// Destroys the framebuffers, the views, the render targets and the
    /// swapchain.
    pub fn destroy<D: Device>(self, gpu: &mut Gpu<D>)
        requires
            self.wf(),
        ensures
            final(gpu).memory_types == old(gpu).memory_types,
            final(gpu).requests() == old(gpu).requests(),
            forall|k: ObjectKind| #[trigger]
                final(gpu).live(k) == old(gpu).live(k) - self.footprint(k),
    {
        destroy_framebuffers(gpu, self.framebuffers);
        destroy_views(gpu, self.image_views);
        self.targets.destroy(gpu);
        self.swapchain.destroy(gpu);
    }
}

/// The renderer: one surface, one render pass, one swapchain, and the one
/// semaphore that every frame's image acquisition signals.
pub struct Renderer {
    pub surface: SurfaceHandle,
    pub render_pass: Owned<RenderPassHandle>,
    /// The parameters the render pass was created from.
    pub render_pass_parameters: RenderPassInfo,
    pub size: (u32, u32),
    pub color_format: i32,
    pub samples: u32,
    pub image_acquire_semaphore: Semaphore,
    pub swapchain: Swapchain,
}

impl Renderer {
    /// What the renderer adds to the live objects of kind `kind`.
    pub open spec fn footprint(&self, kind: ObjectKind) -> int {
        one(ObjectKind::RenderPass, kind) + one(ObjectKind::Semaphore, kind)
            + self.swapchain.footprint(kind)
    }

    /// Creates the render pass, the acquire semaphore and a swapchain of
    /// `size` for `surface`. If any step fails, what the earlier steps made
    /// is destroyed.
    pub fn create<D: Device>(gpu: &mut Gpu<D>, surface: SurfaceHandle, size: (u32, u32)) -> (created:
        Result<Self, Error>)
        ensures
            final(gpu).memory_types == old(gpu).memory_types,
            final(gpu).requests() == old(gpu).requests(),
            created matches Err(e) ==> e == Error::NoCompatibleMemoryType || e is Vk,
            created matches Ok(renderer) ==> {
                &&& renderer.swapchain.wf()
                &&& renderer.surface == surface
                &&& renderer.size == size
                &&& renderer.color_format == FORMAT_B8G8R8A8_SRGB
                &&& renderer.samples <= 64
                &&& renderer.render_pass_parameters == render_pass_info(
                    renderer.color_format,
                    renderer.samples,
                )
                &&& renderer.swapchain.info() == swapchain_info(
                    SwapchainHandle(0),
                    surface,
                    size.0,
                    size.1,
                    renderer.color_format,
                )
            },
            forall|k: ObjectKind| #[trigger]
                final(gpu).live(k) == old(gpu).live(k) + (if created is Ok {
                    created->Ok_0.footprint(k)
                } else {
                    0
                }),
    {
        let (color_format, samples) = get_format_and_samples(gpu, surface)?;
        let pass = RenderPassInfo {
            color: AttachmentDescription {
                format: color_format,
                samples,
                load_op: ATTACHMENT_LOAD_OP_CLEAR,
                store_op: ATTACHMENT_STORE_OP_STORE,
                initial_layout: IMAGE_LAYOUT_UNDEFINED,
                final_layout: IMAGE_LAYOUT_COLOR_ATTACHMENT_OPTIMAL,
            },
            depth: AttachmentDescription {
                format: FORMAT_D32_SFLOAT,
                samples,
                load_op: ATTACHMENT_LOAD_OP_CLEAR,
                store_op: ATTACHMENT_STORE_OP_DONT_CARE,
                initial_layout: IMAGE_LAYOUT_UNDEFINED,
                final_layout: IMAGE_LAYOUT_DEPTH_STENCIL_ATTACHMENT_OPTIMAL,
            },
            resolve: AttachmentDescription {
                format: color_format,
                samples: SAMPLE_COUNT_1,
                load_op: ATTACHMENT_LOAD_OP_DONT_CARE,
                store_op: ATTACHMENT_STORE_OP_STORE,
                initial_layout: IMAGE_LAYOUT_UNDEFINED,
                final_layout: IMAGE_LAYOUT_PRESENT_SRC,
            },
            color_reference: AttachmentReference {
                attachment: 0,
                layout: IMAGE_LAYOUT_COLOR_ATTACHMENT_OPTIMAL,
            },
            depth_reference: AttachmentReference {
                attachment: 1,
                layout: IMAGE_LAYOUT_DEPTH_STENCIL_ATTACHMENT_OPTIMAL,
            },
            resolve_reference: AttachmentReference {
                attachment: 2,
                layout: IMAGE_LAYOUT_COLOR_ATTACHMENT_OPTIMAL,
            },
        };
        assert(pass == render_pass_info(color_format, samples));
        let render_pass = Owned::<RenderPassHandle>::create(gpu, &pass)?;
        let image_acquire_semaphore = match Semaphore::create(gpu) {
            Ok(semaphore) => semaphore,
            Err(e) => {
                render_pass.destroy(gpu);
                return Err(e);
            },
        };
        let swapchain = match Swapchain::create(
            gpu,
            SwapchainHandle(0),
            surface,
            render_pass.as_raw(),
            size,
            color_format,
            samples,
        ) {
            Ok(swapchain) => swapchain,
            Err(e) => {
                image_acquire_semaphore.destroy(gpu);
                render_pass.destroy(gpu);
                return Err(e);
            },
        };
        Ok(
            Self {
                surface,
                render_pass,
                render_pass_parameters: pass,
                size,
                color_format,
                samples,
                image_acquire_semaphore,
                swapchain,
            },
        )
    }

    /// Rebuilds the swapchain for the renderer's surface, render pass and
    /// formats at `size`.
    fn rebuild<D: Device>(&mut self, gpu: &mut Gpu<D>, size: (u32, u32)) -> (rebuilt: Result<(), Error>)
        requires
            old(self).swapchain.wf(),
        ensures
            final(gpu).memory_types == old(gpu).memory_types,
            final(gpu).requests() == old(gpu).requests(),
            final(self).swapchain.wf(),
            final(self).surface == old(self).surface,
            final(self).render_pass == old(self).render_pass,
            final(self).render_pass_parameters == old(self).render_pass_parameters,
            final(self).size == old(self).size,
            final(self).color_format == old(self).color_format,
            final(self).samples == old(self).samples,
            final(self).image_acquire_semaphore == old(self).image_acquire_semaphore,
            rebuilt matches Err(e) ==> e == Error::NoCompatibleMemoryType || e is Vk,
            rebuilt is Err ==> final(self).swapchain == old(self).swapchain,
            rebuilt is Ok ==> final(self).swapchain.info() == swapchain_info(
                old(self).swapchain.raw_handle(),
                old(self).surface,
                size.0,
                size.1,
                old(self).color_format,
            ),
            forall|k: ObjectKind| #[trigger]
                final(gpu).live(k) == old(gpu).live(k) + final(self).footprint(k) - old(self).footprint(k),
    {
        let surface = self.surface;
        let render_pass = self.render_pass.as_raw();
        let color_format = self.color_format;
        let samples = self.samples;
        self.swapchain.update(gpu, surface, render_pass, size, color_format, samples)
    }

    /// Adapts the renderer to a surface of `size`. A changed size replaces
    /// the swapchain whole; the same size changes nothing. If rebuilding
    /// fails, the renderer stays as it was.
    pub fn resize<D: Device>(&mut self, gpu: &mut Gpu<D>, size: (u32, u32)) -> (resized: Result<(), Error>)
        requires
            old(self).swapchain.wf(),
        ensures
            final(gpu).memory_types == old(gpu).memory_types,
            final(gpu).requests() == old(gpu).requests(),
            final(self).swapchain.wf(),
            final(self).surface == old(self).surface,
            final(self).render_pass == old(self).render_pass,
            final(self).render_pass_parameters == old(self).render_pass_parameters,
            final(self).color_format == old(self).color_format,
            final(self).samples == old(self).samples,
            final(self).image_acquire_semaphore == old(self).image_acquire_semaphore,
            size == old(self).size ==> resized is Ok && *final(self) == *old(self),
            size == old(self).size ==> final(gpu).same_objects(old(gpu)),
            resized matches Err(e) ==> e == Error::NoCompatibleMemoryType || e is Vk,
            resized is Err ==> *final(self) == *old(self),
            resized is Ok ==> final(self).size == size,
            resized is Ok && size != old(self).size ==> final(self).swapchain.info()
                == swapchain_info(
                old(self).swapchain.raw_handle(),
                old(self).surface,
                size.0,
                size.1,
                old(self).color_format,
            ),
            forall|k: ObjectKind| #[trigger]
                final(gpu).live(k) == old(gpu).live(k) + final(self).footprint(k) - old(self).footprint(k),
    {
        if self.size.0 != size.0 || self.size.1 != size.1 {
            self.rebuild(gpu, size)?;
            self.size = size;
        }
        Ok(())
    }

    /// Acquires the next image to draw to, waiting without a time limit.
    /// When the swapchain has gone stale, it is rebuilt at the renderer's
    /// size, in place of the stale one, and the image is asked for once
    /// more; a swapchain that is stale again right away counts as out of
    /// date. Nothing but the swapchain changes, and nothing is asked of the
    /// queue. The only errors are those of the device and of rebuilding.
    pub fn acquire_image<D: Device>(&mut self, gpu: &mut Gpu<D>) -> (acquired: Result<
        SwapchainItem,
        Error,
    >)
        requires
            old(self).swapchain.wf(),
        ensures
            final(gpu).memory_types == old(gpu).memory_types,
            final(gpu).requests() == old(gpu).requests(),
            final(self).swapchain.wf(),
            final(self).surface == old(self).surface,
            final(self).render_pass == old(self).render_pass,
            final(self).size == old(self).size,
            final(self).image_acquire_semaphore == old(self).image_acquire_semaphore,
            final(self).render_pass_parameters == old(self).render_pass_parameters,
            final(self).color_format == old(self).color_format,
            final(self).samples == old(self).samples,
            final(self).swapchain == old(self).swapchain || final(self).swapchain.info()
                == swapchain_info(
                old(self).swapchain.raw_handle(),
                old(self).surface,
                old(self).size.0,
                old(self).size.1,
                old(self).color_format,
            ),
            acquired matches Err(e) ==> e == Error::NoCompatibleMemoryType || e is Vk,
            acquired matches Ok(item) ==> {
                &&& item == final(self).swapchain.item(item.index)
                &&& item.index < final(self).swapchain.images().len()
                &&& item.image == final(self).swapchain.images()[item.index as int]
                &&& item.image_view == final(self).swapchain.image_view(item.index as int)
                &&& item.framebuffer == final(self).swapchain.framebuffer(item.index as int)
            },
            forall|k: ObjectKind| #[trigger]
                final(gpu).live(k) == old(gpu).live(k) + final(self).footprint(k) - old(self).footprint(k),
    {
        let semaphore = self.image_acquire_semaphore.as_raw();
        let first = self.swapchain.next(gpu, u64::MAX, semaphore, FenceHandle(0));
        self.acquired_after(gpu, first)
    }

    /// Acts on the first answer to a request for the next image. An image
    /// is handed on and a failure is returned, and nothing changes. A stale
    /// swapchain is rebuilt at the renderer's size, in place of the stale
    /// one, and the image is asked for once more; a swapchain that is stale
    /// again right away counts as out of date.
    pub fn acquired_after<D: Device>(
        &mut self,
        gpu: &mut Gpu<D>,
        first: Result<SwapchainItem, SwapchainVerdict>,
    ) -> (acquired: Result<SwapchainItem, Error>)
        requires
            old(self).swapchain.wf(),
        ensures
            final(gpu).memory_types == old(gpu).memory_types,
            final(gpu).requests() == old(gpu).requests(),
            final(self).swapchain.wf(),
            final(self).surface == old(self).surface,
            final(self).render_pass == old(self).render_pass,
            final(self).size == old(self).size,
            final(self).image_acquire_semaphore == old(self).image_acquire_semaphore,
            final(self).render_pass_parameters == old(self).render_pass_parameters,
            final(self).color_format == old(self).color_format,
            final(self).samples == old(self).samples,
            first matches Ok(item) ==> acquired == Ok::<SwapchainItem, Error>(item),
            first matches Err(SwapchainVerdict::Failed(code)) ==> acquired == Err::<
                SwapchainItem,
                Error,
            >(Error::Vk(code)),
            !asks_for_rebuild(first) ==> {
                &&& *final(self) == *old(self)
                &&& final(gpu).same_objects(old(gpu))
            },
            asks_for_rebuild(first) ==> {
                &&& acquired is Err ==> {
                    ||| final(self).swapchain == old(self).swapchain
                    ||| final(self).swapchain.info() == swapchain_info(
                        old(self).swapchain.raw_handle(),
                        old(self).surface,
                        old(self).size.0,
                        old(self).size.1,
                        old(self).color_format,
                    )
                }
                &&& acquired matches Ok(item) ==> {
                    &&& final(self).swapchain.info() == swapchain_info(
                        old(self).swapchain.raw_handle(),
                        old(self).surface,
                        old(self).size.0,
                        old(self).size.1,
                        old(self).color_format,
                    )
                    &&& item == final(self).swapchain.item(item.index)
                    &&& item.index < final(self).swapchain.images().len()
                }
            },
            acquired matches Err(e) ==> e == Error::NoCompatibleMemoryType || e is Vk,
            forall|k: ObjectKind| #[trigger]
                final(gpu).live(k) == old(gpu).live(k) + final(self).footprint(k) - old(self).footprint(k),
    {
        match first {
            Ok(item) => Ok(item),
            Err(SwapchainVerdict::Failed(code)) => Err(Error::Vk(code)),
            Err(_) => {
                let size = self.size;
                self.rebuild(gpu, size)?;
                let semaphore = self.image_acquire_semaphore.as_raw();
                match self.swapchain.next(gpu, u64::MAX, semaphore, FenceHandle(0)) {
                    Ok(item) => Ok(item),
                    Err(SwapchainVerdict::Failed(code)) => Err(Error::Vk(code)),
                    Err(_) => Err(Error::Vk(VkError(RESULT_ERROR_OUT_OF_DATE))),
                }
            },
        }
    }

    /// Presents image `index`. When presenting shows that the swapchain has
    /// gone stale, it is rebuilt at the renderer's size.
    pub fn present<D: Device>(&mut self, gpu: &mut Gpu<D>, index: u32) -> (presented: Result<(), Error>)
        requires
            old(self).swapchain.wf(),
        ensures
            final(gpu).memory_types == old(gpu).memory_types,
            final(gpu).requests() == old(gpu).requests().push(
                Request::Present { swapchain: old(self).swapchain.raw_handle(), index },
            ),
            final(self).swapchain.wf(),
            final(self).surface == old(self).surface,
            final(self).render_pass == old(self).render_pass,
            final(self).size == old(self).size,
            final(self).image_acquire_semaphore == old(self).image_acquire_semaphore,
            final(self).render_pass_parameters == old(self).render_pass_parameters,
            final(self).color_format == old(self).color_format,
            final(self).samples == old(self).samples,
            final(self).swapchain == old(self).swapchain || final(self).swapchain.info()
                == swapchain_info(
                old(self).swapchain.raw_handle(),
                old(self).surface,
                old(self).size.0,
                old(self).size.1,
                old(self).color_format,
            ),
            presented matches Err(e) ==> e == Error::NoCompatibleMemoryType || e is Vk,
            forall|k: ObjectKind| #[trigger]
                final(gpu).live(k) == old(gpu).live(k) + final(self).footprint(k) - old(self).footprint(k),
    {
        gpu.ledger.note(
            Ghost(Request::Present { swapchain: self.swapchain.raw_handle(), index }),
        );
        let code = match gpu.device.queue_present(self.swapchain.as_raw(), index) {
            Ok(code) => code,
            Err(code) => code.0,
        };
        self.presented(gpu, code)
    }

    /// Acts on the result code of a presentation. Success changes nothing
    /// and a failure is returned with nothing changed. A code that signals
    /// staleness has the swapchain rebuilt at the renderer's size, in place
    /// of the stale one; if rebuilding fails, the renderer stays as it was.
    pub fn presented<D: Device>(&mut self, gpu: &mut Gpu<D>, code: i32) -> (done: Result<(), Error>)
        requires
            old(self).swapchain.wf(),
        ensures
            final(gpu).memory_types == old(gpu).memory_types,
            final(gpu).requests() == old(gpu).requests(),
            final(self).swapchain.wf(),
            final(self).surface == old(self).surface,
            final(self).render_pass == old(self).render_pass,
            final(self).size == old(self).size,
            final(self).image_acquire_semaphore == old(self).image_acquire_semaphore,
            final(self).render_pass_parameters == old(self).render_pass_parameters,
            final(self).color_format == old(self).color_format,
            final(self).samples == old(self).samples,
            code == RESULT_SUCCESS ==> done is Ok,
            code != RESULT_SUCCESS && !is_stale(code) ==> done == Err::<(), Error>(
                Error::Vk(VkError(code)),
            ),
            !is_stale(code) ==> *final(self) == *old(self) && final(gpu).same_objects(old(gpu)),
            is_stale(code) ==> {
                &&& done is Err ==> final(self).swapchain == old(self).swapchain
                &&& done is Ok ==> final(self).swapchain.info() == swapchain_info(
                    old(self).swapchain.raw_handle(),
                    old(self).surface,
                    old(self).size.0,
                    old(self).size.1,
                    old(self).color_format,
                )
            },
            done matches Err(e) ==> e == Error::NoCompatibleMemoryType || e is Vk,
            forall|k: ObjectKind| #[trigger]
                final(gpu).live(k) == old(gpu).live(k) + final(self).footprint(k) - old(self).footprint(k),
    {
        match judge(code) {
            SwapchainVerdict::Current => Ok(()),
            SwapchainVerdict::Stale => {
                let size = self.size;
                self.rebuild(gpu, size)
            },
            SwapchainVerdict::Failed(code) => Err(Error::Vk(code)),
        }
    }

    /// Destroys the swapchain, the semaphore and the render pass. The
    /// surface is not the renderer's to destroy.
    pub fn destroy<D: Device>(self, gpu: &mut Gpu<D>)
        requires
            self.swapchain.wf(),
        ensures
            final(gpu).memory_types == old(gpu).memory_types,
            final(gpu).requests() == old(gpu).requests(),
            forall|k: ObjectKind| #[trigger]
                final(gpu).live(k) == old(gpu).live(k) - self.footprint(k),
    {
        self.swapchain.destroy(gpu);
        self.image_acquire_semaphore.destroy(gpu);
        self.render_pass.destroy(gpu);
    }
}

} // verus!
