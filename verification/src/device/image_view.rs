use vstd::prelude::*;
use crate::device::backend::Device;
use crate::device::image::ImageHandle;
use crate::device::raw_handle::{one, AsRawHandle, Create, Destroy, Gpu, ObjectKind, Owned, RawHandle};
use crate::device::types::{
    ImageViewInfo, IMAGE_VIEW_TYPE_2D, REMAINING_ARRAY_LAYERS, REMAINING_MIP_LEVELS,
};
use crate::error::{Error, VkError};

verus! {

/// The handle of an image view. The handle 0 names no view.
#[derive(Clone, Copy, PartialEq, Eq, Structural, Debug)]
pub struct ImageViewHandle(pub u64);

impl RawHandle for ImageViewHandle {
    open spec fn kind() -> ObjectKind {
        ObjectKind::ImageView
    }
}

impl<'a, D: Device> Create<D, &'a ImageViewInfo> for ImageViewHandle {
    fn create(device: &mut D, info: &'a ImageViewInfo) -> core::result::Result<Self, VkError> {
        device.create_image_view(info)
    }
}

impl<D: Device> Destroy<D> for ImageViewHandle {
    fn destroy(self, device: &mut D) {
        device.destroy_image_view(self)
    }
}

/// An owned view of all mip levels and layers of an image.
pub struct ImageView {
    pub owner: Owned<ImageViewHandle>,
    pub info: ImageViewInfo,
}

impl AsRawHandle<ImageViewHandle> for ImageView {
    open spec fn raw_handle(&self) -> ImageViewHandle {
        self.owner.raw_handle()
    }

    fn as_raw(&self) -> (raw: ImageViewHandle) {
        self.owner.as_raw()
    }
}

/// The parameters of a view of every level and layer of `image`.
pub open spec fn whole_image_view(
    image: ImageHandle,
    view_type: i32,
    format: i32,
    aspect_mask: u32,
) -> ImageViewInfo {
    ImageViewInfo {
        image,
        view_type,
        format,
        aspect_mask,
        level_count: REMAINING_MIP_LEVELS,
        layer_count: REMAINING_ARRAY_LAYERS,
    }
}

impl ImageView {
    /// Creates a two-dimensional view of all of `image`.
    pub fn create_2d<D: Device>(
        gpu: &mut Gpu<D>,
        image: ImageHandle,
        format: i32,
        aspect_mask: u32,
    ) -> (created: Result<Self, Error>)
        ensures
            final(gpu).memory_types == old(gpu).memory_types,
            final(gpu).requests() == old(gpu).requests(),
            created matches Err(e) ==> e is Vk,
            created matches Ok(view) ==> view.info == whole_image_view(
                image,
                IMAGE_VIEW_TYPE_2D,
                format,
                aspect_mask,
            ),
            forall|k: ObjectKind| #[trigger]
                final(gpu).live(k) == old(gpu).live(k) + (if created is Ok {
                    one(ObjectKind::ImageView, k)
                } else {
                    0
                }),
    {
        Self::create(gpu, image, IMAGE_VIEW_TYPE_2D, format, aspect_mask)
    }

    /// Creates a view of all of `image`.
    pub fn create<D: Device>(
        gpu: &mut Gpu<D>,
        image: ImageHandle,
        view_type: i32,
        format: i32,
        aspect_mask: u32,
    ) -> (created: Result<Self, Error>)
        ensures
            final(gpu).memory_types == old(gpu).memory_types,
            final(gpu).requests() == old(gpu).requests(),
            created matches Err(e) ==> e is Vk,
            created matches Ok(view) ==> view.info == whole_image_view(
                image,
                view_type,
                format,
                aspect_mask,
            ),
            forall|k: ObjectKind| #[trigger]
                final(gpu).live(k) == old(gpu).live(k) + (if created is Ok {
                    one(ObjectKind::ImageView, k)
                } else {
                    0
                }),
    {
        let info = ImageViewInfo {
            image,
            view_type,
            format,
            aspect_mask,
            level_count: REMAINING_MIP_LEVELS,
            layer_count: REMAINING_ARRAY_LAYERS,
        };
        match Owned::<ImageViewHandle>::create(gpu, &info) {
            Ok(owner) => Ok(Self { owner, info }),
            Err(e) => Err(e),
        }
    }

    /// Destroys the view.
    pub fn destroy<D: Device>(self, gpu: &mut Gpu<D>)
        ensures
            final(gpu).memory_types == old(gpu).memory_types,
            final(gpu).requests() == old(gpu).requests(),
            forall|k: ObjectKind| #[trigger]
                final(gpu).live(k) == old(gpu).live(k) - one(ObjectKind::ImageView, k),
    {
        self.owner.destroy(gpu);
    }
}

} // verus!
