use vstd::prelude::*;
use crate::device::backend::Device;
use crate::device::memory::{select_memory_type, DeviceMemoryHandle, Memory, MemoryTypeIndex, MemoryTypeMask};
use crate::device::raw_handle::{one, AsRawHandle, Create, Destroy, Gpu, ObjectKind, Owned, RawHandle};
use crate::device::types::{
    ImageInfo, MemoryBinding, MemoryRequirements, IMAGE_CREATE_CUBE_COMPATIBLE,
    IMAGE_LAYOUT_UNDEFINED, IMAGE_TILING_OPTIMAL, IMAGE_TYPE_2D, SAMPLE_COUNT_1,
};
use crate::error::{Error, VkError};

verus! {

/// One more than the floor of the binary logarithm of `n`, and 0 for 0:
/// the number of times `n` can be halved before it reaches 0.
pub open spec fn bit_length(n: nat) -> nat
    decreases n,
{
    if n == 0 {
        0
    } else {
        1 + bit_length(n / 2)
    }
}

/// The length of a full mip chain for an image of the given size: the chain
/// halves the larger dimension until it reaches one texel.
pub open spec fn spec_mip_levels(width: u32, height: u32) -> nat {
    bit_length(if width >= height { width as nat } else { height as nat })
}

/// `bit_length` never shrinks when its argument grows.
pub proof fn lemma_bit_length_monotonic(a: nat, b: nat)
    requires
        a <= b,
    ensures
        bit_length(a) <= bit_length(b),
    decreases b,
{
    if a != 0 {
        lemma_bit_length_monotonic(a / 2, b / 2);
    }
}

/// The mip level count never shrinks when the larger dimension grows.
pub proof fn lemma_mip_levels_monotonic(w1: u32, h1: u32, w2: u32, h2: u32)
    requires
        (if w1 >= h1 { w1 } else { h1 }) <= (if w2 >= h2 { w2 } else { h2 }),
    ensures
        spec_mip_levels(w1, h1) <= spec_mip_levels(w2, h2),
{
    lemma_bit_length_monotonic(
        if w1 >= h1 { w1 as nat } else { h1 as nat },
        if w2 >= h2 { w2 as nat } else { h2 as nat },
    );
}

proof fn lemma_leading_zeros_step(m: u32, a: u32, b: u32)
    by (bit_vector)
    requires
        m != 0,
        a < 32,
        b <= 32,
        m >> ((32 - a) as u32) == 0,
        (m >> ((31 - a) as u32)) & 1u32 != 0u32,
        (m / 2) >> ((32 - b) as u32) == 0,
        b < 32 ==> ((m / 2) >> ((31 - b) as u32)) & 1u32 != 0u32,
        b == 32 <==> m / 2 == 0,
    ensures
        b == a + 1,
{
}

proof fn lemma_bit_length_leading_zeros(m: u32)
    ensures
        bit_length(m as nat) == 32 - vstd::std_specs::bits::u32_leading_zeros(m),
    decreases m,
{
    vstd::std_specs::bits::axiom_u32_leading_zeros(m);
    if m != 0 {
        vstd::std_specs::bits::axiom_u32_leading_zeros(m / 2);
        lemma_bit_length_leading_zeros(m / 2);
        lemma_leading_zeros_step(
            m,
            vstd::std_specs::bits::u32_leading_zeros(m),
            vstd::std_specs::bits::u32_leading_zeros(m / 2),
        );
    }
}

/// Number of mip levels of a full chain for a `width` by `height` image.
pub fn mip_levels(size: (u32, u32)) -> (levels: u32)
    ensures
        levels == spec_mip_levels(size.0, size.1),
        levels <= 32,
{
    let (width, height) = size;
    let larger: u32 = if width >= height { width } else { height };
    proof {
        lemma_bit_length_leading_zeros(larger);
        vstd::std_specs::bits::axiom_u32_leading_zeros(larger);
    }
    32 - larger.leading_zeros()
}

/// The handle of an image.
#[derive(Clone, Copy, PartialEq, Eq, Structural, Debug)]
pub struct ImageHandle(pub u64);

impl RawHandle for ImageHandle {
    open spec fn kind() -> ObjectKind {
        ObjectKind::Image
    }
}

impl<'a, D: Device> Create<D, &'a ImageInfo> for ImageHandle {
    fn create(device: &mut D, info: &'a ImageInfo) -> core::result::Result<Self, VkError> {
        device.create_image(info)
    }
}

impl<D: Device> Destroy<D> for ImageHandle {
    fn destroy(self, device: &mut D) {
        device.destroy_image(self)
    }
}

/// The parameters of a two-dimensional image with one layer, in optimal
/// tiling, whose contents start out undefined.
pub open spec fn image_info_2d(
    width: u32,
    height: u32,
    mip_levels: u32,
    format: i32,
    samples: u32,
    usage: u32,
) -> ImageInfo {
    ImageInfo {
        flags: 0,
        image_type: IMAGE_TYPE_2D,
        format,
        width,
        height,
        depth: 1,
        mip_levels,
        array_layers: 1,
        samples,
        tiling: IMAGE_TILING_OPTIMAL,
        usage,
        initial_layout: IMAGE_LAYOUT_UNDEFINED,
    }
}

/// The parameters of a cube image: six single-sampled layers that a cube
/// view can be made of.
pub open spec fn image_info_cube(
    width: u32,
    height: u32,
    mip_levels: u32,
    format: i32,
    usage: u32,
) -> ImageInfo {
    ImageInfo {
        flags: IMAGE_CREATE_CUBE_COMPATIBLE,
        image_type: IMAGE_TYPE_2D,
        format,
        width,
        height,
        depth: 1,
        mip_levels,
        array_layers: 6,
        samples: SAMPLE_COUNT_1,
        tiling: IMAGE_TILING_OPTIMAL,
        usage,
        initial_layout: IMAGE_LAYOUT_UNDEFINED,
    }
}

/// An owned image, with what is known of its memory: the requirements the
/// device reported for it, once asked, and where it is bound, once bound.
pub struct ImageObject {
    pub owner: Owned<ImageHandle>,
    pub info: ImageInfo,
    pub requirements: Option<MemoryRequirements>,
    pub binding: Option<MemoryBinding>,
}

impl AsRawHandle<ImageHandle> for ImageObject {
    open spec fn raw_handle(&self) -> ImageHandle {
        self.owner.raw_handle()
    }

    fn as_raw(&self) -> (raw: ImageHandle) {
        self.owner.as_raw()
    }
}

impl ImageObject {
    fn create_from<D: Device>(gpu: &mut Gpu<D>, info: ImageInfo) -> (created: Result<Self, Error>)
        ensures
            final(gpu).memory_types == old(gpu).memory_types,
            final(gpu).requests() == old(gpu).requests(),
            created matches Err(e) ==> e is Vk,
            created matches Ok(object) ==> {
                &&& object.info == info
                &&& object.requirements is None
                &&& object.binding is None
            },
            forall|k: ObjectKind| #[trigger]
                final(gpu).live(k) == old(gpu).live(k) + (if created is Ok {
                    one(ObjectKind::Image, k)
                } else {
                    0
                }),
    {
        match Owned::<ImageHandle>::create(gpu, &info) {
            Ok(owner) => Ok(ImageObject { owner, info, requirements: None, binding: None }),
            Err(e) => Err(e),
        }
    }

    /// Creates a two-dimensional image. It has no memory yet.
    pub fn create_2d<D: Device>(
        gpu: &mut Gpu<D>,
        size: (u32, u32),
        mip_levels: u32,
        format: i32,
        samples: u32,
        usage: u32,
    ) -> (created: Result<Self, Error>)
        ensures
            final(gpu).memory_types == old(gpu).memory_types,
            final(gpu).requests() == old(gpu).requests(),
            created matches Err(e) ==> e is Vk,
            created matches Ok(object) ==> {
                &&& object.info == image_info_2d(size.0, size.1, mip_levels, format, samples, usage)
                &&& object.requirements is None
                &&& object.binding is None
            },
            forall|k: ObjectKind| #[trigger]
                final(gpu).live(k) == old(gpu).live(k) + (if created is Ok {
                    one(ObjectKind::Image, k)
                } else {
                    0
                }),
    {
        Self::create_from(
            gpu,
            ImageInfo {
                flags: 0,
                image_type: IMAGE_TYPE_2D,
                format,
                width: size.0,
                height: size.1,
                depth: 1,
                mip_levels,
                array_layers: 1,
                samples,
                tiling: IMAGE_TILING_OPTIMAL,
                usage,
                initial_layout: IMAGE_LAYOUT_UNDEFINED,
            },
        )
    }

    /// Creates a cube image. It has no memory yet.
    pub fn create_cube<D: Device>(
        gpu: &mut Gpu<D>,
        size: (u32, u32),
        mip_levels: u32,
        format: i32,
        usage: u32,
    ) -> (created: Result<Self, Error>)
        ensures
            final(gpu).memory_types == old(gpu).memory_types,
            final(gpu).requests() == old(gpu).requests(),
            created matches Err(e) ==> e is Vk,
            created matches Ok(object) ==> {
                &&& object.info == image_info_cube(size.0, size.1, mip_levels, format, usage)
                &&& object.requirements is None
                &&& object.binding is None
            },
            forall|k: ObjectKind| #[trigger]
                final(gpu).live(k) == old(gpu).live(k) + (if created is Ok {
                    one(ObjectKind::Image, k)
                } else {
                    0
                }),
    {
        Self::create_from(
            gpu,
            ImageInfo {
                flags: IMAGE_CREATE_CUBE_COMPATIBLE,
                image_type: IMAGE_TYPE_2D,
                format,
                width: size.0,
                height: size.1,
                depth: 1,
                mip_levels,
                array_layers: 6,
                samples: SAMPLE_COUNT_1,
                tiling: IMAGE_TILING_OPTIMAL,
                usage,
                initial_layout: IMAGE_LAYOUT_UNDEFINED,
            },
        )
    }

    /// Asks the device what memory the image needs, and remembers the
    /// answer.
    pub fn memory_requirements<D: Device>(&mut self, gpu: &mut Gpu<D>) -> (requirements:
        MemoryRequirements)
        ensures
            final(gpu).same_objects(old(gpu)),
            final(self).requirements == Some(requirements),
            final(self).owner == old(self).owner,
            final(self).info == old(self).info,
            final(self).binding == old(self).binding,
    {
        let requirements = gpu.device.image_memory_requirements(self.owner.as_raw());
        self.requirements = Some(requirements);
        requirements
    }

    /// Binds the image to the start of `memory`. An image is bound once, and
    /// only after its requirements are known. On failure it stays unbound.
    pub fn bind_memory<D: Device>(&mut self, gpu: &mut Gpu<D>, memory: DeviceMemoryHandle) -> (bound:
        Result<(), Error>)
        requires
            old(self).requirements is Some,
            old(self).binding is None,
        ensures
            final(gpu).same_objects(old(gpu)),
            final(self).owner == old(self).owner,
            final(self).info == old(self).info,
            final(self).requirements == old(self).requirements,
            bound matches Err(e) ==> e is Vk,
            final(self).binding == (if bound is Ok {
                Some(MemoryBinding { memory, offset: 0 })
            } else {
                None
            }),
    {
        match gpu.device.bind_image_memory(self.owner.as_raw(), memory, 0) {
            Ok(()) => {
                self.binding = Some(MemoryBinding { memory, offset: 0 });
                Ok(())
            },
            Err(code) => Err(Error::Vk(code)),
        }
    }

    /// Destroys the image. Its memory, if any, is not touched.
    pub fn destroy<D: Device>(self, gpu: &mut Gpu<D>)
        ensures
            final(gpu).memory_types == old(gpu).memory_types,
            final(gpu).requests() == old(gpu).requests(),
            forall|k: ObjectKind| #[trigger]
                final(gpu).live(k) == old(gpu).live(k) - one(ObjectKind::Image, k),
    {
        self.owner.destroy(gpu);
    }
}

/// An image together with the memory block it is bound to.
pub struct Image {
    pub object: ImageObject,
    pub memory: Memory,
}

impl Image {
    /// What one image with its memory adds to the live objects of kind
    /// `kind`.
    pub open spec fn footprint(kind: ObjectKind) -> int {
        one(ObjectKind::Image, kind) + one(ObjectKind::DeviceMemory, kind)
    }

    /// An image is well formed when it is bound at the start of a block of
    /// its own that has the size the device asked for and comes from a
    /// memory type the image allows.
    pub open spec fn wf(&self) -> bool {
        &&& self.object.requirements matches Some(requirements)
        &&& self.memory.size == requirements.size
        &&& MemoryTypeMask(requirements.memory_type_bits).contains(self.memory.type_index)
        &&& self.object.binding == Some(
            MemoryBinding { memory: self.memory.raw_handle(), offset: 0 },
        )
    }

    /// Creates a two-dimensional image and binds it to memory of its own
    /// from a type in `memory_type_mask`.
    pub fn create_2d<D: Device>(
        gpu: &mut Gpu<D>,
        size: (u32, u32),
        mip_levels: u32,
        format: i32,
        samples: u32,
        usage: u32,
        memory_type_mask: MemoryTypeMask,
    ) -> (created: Result<Self, Error>)
        ensures
            final(gpu).memory_types == old(gpu).memory_types,
            final(gpu).requests() == old(gpu).requests(),
            created matches Err(e) ==> e == Error::NoCompatibleMemoryType || e is Vk,
            created matches Ok(image) ==> {
                &&& image.wf()
                &&& image.object.info == image_info_2d(
                    size.0,
                    size.1,
                    mip_levels,
                    format,
                    samples,
                    usage,
                )
                &&& memory_type_mask.contains(image.memory.type_index)
                &&& image.memory.type_index.0 < old(gpu).memory_types@.len()
            },
            forall|k: ObjectKind| #[trigger]
                final(gpu).live(k) == old(gpu).live(k) + (if created is Ok {
                    Self::footprint(k)
                } else {
                    0
                }),
    {
        let object = ImageObject::create_2d(gpu, size, mip_levels, format, samples, usage)?;
        Self::create(gpu, object, memory_type_mask)
    }

    /// Gives `object` memory of its own: a block of the size the device
    /// asks for, from the lowest memory type that both the image and
    /// `memory_type_mask` allow, bound at offset 0. If any step fails, the
    /// image and what the earlier steps made are destroyed.
    pub fn create<D: Device>(
        gpu: &mut Gpu<D>,
        object: ImageObject,
        memory_type_mask: MemoryTypeMask,
    ) -> (created: Result<Self, Error>)
        requires
            object.binding is None,
        ensures
            final(gpu).memory_types == old(gpu).memory_types,
            final(gpu).requests() == old(gpu).requests(),
            created matches Err(e) ==> e == Error::NoCompatibleMemoryType || e is Vk,
            created matches Ok(image) ==> {
                &&& image.wf()
                &&& image.object.owner == object.owner
                &&& image.object.info == object.info
                &&& memory_type_mask.contains(image.memory.type_index)
                &&& image.memory.type_index.0 < old(gpu).memory_types@.len()
                &&& forall|i: MemoryTypeIndex|
                    #[trigger] memory_type_mask.contains(i) && MemoryTypeMask(
                        image.object.requirements->0.memory_type_bits,
                    ).contains(i) ==> image.memory.type_index.0 <= i.0
            },
            forall|k: ObjectKind| #[trigger]
                final(gpu).live(k) == old(gpu).live(k) + (if created is Ok {
                    one(ObjectKind::DeviceMemory, k)
                } else {
                    -one(ObjectKind::Image, k)
                }),
    {
        let mut object = object;
        let requirements = object.memory_requirements(gpu);
        let index = match select_memory_type(
            MemoryTypeMask(requirements.memory_type_bits),
            memory_type_mask,
        ) {
            Ok(index) => index,
            Err(e) => {
                object.destroy(gpu);
                return Err(e);
            },
        };
        let memory = match Memory::allocate(gpu, requirements.size, index) {
            Ok(memory) => memory,
            Err(e) => {
                object.destroy(gpu);
                return Err(e);
            },
        };
        match object.bind_memory(gpu, memory.as_raw()) {
            Ok(()) => Ok(Self { object, memory }),
            Err(e) => {
                memory.destroy(gpu);
                object.destroy(gpu);
                Err(e)
            },
        }
    }

    /// Destroys the image and frees its memory.
    pub fn destroy<D: Device>(self, gpu: &mut Gpu<D>)
        ensures
            final(gpu).memory_types == old(gpu).memory_types,
            final(gpu).requests() == old(gpu).requests(),
            forall|k: ObjectKind| #[trigger]
                final(gpu).live(k) == old(gpu).live(k) - Self::footprint(k),
    {
        self.object.destroy(gpu);
        self.memory.destroy(gpu);
    }
}

} // verus!
