use vstd::prelude::*;
use crate::device::backend::Device;
use crate::device::raw_handle::{one, AsRawHandle, Create, Destroy, Gpu, ObjectKind, Owned, RawHandle};
use crate::device::types::{
    DescriptorSetLayoutBinding, DESCRIPTOR_TYPE_COMBINED_IMAGE_SAMPLER,
    DESCRIPTOR_TYPE_UNIFORM_BUFFER,
};
use crate::error::{Error, VkError};

verus! {

/// The handle of a descriptor set layout.
#[derive(Clone, Copy, PartialEq, Eq, Structural, Debug)]
pub struct DescriptorSetLayoutHandle(pub u64);

impl RawHandle for DescriptorSetLayoutHandle {
    open spec fn kind() -> ObjectKind {
        ObjectKind::DescriptorSetLayout
    }
}

impl<'a, D: Device> Create<D, &'a [DescriptorSetLayoutBinding]> for DescriptorSetLayoutHandle {
    fn create(device: &mut D, bindings: &'a [DescriptorSetLayoutBinding]) -> core::result::Result<
        Self,
        VkError,
    > {
        device.create_descriptor_set_layout(bindings)
    }
}

impl<D: Device> Destroy<D> for DescriptorSetLayoutHandle {
    fn destroy(self, device: &mut D) {
        device.destroy_descriptor_set_layout(self)
    }
}

/// A binding of one descriptor of type `descriptor_type`.
pub open spec fn basic_binding(
    binding: u32,
    descriptor_type: i32,
    stage_flags: u32,
) -> DescriptorSetLayoutBinding {
    DescriptorSetLayoutBinding { binding, descriptor_type, descriptor_count: 1, stage_flags }
}

/// Collects the bindings of a descriptor set layout, one by one, in the
/// order they are added.
pub struct DescriptorSetLayoutBuilder {
    bindings: Vec<DescriptorSetLayoutBinding>,
}

impl View for DescriptorSetLayoutBuilder {
    type V = Seq<DescriptorSetLayoutBinding>;

    closed spec fn view(&self) -> Seq<DescriptorSetLayoutBinding> {
        self.bindings@
    }
}

impl DescriptorSetLayoutBuilder {
    /// A builder with no bindings.
    pub fn new() -> (builder: Self)
        ensures
            builder@ == Seq::<DescriptorSetLayoutBinding>::empty(),
    {
        Self { bindings: Vec::new() }
    }

    /// Creates the layout of the bindings added so far.
    pub fn build<D: Device>(self, gpu: &mut Gpu<D>) -> (built: Result<DescriptorSetLayout, Error>)
        ensures
            final(gpu).memory_types == old(gpu).memory_types,
            final(gpu).requests() == old(gpu).requests(),
            built matches Err(e) ==> e is Vk,
            built matches Ok(layout) ==> layout@ == self@,
            forall|k: ObjectKind| #[trigger]
                final(gpu).live(k) == old(gpu).live(k) + (if built is Ok {
                    one(ObjectKind::DescriptorSetLayout, k)
                } else {
                    0
                }),
    {
        DescriptorSetLayout::create(gpu, self.bindings.as_slice())
    }

    /// Adds one uniform buffer at `binding`, visible to `stages`.
    pub fn add_uniform_buffer(self, binding: u32, stages: u32) -> (builder: Self)
        ensures
            builder@ == self@.push(basic_binding(binding, DESCRIPTOR_TYPE_UNIFORM_BUFFER, stages)),
    {
        self.add_basic(binding, DESCRIPTOR_TYPE_UNIFORM_BUFFER, stages)
    }

    /// Adds one combined image and sampler at `binding`, visible to
    /// `stages`.
    pub fn add_combined_image_sampler(self, binding: u32, stages: u32) -> (builder: Self)
        ensures
            builder@ == self@.push(
                basic_binding(binding, DESCRIPTOR_TYPE_COMBINED_IMAGE_SAMPLER, stages),
            ),
    {
        self.add_basic(binding, DESCRIPTOR_TYPE_COMBINED_IMAGE_SAMPLER, stages)
    }

    /// Adds one descriptor of type `descriptor_type` at `binding`, visible
    /// to `stage_flags`.
    pub fn add_basic(self, binding: u32, descriptor_type: i32, stage_flags: u32) -> (builder: Self)
        ensures
            builder@ == self@.push(basic_binding(binding, descriptor_type, stage_flags)),
    {
        self.add(
            DescriptorSetLayoutBinding { binding, descriptor_type, descriptor_count: 1, stage_flags },
        )
    }

    fn add(self, binding: DescriptorSetLayoutBinding) -> (builder: Self)
        ensures
            builder@ == self@.push(binding),
    {
        let mut builder = self;
        builder.bindings.push(binding);
        builder
    }
}

/// An owned descriptor set layout: the bindings that sets of this layout
/// have, in declaration order. It does not change once created.
pub struct DescriptorSetLayout {
    owner: Owned<DescriptorSetLayoutHandle>,
    bindings: Vec<DescriptorSetLayoutBinding>,
}

impl View for DescriptorSetLayout {
    type V = Seq<DescriptorSetLayoutBinding>;

    closed spec fn view(&self) -> Seq<DescriptorSetLayoutBinding> {
        self.bindings@
    }
}

impl AsRawHandle<DescriptorSetLayoutHandle> for DescriptorSetLayout {
    closed spec fn raw_handle(&self) -> DescriptorSetLayoutHandle {
        self.owner.raw_handle()
    }

    fn as_raw(&self) -> (raw: DescriptorSetLayoutHandle) {
        self.owner.as_raw()
    }
}

impl DescriptorSetLayout {
    /// A builder with no bindings.
    pub fn builder() -> (builder: DescriptorSetLayoutBuilder)
        ensures
            builder@ == Seq::<DescriptorSetLayoutBinding>::empty(),
    {
        DescriptorSetLayoutBuilder::new()
    }

    /// Creates the layout with the given bindings.
    pub fn create<D: Device>(gpu: &mut Gpu<D>, bindings: &[DescriptorSetLayoutBinding]) -> (created:
        Result<Self, Error>)
        ensures
            final(gpu).memory_types == old(gpu).memory_types,
            final(gpu).requests() == old(gpu).requests(),
            created matches Err(e) ==> e is Vk,
            created matches Ok(layout) ==> layout@ == bindings@,
            forall|k: ObjectKind| #[trigger]
                final(gpu).live(k) == old(gpu).live(k) + (if created is Ok {
                    one(ObjectKind::DescriptorSetLayout, k)
                } else {
                    0
                }),
    {
        match Owned::<DescriptorSetLayoutHandle>::create(gpu, bindings) {
            Ok(owner) => Ok(Self { owner, bindings: vstd::slice::slice_to_vec(bindings) }),
            Err(e) => Err(e),
        }
    }

    /// The bindings of the layout.
    pub fn bindings(&self) -> (bindings: &[DescriptorSetLayoutBinding])
        ensures
            bindings@ == self@,
    {
        self.bindings.as_slice()
    }

    /// Destroys the layout.
    pub fn destroy<D: Device>(self, gpu: &mut Gpu<D>)
        ensures
            final(gpu).memory_types == old(gpu).memory_types,
            final(gpu).requests() == old(gpu).requests(),
            forall|k: ObjectKind| #[trigger]
                final(gpu).live(k) == old(gpu).live(k) - one(ObjectKind::DescriptorSetLayout, k),
    {
        self.owner.destroy(gpu);
    }
}

} // verus!
