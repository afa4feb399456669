use vstd::prelude::*;
use crate::device::backend::Device;
use crate::device::buffer::BufferHandle;
use crate::device::descriptor_set_layout::DescriptorSetLayout;
use crate::device::image_view::ImageViewHandle;
use crate::device::raw_handle::{
    one, AsRawHandle, Create, Destroy, Gpu, ObjectKind, Owned, RawHandle, SamplerHandle,
};
use crate::device::types::{
    DescriptorPoolSize, DescriptorSetLayoutBinding, WriteDescriptor,
    DESCRIPTOR_TYPE_COMBINED_IMAGE_SAMPLER, DESCRIPTOR_TYPE_SAMPLER, IMAGE_LAYOUT_UNDEFINED,
};
use crate::error::{Error, VkError};

verus! {

/// The handle of a descriptor pool.
#[derive(Clone, Copy, PartialEq, Eq, Structural, Debug)]
pub struct DescriptorPoolHandle(pub u64);

impl RawHandle for DescriptorPoolHandle {
    open spec fn kind() -> ObjectKind {
        ObjectKind::DescriptorPool
    }
}

/// The parameters a descriptor pool is created from.
pub struct DescriptorPoolInfo<'a> {
    pub max_sets: u32,
    pub pool_sizes: &'a [DescriptorPoolSize],
}

impl<'a, D: Device> Create<D, DescriptorPoolInfo<'a>> for DescriptorPoolHandle {
    fn create(device: &mut D, info: DescriptorPoolInfo<'a>) -> core::result::Result<Self, VkError> {
        device.create_descriptor_pool(info.max_sets, info.pool_sizes)
    }
}

impl<D: Device> Destroy<D> for DescriptorPoolHandle {
    fn destroy(self, device: &mut D) {
        device.destroy_descriptor_pool(self)
    }
}

/// The number of descriptors of type `ty` that `sizes` adds up to.
pub open spec fn descriptors_of_type(sizes: Seq<DescriptorPoolSize>, ty: i32) -> nat
    decreases sizes.len(),
{
    if sizes.len() == 0 {
        0
    } else {
        descriptors_of_type(sizes.drop_last(), ty) + (if sizes.last().ty == ty {
            sizes.last().descriptor_count as nat
        } else {
            0
        })
    }
}

/// What a set of the given bindings takes from a pool: for each binding its
/// type and its number of descriptors.
pub open spec fn binding_sizes(bindings: Seq<DescriptorSetLayoutBinding>) -> Seq<DescriptorPoolSize> {
    Seq::new(
        bindings.len(),
        |i: int|
            DescriptorPoolSize {
                ty: bindings[i].descriptor_type,
                descriptor_count: bindings[i].descriptor_count,
            },
    )
}

/// Sizes put one after the other add up.
pub proof fn lemma_descriptors_of_type_concat(a: Seq<DescriptorPoolSize>, b: Seq<DescriptorPoolSize>, ty: i32)
    ensures
        descriptors_of_type(a + b, ty) == descriptors_of_type(a, ty) + descriptors_of_type(b, ty),
    decreases b.len(),
{
    if b.len() == 0 {
        assert(a + b =~= a);
    } else {
        assert((a + b).drop_last() =~= a + b.drop_last());
        lemma_descriptors_of_type_concat(a, b.drop_last(), ty);
    }
}

proof fn lemma_descriptors_of_type_bounded(sizes: Seq<DescriptorPoolSize>, ty: i32)
    ensures
        descriptors_of_type(sizes, ty) <= sizes.len() * 0xffff_ffff,
    decreases sizes.len(),
{
    if sizes.len() != 0 {
        lemma_descriptors_of_type_bounded(sizes.drop_last(), ty);
    }
}

fn count_descriptors(sizes: &[DescriptorPoolSize], ty: i32) -> (total: u128)
    ensures
        total == descriptors_of_type(sizes@, ty),
{
    let mut total: u128 = 0;
    let mut index: usize = 0;
    while index < sizes.len()
        invariant
            index <= sizes@.len(),
            total == descriptors_of_type(sizes@.take(index as int), ty),
            total <= index * 0xffff_ffff,
        decreases sizes@.len() - index,
    {
        proof {
            assert(sizes@.take(index + 1).drop_last() =~= sizes@.take(index as int));
        }
        if sizes[index].ty == ty {
            total = total + sizes[index].descriptor_count as u128;
        }
        index = index + 1;
    }
    proof {
        assert(sizes@.take(index as int) =~= sizes@);
    }
    total
}

/// An owned descriptor pool of fixed capacity: at most `max_sets` sets and,
/// of each descriptor type, at most as many descriptors as its sizes add up
/// to. The pool keeps count of what has been allocated from it; it never
/// grows.
pub struct DescriptorPool {
    owner: Owned<DescriptorPoolHandle>,
    max_sets: u32,
    sets: u32,
    sizes: Vec<DescriptorPoolSize>,
    taken: Vec<DescriptorPoolSize>,
}

impl AsRawHandle<DescriptorPoolHandle> for DescriptorPool {
    closed spec fn raw_handle(&self) -> DescriptorPoolHandle {
        self.owner.raw_handle()
    }

    fn as_raw(&self) -> (raw: DescriptorPoolHandle) {
        self.owner.as_raw()
    }
}

impl DescriptorPool {
    /// The largest number of sets the pool gives out.
    pub closed spec fn max_sets(&self) -> u32 {
        self.max_sets
    }

    /// The number of sets given out so far.
    pub closed spec fn sets_allocated(&self) -> u32 {
        self.sets
    }

    /// The number of descriptors of type `ty` the pool was sized for.
    pub closed spec fn capacity(&self, ty: i32) -> nat {
        descriptors_of_type(self.sizes@, ty)
    }

    /// The number of descriptors of type `ty` given out so far.
    pub closed spec fn used(&self, ty: i32) -> nat {
        descriptors_of_type(self.taken@, ty)
    }

    /// Whether a set with `bindings` still fits: a set is left, and for
    /// every descriptor type the pool has as many descriptors left as the
    /// set holds.
    pub open spec fn has_room_for(&self, bindings: Seq<DescriptorSetLayoutBinding>) -> bool {
        &&& self.sets_allocated() < self.max_sets()
        &&& forall|ty: i32|
            self.used(ty) + #[trigger] descriptors_of_type(binding_sizes(bindings), ty)
                <= self.capacity(ty)
    }

    /// A pool never holds more than it was sized for.
    #[verifier::type_invariant]
    spec fn inv(self) -> bool {
        &&& self.sets <= self.max_sets
        &&& forall|ty: i32|
            #[trigger] descriptors_of_type(self.taken@, ty) <= descriptors_of_type(
                self.sizes@,
                ty,
            )
    }

    /// Creates a pool for at most `max_sets` sets and the given numbers of
    /// descriptors. Nothing is allocated from it yet.
    pub fn create<D: Device>(gpu: &mut Gpu<D>, max_sets: u32, pool_sizes: &[DescriptorPoolSize]) -> (created:
        Result<DescriptorPool, Error>)
        ensures
            final(gpu).memory_types == old(gpu).memory_types,
            final(gpu).requests() == old(gpu).requests(),
            created matches Err(e) ==> e is Vk,
            created matches Ok(pool) ==> {
                &&& pool.max_sets() == max_sets
                &&& pool.sets_allocated() == 0
                &&& forall|ty: i32| #[trigger] pool.capacity(ty) == descriptors_of_type(pool_sizes@, ty)
                &&& forall|ty: i32| #[trigger] pool.used(ty) == 0
            },
            forall|k: ObjectKind| #[trigger]
                final(gpu).live(k) == old(gpu).live(k) + (if created is Ok {
                    one(ObjectKind::DescriptorPool, k)
                } else {
                    0
                }),
    {
        match Owned::<DescriptorPoolHandle>::create(gpu, DescriptorPoolInfo { max_sets, pool_sizes }) {
            Ok(owner) => {
                let taken: Vec<DescriptorPoolSize> = Vec::new();
                Ok(
                    Self {
                        owner,
                        max_sets,
                        sets: 0,
                        sizes: vstd::slice::slice_to_vec(pool_sizes),
                        taken,
                    },
                )
            },
            Err(e) => Err(e),
        }
    }

    /// Whether a set of `layout` still fits in the pool.
    pub fn fits(&self, layout: &DescriptorSetLayout) -> (fits: bool)
        ensures
            fits == self.has_room_for(layout@),
    {
        proof {
            use_type_invariant(self);
        }
        if self.sets >= self.max_sets {
            return false;
        }
        let bindings = layout.bindings();
        let ghost needs = binding_sizes(bindings@);
        let mut needed: Vec<DescriptorPoolSize> = Vec::new();
        let mut index: usize = 0;
        while index < bindings.len()
            invariant
                index <= bindings@.len(),
                needed@ == needs.take(index as int),
                needs == binding_sizes(bindings@),
            decreases bindings@.len() - index,
        {
            needed.push(
                DescriptorPoolSize {
                    ty: bindings[index].descriptor_type,
                    descriptor_count: bindings[index].descriptor_count,
                },
            );
            proof {
                assert(needed@ =~= needs.take(index + 1));
            }
            index = index + 1;
        }
        proof {
            assert(needs.take(index as int) =~= needs);
        }
        let mut checked: usize = 0;
        while checked < needed.len()
            invariant
                checked <= needed@.len(),
                needed@ == needs,
                needs == binding_sizes(layout@),
                forall|ty: i32|
                    descriptors_of_type(self.taken@, ty) <= #[trigger] descriptors_of_type(
                        self.sizes@,
                        ty,
                    ),
                forall|j: int|
                    0 <= j < checked ==> descriptors_of_type(self.taken@, #[trigger] needs[j].ty)
                        + descriptors_of_type(needs, needs[j].ty) <= descriptors_of_type(
                        self.sizes@,
                        needs[j].ty,
                    ),
            decreases needed@.len() - checked,
        {
            let ty = needed[checked].ty;
            let used = count_descriptors(self.taken.as_slice(), ty);
            let need = count_descriptors(needed.as_slice(), ty);
            let capacity = count_descriptors(self.sizes.as_slice(), ty);
            let taken_entries: usize = self.taken.len();
            let needed_entries: usize = needed.len();
            proof {
                lemma_descriptors_of_type_bounded(self.taken@, ty);
                lemma_descriptors_of_type_bounded(needed@, ty);
                assert(used <= taken_entries * 0xffff_ffff);
                assert(need <= needed_entries * 0xffff_ffff);
            }
            if used + need > capacity {
                proof {
                    assert(!(self.used(ty) + descriptors_of_type(binding_sizes(layout@), ty)
                        <= self.capacity(ty)));
                }
                return false;
            }
            checked = checked + 1;
        }
        proof {
            assert forall|ty: i32|
                self.used(ty) + #[trigger] descriptors_of_type(needs, ty) <= self.capacity(
                    ty,
                ) by {
                lemma_absent_type_needs_nothing(needs, ty);
                if exists|j: int| 0 <= j < needs.len() && needs[j].ty == ty {
                    let j = choose|j: int| 0 <= j < needs.len() && needs[j].ty == ty;
                    assert(descriptors_of_type(self.taken@, needs[j].ty) + descriptors_of_type(
                        needs,
                        needs[j].ty,
                    ) <= descriptors_of_type(self.sizes@, needs[j].ty));
                }
            }
        }
        true
    }

    /// Allocates a set of `layout` from the pool. It fails with
    /// `PoolExhausted`, without asking the device, exactly when the set does
    /// not fit; then, and when the device refuses, the pool's counts stay as
    /// they were.
    pub fn allocate<D: Device>(&mut self, gpu: &mut Gpu<D>, layout: &DescriptorSetLayout) -> (allocated:
        Result<DescriptorSet, Error>)
        ensures
            final(gpu).same_objects(old(gpu)),
            final(self).raw_handle() == old(self).raw_handle(),
            final(self).max_sets() == old(self).max_sets(),
            forall|ty: i32| #[trigger] final(self).capacity(ty) == old(self).capacity(ty),
            !old(self).has_room_for(layout@) <==> allocated == Err::<DescriptorSet, Error>(
                Error::PoolExhausted,
            ),
            allocated matches Err(e) ==> e == Error::PoolExhausted || e is Vk,
            allocated matches Err(_) ==> {
                &&& final(self).sets_allocated() == old(self).sets_allocated()
                &&& forall|ty: i32| #[trigger] final(self).used(ty) == old(self).used(ty)
            },
            allocated matches Ok(set) ==> {
                &&& final(self).sets_allocated() == old(self).sets_allocated() + 1
                &&& forall|ty: i32| #[trigger]
                    final(self).used(ty) == old(self).used(ty) + descriptors_of_type(
                        binding_sizes(layout@),
                        ty,
                    )
                &&& set@ == Map::<u32, WriteDescriptor>::empty()
            },
    {
        if !self.fits(layout) {
            return Err(Error::PoolExhausted);
        }
        proof {
            use_type_invariant(&*self);
        }
        match gpu.device.allocate_descriptor_set(self.owner.as_raw(), layout.as_raw()) {
            Ok(handle) => {
                let bindings = layout.bindings();
                let ghost needs = binding_sizes(bindings@);
                let mut taken: Vec<DescriptorPoolSize> = Vec::new();
                let mut index: usize = 0;
                while index < self.taken.len()
                    invariant
                        index <= self.taken@.len(),
                        taken@ == self.taken@.take(index as int),
                    decreases self.taken@.len() - index,
                {
                    taken.push(self.taken[index]);
                    proof {
                        assert(taken@ =~= self.taken@.take(index + 1));
                    }
                    index = index + 1;
                }
                proof {
                    assert(self.taken@.take(index as int) =~= self.taken@);
                }
                let mut added: usize = 0;
                while added < bindings.len()
                    invariant
                        added <= bindings@.len(),
                        needs == binding_sizes(bindings@),
                        taken@ == self.taken@ + needs.take(added as int),
                    decreases bindings@.len() - added,
                {
                    taken.push(
                        DescriptorPoolSize {
                            ty: bindings[added].descriptor_type,
                            descriptor_count: bindings[added].descriptor_count,
                        },
                    );
                    proof {
                        assert(taken@ =~= self.taken@ + needs.take(added + 1));
                    }
                    added = added + 1;
                }
                proof {
                    assert(needs.take(added as int) =~= needs);
                    assert forall|ty: i32|
                        #[trigger] descriptors_of_type(taken@, ty) == descriptors_of_type(
                            self.taken@,
                            ty,
                        ) + descriptors_of_type(needs, ty) by {
                        lemma_descriptors_of_type_concat(self.taken@, needs, ty);
                    }
                    assert forall|ty: i32|
                        #[trigger] descriptors_of_type(taken@, ty) <= descriptors_of_type(
                            self.sizes@,
                            ty,
                        ) by {
                        assert(self.used(ty) + descriptors_of_type(needs, ty) <= self.capacity(ty));
                    }
                }
                self.taken = taken;
                self.sets = self.sets + 1;
                Ok(DescriptorSet { handle, written: Ghost(Map::empty()) })
            },
            Err(code) => Err(Error::Vk(code)),
        }
    }

    /// Destroys the pool, and with it every set allocated from it.
    pub fn destroy<D: Device>(self, gpu: &mut Gpu<D>)
        ensures
            final(gpu).memory_types == old(gpu).memory_types,
            final(gpu).requests() == old(gpu).requests(),
            forall|k: ObjectKind| #[trigger]
                final(gpu).live(k) == old(gpu).live(k) - one(ObjectKind::DescriptorPool, k),
    {
        self.owner.destroy(gpu);
    }
}

proof fn lemma_absent_type_needs_nothing(sizes: Seq<DescriptorPoolSize>, ty: i32)
    ensures
        (forall|j: int| 0 <= j < sizes.len() ==> sizes[j].ty != ty) ==> descriptors_of_type(
            sizes,
            ty,
        ) == 0,
    decreases sizes.len(),
{
    if sizes.len() != 0 {
        lemma_absent_type_needs_nothing(sizes.drop_last(), ty);
    }
}

/// The handle of a descriptor set.
#[derive(Clone, Copy, PartialEq, Eq, Structural, Debug)]
pub struct DescriptorSetHandle(pub u64);

/// A descriptor set allocated from a pool; it lives as long as the pool.
/// Its view is what has been written to it: for each binding written so
/// far, the last write.
pub struct DescriptorSet {
    handle: DescriptorSetHandle,
    written: Ghost<Map<u32, WriteDescriptor>>,
}

impl View for DescriptorSet {
    type V = Map<u32, WriteDescriptor>;

    closed spec fn view(&self) -> Map<u32, WriteDescriptor> {
        self.written@
    }
}

impl DescriptorSet {
    /// The handle of the set.
    pub closed spec fn handle(&self) -> DescriptorSetHandle {
        self.handle
    }

    /// The handle of the set.
    pub fn as_raw(&self) -> (raw: DescriptorSetHandle)
        ensures
            raw == self.handle(),
    {
        self.handle
    }

    /// Points `binding` at `size` bytes of `buffer` from `offset` on.
    pub fn update_buffer<D: Device>(
        &mut self,
        gpu: &mut Gpu<D>,
        binding: u32,
        ty: i32,
        buffer: BufferHandle,
        offset: u64,
        size: u64,
    )
        ensures
            final(gpu).same_objects(old(gpu)),
            final(self).handle() == old(self).handle(),
            final(self)@ == old(self)@.insert(
                binding,
                WriteDescriptor::Buffer {
                    set: old(self).handle(),
                    binding,
                    descriptor_type: ty,
                    buffer,
                    offset,
                    range: size,
                },
            ),
    {
        let write = WriteDescriptor::Buffer {
            set: self.handle,
            binding,
            descriptor_type: ty,
            buffer,
            offset,
            range: size,
        };
        gpu.device.update_descriptor_set(&write);
        proof {
            self.written@ = self.written@.insert(binding, write);
        }
    }

    /// Points `binding` at `image_view` in `layout`, without a sampler.
    pub fn update_image<D: Device>(
        &mut self,
        gpu: &mut Gpu<D>,
        binding: u32,
        image_view: ImageViewHandle,
        layout: i32,
    )
        ensures
            final(gpu).same_objects(old(gpu)),
            final(self).handle() == old(self).handle(),
            final(self)@ == old(self)@.insert(
                binding,
                WriteDescriptor::Image {
                    set: old(self).handle(),
                    binding,
                    descriptor_type: DESCRIPTOR_TYPE_SAMPLER,
                    sampler: SamplerHandle(0),
                    image_view,
                    image_layout: layout,
                },
            ),
    {
        self.update_image_impl(
            gpu,
            binding,
            DESCRIPTOR_TYPE_SAMPLER,
            SamplerHandle(0),
            image_view,
            layout,
        )
    }

    /// Points `binding` at `sampler`, without an image.
    pub fn update_sampler<D: Device>(&mut self, gpu: &mut Gpu<D>, binding: u32, sampler: SamplerHandle)
        ensures
            final(gpu).same_objects(old(gpu)),
            final(self).handle() == old(self).handle(),
            final(self)@ == old(self)@.insert(
                binding,
                WriteDescriptor::Image {
                    set: old(self).handle(),
                    binding,
                    descriptor_type: DESCRIPTOR_TYPE_SAMPLER,
                    sampler,
                    image_view: ImageViewHandle(0),
                    image_layout: IMAGE_LAYOUT_UNDEFINED,
                },
            ),
    {
        self.update_image_impl(
            gpu,
            binding,
            DESCRIPTOR_TYPE_SAMPLER,
            sampler,
            ImageViewHandle(0),
            IMAGE_LAYOUT_UNDEFINED,
        )
    }

    /// Points `binding` at `image_view` in `image_layout`, sampled through
    /// `sampler`.
    pub fn update_combined_image_sampler<D: Device>(
        &mut self,
        gpu: &mut Gpu<D>,
        binding: u32,
        sampler: SamplerHandle,
        image_view: ImageViewHandle,
        image_layout: i32,
    )
        ensures
            final(gpu).same_objects(old(gpu)),
            final(self).handle() == old(self).handle(),
            final(self)@ == old(self)@.insert(
                binding,
                WriteDescriptor::Image {
                    set: old(self).handle(),
                    binding,
                    descriptor_type: DESCRIPTOR_TYPE_COMBINED_IMAGE_SAMPLER,
                    sampler,
                    image_view,
                    image_layout,
                },
            ),
    {
        self.update_image_impl(
            gpu,
            binding,
            DESCRIPTOR_TYPE_COMBINED_IMAGE_SAMPLER,
            sampler,
            image_view,
            image_layout,
        )
    }

    fn update_image_impl<D: Device>(
        &mut self,
        gpu: &mut Gpu<D>,
        binding: u32,
        ty: i32,
        sampler: SamplerHandle,
        image_view: ImageViewHandle,
        image_layout: i32,
    )
        ensures
            final(gpu).same_objects(old(gpu)),
            final(self).handle() == old(self).handle(),
            final(self)@ == old(self)@.insert(
                binding,
                WriteDescriptor::Image {
                    set: old(self).handle(),
                    binding,
                    descriptor_type: ty,
                    sampler,
                    image_view,
                    image_layout,
                },
            ),
    {
        let write = WriteDescriptor::Image {
            set: self.handle,
            binding,
            descriptor_type: ty,
            sampler,
            image_view,
            image_layout,
        };
        gpu.device.update_descriptor_set(&write);
        proof {
            self.written@ = self.written@.insert(binding, write);
        }
    }
}

} // verus!
