use vstd::prelude::*;
use vstd::std_specs::ops::BitAndSpecImpl;
use vstd::std_specs::ops::BitOrSpecImpl;
use crate::device::backend::Device;
use crate::device::raw_handle::{
    one, AsRawHandle, Create, Destroy, Gpu, ObjectKind, Owned, RawHandle, Request,
};
use crate::device::types::{
    MemoryAllocateInfo, MAX_MEMORY_TYPES, MEMORY_PROPERTY_HOST_COHERENT,
    MEMORY_PROPERTY_HOST_VISIBLE,
};
use crate::error::{Error, VkError};

verus! {

/// The index of one of the device's memory types.
#[derive(Default, Debug, Copy, Clone, Ord, PartialOrd, Eq, PartialEq, Structural)]
pub struct MemoryTypeIndex(pub u32);

/// The memory types a device enumerates, each with its property flags, in
/// the device's order. There are at most 32 of them.
pub struct MemoryTypes {
    flags: Vec<u32>,
}

impl View for MemoryTypes {
    type V = Seq<u32>;

    closed spec fn view(&self) -> Seq<u32> {
        self.flags@
    }
}

impl MemoryTypes {
    /// At most one memory type per bit of a mask.
    #[verifier::type_invariant]
    spec fn inv(self) -> bool {
        self.flags@.len() <= MAX_MEMORY_TYPES
    }

    /// The registry of the given property flags, one entry per memory type.
    /// There is none for more types than a mask has bits.
    pub fn new(flags: Vec<u32>) -> (types: Option<Self>)
        ensures
            types is Some <==> flags@.len() <= MAX_MEMORY_TYPES,
            types is Some ==> types->0@ == flags@,
    {
        if flags.len() <= 32 {
            Some(MemoryTypes { flags })
        } else {
            None
        }
    }

    /// The number of memory types.
    pub fn count(&self) -> (n: u32)
        ensures
            n == self@.len(),
            n <= MAX_MEMORY_TYPES,
    {
        proof {
            use_type_invariant(self);
        }
        self.flags.len() as u32
    }

}

/// Whether the flag set `have` holds every flag of `want`.
pub open spec fn flags_contain(have: u32, want: u32) -> bool {
    have & want == want
}

impl MemoryTypeIndex {
    /// Whether the device enumerates a memory type with this index.
    pub fn is_valid(self, types: &MemoryTypes) -> (valid: bool)
        ensures
            valid == (self.0 < types@.len()),
    {
        self.0 < types.count()
    }

    /// The property flags of this memory type, and no flags for an index
    /// the device does not enumerate.
    pub fn property_flags(self, types: &MemoryTypes) -> (flags: u32)
        ensures
            flags == (if self.0 < types@.len() { types@[self.0 as int] } else { 0 }),
    {
        if self.is_valid(types) {
            types.flags[self.0 as usize]
        } else {
            0
        }
    }
}

/// A set of memory type indices, one bit per index.
#[derive(Default, Debug, Copy, Clone, Eq, PartialEq, Structural)]
pub struct MemoryTypeMask(pub u32);

/// Whether bit `index` of `bits` is set. No bit is set at 32 or above.
pub open spec fn bit_set(bits: u32, index: u32) -> bool {
    index < 32 && (bits >> index) & 1 == 1
}

proof fn lemma_bit_and(a: u32, b: u32, i: u32)
    by (bit_vector)
    requires
        i < 32,
    ensures
        (((a & b) >> i) & 1 == 1) <==> (((a >> i) & 1 == 1) && ((b >> i) & 1 == 1)),
{
}

proof fn lemma_bit_or(a: u32, b: u32, i: u32)
    by (bit_vector)
    requires
        i < 32,
    ensures
        (((a | b) >> i) & 1 == 1) <==> (((a >> i) & 1 == 1) || ((b >> i) & 1 == 1)),
{
}

proof fn lemma_bit_single(index: u32, i: u32)
    by (bit_vector)
    requires
        index < 32,
        i < 32,
    ensures
        (((1u32 << index) >> i) & 1 == 1) <==> i == index,
{
}

proof fn lemma_bit_none(i: u32)
    by (bit_vector)
    requires
        i < 32,
    ensures
        (0u32 >> i) & 1 == 0,
        (0xffff_ffffu32 >> i) & 1 == 1,
{
}

impl MemoryTypeMask {
    /// Whether `index` is in the set.
    pub open spec fn contains(self, index: MemoryTypeIndex) -> bool {
        bit_set(self.0, index.0)
    }

    /// Whether the set has no index at all.
    pub open spec fn is_empty(self) -> bool {
        self.0 == 0
    }

    /// A set is empty exactly when it contains no index.
    pub proof fn lemma_empty_contains_nothing(self)
        ensures
            self.is_empty() <==> forall|i: MemoryTypeIndex| !(#[trigger] self.contains(i)),
    {
        if self.0 == 0 {
            assert forall|i: MemoryTypeIndex| !(#[trigger] self.contains(i)) by {
                if i.0 < 32 {
                    lemma_bit_none(i.0);
                }
            }
        }
        if self.0 != 0 {
            vstd::std_specs::bits::axiom_u32_trailing_zeros(self.0);
            let lowest = vstd::std_specs::bits::u32_trailing_zeros(self.0);
            assert(self.contains(MemoryTypeIndex(lowest)));
        }
    }

    /// The empty set.
    pub fn none() -> (mask: Self)
        ensures
            mask.0 == 0,
            forall|i: MemoryTypeIndex| !(#[trigger] mask.contains(i)),
    {
        proof {
            MemoryTypeMask(0).lemma_empty_contains_nothing();
        }
        Self(0)
    }

    /// The set of all thirty-two indices.
    pub fn any() -> (mask: Self)
        ensures
            mask.0 == 0xffff_ffffu32,
            forall|i: MemoryTypeIndex| #[trigger] mask.contains(i) <==> i.0 < 32,
    {
        proof {
            assert(!0u32 == 0xffff_ffffu32) by (bit_vector);
            assert forall|i: MemoryTypeIndex| #[trigger]
                MemoryTypeMask(0xffff_ffffu32).contains(i) <==> i.0 < 32 by {
                if i.0 < 32 {
                    lemma_bit_none(i.0);
                }
            }
        }
        Self(!0)
    }

    /// The set that holds `index` and nothing else.
    pub fn from_index(index: MemoryTypeIndex) -> (mask: Self)
        requires
            index.0 < 32,
        ensures
            mask.0 == 1u32 << index.0,
            forall|i: MemoryTypeIndex| #[trigger] mask.contains(i) <==> i == index,
    {
        proof {
            assert forall|i: MemoryTypeIndex| #[trigger]
                MemoryTypeMask(1u32 << index.0).contains(i) <==> i == index by {
                if i.0 < 32 {
                    lemma_bit_single(index.0, i.0);
                }
            }
        }
        Self(1 << index.0)
    }

    /// The memory types whose property flags hold every flag of `flags`.
    pub fn with_properties(types: &MemoryTypes, flags: u32) -> (mask: Self)
        ensures
            forall|i: MemoryTypeIndex|
                #[trigger] mask.contains(i) <==> (i.0 < types@.len() && flags_contain(
                    types@[i.0 as int],
                    flags,
                )),
    {
        let mut mask = Self::none();
        let count = types.count();
        let mut index: u32 = 0;
        while index < count
            invariant
                index <= count,
                count == types@.len(),
                count <= 32,
                forall|i: MemoryTypeIndex|
                    #[trigger] mask.contains(i) <==> (i.0 < index && flags_contain(
                        types@[i.0 as int],
                        flags,
                    )),
            decreases count - index,
        {
            let current = MemoryTypeIndex(index);
            let have = current.property_flags(types);
            if have & flags == flags {
                let single = Self::from_index(current);
                let added = mask | single;
                proof {
                    lemma_mask_algebra(mask, single);
                    assert forall|i: MemoryTypeIndex|
                        #[trigger] added.contains(i) <==> (i.0 < index + 1 && flags_contain(
                            types@[i.0 as int],
                            flags,
                        )) by {
                        assert(added.contains(i) <==> mask.contains(i) || single.contains(i));
                    }
                }
                mask = added;
            }
            index = index + 1;
        }
        mask
    }

    /// The memory types the host can map and that need no explicit flushing.
    pub fn mappable(types: &MemoryTypes) -> (mask: MemoryTypeMask)
        ensures
            forall|i: MemoryTypeIndex|
                #[trigger] mask.contains(i) <==> (i.0 < types@.len() && flags_contain(
                    types@[i.0 as int],
                    MEMORY_PROPERTY_HOST_VISIBLE | MEMORY_PROPERTY_HOST_COHERENT,
                )),
    {
        Self::with_properties(types, MEMORY_PROPERTY_HOST_VISIBLE | MEMORY_PROPERTY_HOST_COHERENT)
    }

    /// The lowest index in the set, and 32 for the empty set.
    pub fn first_index(self) -> (index: MemoryTypeIndex)
        ensures
            self.is_empty() <==> index.0 == 32,
            index.0 <= 32,
            !self.is_empty() ==> self.contains(index),
            forall|i: MemoryTypeIndex| i.0 < index.0 ==> !(#[trigger] self.contains(i)),
    {
        proof {
            vstd::std_specs::bits::axiom_u32_trailing_zeros(self.0);
            let tz = vstd::std_specs::bits::u32_trailing_zeros(self.0);
            assert forall|i: MemoryTypeIndex| i.0 < tz implies !(#[trigger] self.contains(i)) by {
                assert((self.0 >> i.0) & 1u32 == 0u32);
            }
        }
        MemoryTypeIndex(self.0.trailing_zeros())
    }
}

impl core::ops::BitAnd for MemoryTypeMask {
    type Output = Self;

    fn bitand(self, rhs: Self) -> (mask: Self) {
        Self(self.0 & rhs.0)
    }
}

impl BitAndSpecImpl for MemoryTypeMask {
    open spec fn obeys_bitand_spec() -> bool {
        true
    }

    open spec fn bitand_req(self, rhs: Self) -> bool {
        true
    }

    open spec fn bitand_spec(self, rhs: Self) -> Self {
        MemoryTypeMask(self.0 & rhs.0)
    }
}

impl core::ops::BitOr for MemoryTypeMask {
    type Output = Self;

    fn bitor(self, rhs: Self) -> (mask: Self) {
        Self(self.0 | rhs.0)
    }
}

impl BitOrSpecImpl for MemoryTypeMask {
    open spec fn obeys_bitor_spec() -> bool {
        true
    }

    open spec fn bitor_req(self, rhs: Self) -> bool {
        true
    }

    open spec fn bitor_spec(self, rhs: Self) -> Self {
        MemoryTypeMask(self.0 | rhs.0)
    }
}

/// An index is in an intersection exactly when it is in both sets, and in a
/// union exactly when it is in either.
pub proof fn lemma_mask_algebra(a: MemoryTypeMask, b: MemoryTypeMask)
    ensures
        forall|i: MemoryTypeIndex|
            #[trigger] MemoryTypeMask(a.0 & b.0).contains(i) <==> a.contains(i) && b.contains(i),
        forall|i: MemoryTypeIndex|
            #[trigger] MemoryTypeMask(a.0 | b.0).contains(i) <==> a.contains(i) || b.contains(i),
{
    assert forall|i: MemoryTypeIndex|
        #[trigger] MemoryTypeMask(a.0 & b.0).contains(i) <==> a.contains(i) && b.contains(i) by {
        if i.0 < 32 {
            lemma_bit_and(a.0, b.0, i.0);
        }
    }
    assert forall|i: MemoryTypeIndex|
        #[trigger] MemoryTypeMask(a.0 | b.0).contains(i) <==> a.contains(i) || b.contains(i) by {
        if i.0 < 32 {
            lemma_bit_or(a.0, b.0, i.0);
        }
    }
}

/// The memory type an allocation is made from: the lowest index that both the
/// resource (`required`) and the caller (`constraint`) allow. There is none,
/// and the request fails, exactly when the two masks share no index.
pub fn select_memory_type(required: MemoryTypeMask, constraint: MemoryTypeMask) -> (chosen: Result<
    MemoryTypeIndex,
    Error,
>)
    ensures
        chosen is Err <==> forall|i: MemoryTypeIndex|
            !(#[trigger] required.contains(i) && constraint.contains(i)),
        chosen is Err ==> chosen == Err::<MemoryTypeIndex, Error>(Error::NoCompatibleMemoryType),
        chosen matches Ok(index) ==> {
            &&& required.contains(index)
            &&& constraint.contains(index)
            &&& forall|i: MemoryTypeIndex|
                #[trigger] required.contains(i) && constraint.contains(i) ==> index.0 <= i.0
        },
{
    let both = required & constraint;
    let index = both.first_index();
    proof {
        lemma_mask_algebra(required, constraint);
        both.lemma_empty_contains_nothing();
        assert forall|i: MemoryTypeIndex|
            #[trigger] required.contains(i) && constraint.contains(i) implies index.0 <= i.0 by {
            assert(both.contains(i));
        }
        if both.is_empty() {
            assert forall|i: MemoryTypeIndex|
                !(#[trigger] required.contains(i) && constraint.contains(i)) by {
                assert(!both.contains(i));
            }
        } else {
            assert(both.contains(index));
            assert(required.contains(index) && constraint.contains(index));
        }
    }
    if index.0 >= 32 {
        Err(Error::NoCompatibleMemoryType)
    } else {
        Ok(index)
    }
}

/// Whether memory type `index` is enumerated and is both host-visible and
/// host-coherent.
pub open spec fn is_mappable(types: Seq<u32>, index: MemoryTypeIndex) -> bool {
    index.0 < types.len() && flags_contain(
        types[index.0 as int],
        MEMORY_PROPERTY_HOST_VISIBLE | MEMORY_PROPERTY_HOST_COHERENT,
    )
}

/// The handle of a device memory block.
#[derive(Clone, Copy, PartialEq, Eq, Structural, Debug)]
pub struct DeviceMemoryHandle(pub u64);

impl RawHandle for DeviceMemoryHandle {
    open spec fn kind() -> ObjectKind {
        ObjectKind::DeviceMemory
    }
}

impl<'a, D: Device> Create<D, &'a MemoryAllocateInfo> for DeviceMemoryHandle {
    fn create(device: &mut D, info: &'a MemoryAllocateInfo) -> core::result::Result<
        Self,
        VkError,
    > {
        device.allocate_memory(info.allocation_size, info.memory_type_index)
    }
}

impl<D: Device> Destroy<D> for DeviceMemoryHandle {
    fn destroy(self, device: &mut D) {
        device.free_memory(self)
    }
}

/// An owned block of device memory of a fixed size, taken from one memory
/// type.
pub struct Memory {
    pub owner: Owned<DeviceMemoryHandle>,
    pub size: u64,
    pub type_index: MemoryTypeIndex,
}

impl AsRawHandle<DeviceMemoryHandle> for Memory {
    open spec fn raw_handle(&self) -> DeviceMemoryHandle {
        self.owner.raw_handle()
    }

    fn as_raw(&self) -> (raw: DeviceMemoryHandle) {
        self.owner.as_raw()
    }
}

impl Memory {
    /// Allocates `size` bytes from the lowest memory type that `type_mask`
    /// allows and the host can map. Fails without asking the device when no
    /// such type exists.
    pub fn allocate_mappable<D: Device>(
        gpu: &mut Gpu<D>,
        size: u64,
        type_mask: MemoryTypeMask,
    ) -> (allocated: Result<Memory, Error>)
        ensures
            final(gpu).memory_types == old(gpu).memory_types,
            final(gpu).requests() == old(gpu).requests(),
            (forall|i: MemoryTypeIndex|
                !(#[trigger] type_mask.contains(i) && is_mappable(old(gpu).memory_types@, i)))
                <==> allocated == Err::<Memory, Error>(Error::NoCompatibleMemoryType),
            allocated matches Err(e) ==> e == Error::NoCompatibleMemoryType || e is Vk,
            allocated matches Ok(memory) ==> {
                &&& memory.size == size
                &&& type_mask.contains(memory.type_index)
                &&& is_mappable(old(gpu).memory_types@, memory.type_index)
                &&& forall|i: MemoryTypeIndex|
                    #[trigger] type_mask.contains(i) && is_mappable(old(gpu).memory_types@, i)
                        ==> memory.type_index.0 <= i.0
            },
            forall|k: ObjectKind| #[trigger]
                final(gpu).live(k) == old(gpu).live(k) + (if allocated is Ok {
                    one(ObjectKind::DeviceMemory, k)
                } else {
                    0
                }),
    {
        let mappable = MemoryTypeMask::mappable(&gpu.memory_types);
        match select_memory_type(type_mask, mappable) {
            Ok(index) => {
                proof {
                    assert(mappable.contains(index));
                    assert forall|i: MemoryTypeIndex|
                        #[trigger] type_mask.contains(i) && is_mappable(
                            old(gpu).memory_types@,
                            i,
                        ) implies index.0 <= i.0 by {
                        assert(mappable.contains(i));
                    }
                }
                Self::allocate(gpu, size, index)
            },
            Err(none) => {
                proof {
                    assert forall|i: MemoryTypeIndex|
                        !(#[trigger] type_mask.contains(i) && is_mappable(
                            old(gpu).memory_types@,
                            i,
                        )) by {
                        if type_mask.contains(i) {
                            assert(!mappable.contains(i));
                        }
                    }
                }
                Err(none)
            },
        }
    }

    /// Allocates `size` bytes from memory type `type_index`. An index that
    /// the device does not enumerate is refused without asking the device.
    pub fn allocate<D: Device>(gpu: &mut Gpu<D>, size: u64, type_index: MemoryTypeIndex) -> (allocated:
        Result<Memory, Error>)
        ensures
            final(gpu).memory_types == old(gpu).memory_types,
            final(gpu).requests() == old(gpu).requests(),
            type_index.0 >= old(gpu).memory_types@.len() <==> allocated == Err::<Memory, Error>(
                Error::NoCompatibleMemoryType,
            ),
            allocated matches Err(e) ==> e == Error::NoCompatibleMemoryType || e is Vk,
            allocated matches Ok(memory) ==> memory.size == size && memory.type_index
                == type_index,
            forall|k: ObjectKind| #[trigger]
                final(gpu).live(k) == old(gpu).live(k) + (if allocated is Ok {
                    one(ObjectKind::DeviceMemory, k)
                } else {
                    0
                }),
    {
        if !type_index.is_valid(&gpu.memory_types) {
            return Err(Error::NoCompatibleMemoryType);
        }
        let info = MemoryAllocateInfo { allocation_size: size, memory_type_index: type_index.0 };
        match Owned::<DeviceMemoryHandle>::create(gpu, &info) {
            Ok(owner) => Ok(Memory { owner, size, type_index }),
            Err(e) => Err(e),
        }
    }

    /// Opens a host view of `size` bytes of the block from `offset` on. The
    /// range must lie in the block. The view starts out as zeros with
    /// nothing written; what is written to it reaches the device when it is
    /// unmapped. An open view counts as live until it is unmapped.
    pub fn map<D: Device>(&self, gpu: &mut Gpu<D>, offset: u64, size: usize) -> (mapped: Result<
        MemoryMapping,
        Error,
    >)
        ensures
            final(gpu).memory_types == old(gpu).memory_types,
            final(gpu).requests() == old(gpu).requests(),
            forall|k: ObjectKind| #[trigger]
                final(gpu).live(k) == old(gpu).live(k) + (if mapped is Ok {
                    one(ObjectKind::Mapping, k)
                } else {
                    0
                }),
            offset + size > self.size <==> mapped == Err::<MemoryMapping, Error>(
                Error::MapOutOfRange,
            ),
            mapped matches Err(e) ==> e == Error::MapOutOfRange || e is Vk,
            mapped matches Ok(mapping) ==> {
                &&& mapping.memory() == self.raw_handle()
                &&& mapping.offset() == offset
                &&& mapping@ == Seq::new(size as nat, |i: int| 0u8)
                &&& mapping.stores() == Seq::<Request>::empty()
                &&& mapping.wf()
            },
    {
        if size as u64 > self.size || offset > self.size - size as u64 {
            return Err(Error::MapOutOfRange);
        }
        let memory = self.as_raw();
        match gpu.device.map_memory(memory, offset, size as u64) {
            Ok(()) => {
                gpu.ledger.add(Ghost(ObjectKind::Mapping), Ghost(1));
                let bytes = vec![0u8; size];
                assert(bytes@ =~= Seq::new(size as nat, |i: int| 0u8));
                let writes: Vec<(u64, Vec<u8>)> = Vec::new();
                let mapping = MemoryMapping { memory, offset, bytes, writes };
                assert(mapping.stores() =~= Seq::<Request>::empty());
                Ok(mapping)
            },
            Err(code) => Err(Error::Vk(code)),
        }
    }

    /// Stores `source` in the block at `offset`, through a mapping that
    /// lasts for this call.
    pub fn write<D: Device>(&self, gpu: &mut Gpu<D>, offset: u64, source: &[u8]) -> (written: Result<
        (),
        Error,
    >)
        ensures
            final(gpu).same_live(old(gpu)),
            offset + source@.len() > self.size <==> written == Err::<(), Error>(
                Error::MapOutOfRange,
            ),
            written matches Err(e) ==> e == Error::MapOutOfRange || e is Vk,
            final(gpu).requests() == (if written is Ok {
                old(gpu).requests().push(
                    Request::Store { memory: self.raw_handle(), offset, bytes: source@ },
                )
            } else {
                old(gpu).requests()
            }),
    {
        match self.map(gpu, offset, source.len()) {
            Ok(mut mapping) => {
                mapping.write(0, source);
                assert(mapping.stores() =~= seq![
                    Request::Store { memory: self.raw_handle(), offset, bytes: source@ },
                ]);
                mapping.unmap(gpu);
                Ok(())
            },
            Err(e) => Err(e),
        }
    }

    /// Stores the words of `source`, each as four little-endian bytes, in
    /// the block at `offset`.
    pub fn write_slice<D: Device>(&self, gpu: &mut Gpu<D>, offset: u64, source: &[u32]) -> (written:
        Result<(), Error>)
        requires
            4 * source@.len() <= usize::MAX,
        ensures
            final(gpu).same_live(old(gpu)),
            offset + 4 * source@.len() > self.size <==> written == Err::<(), Error>(
                Error::MapOutOfRange,
            ),
            written matches Err(e) ==> e == Error::MapOutOfRange || e is Vk,
            final(gpu).requests() == (if written is Ok {
                old(gpu).requests().push(
                    Request::Store {
                        memory: self.raw_handle(),
                        offset,
                        bytes: word_bytes(source@),
                    },
                )
            } else {
                old(gpu).requests()
            }),
    {
        match self.map(gpu, offset, 4 * source.len()) {
            Ok(mut mapping) => {
                mapping.write_slice(0, source);
                assert(mapping.stores() =~= seq![
                    Request::Store {
                        memory: self.raw_handle(),
                        offset,
                        bytes: word_bytes(source@),
                    },
                ]);
                mapping.unmap(gpu);
                Ok(())
            },
            Err(e) => Err(e),
        }
    }

    /// Frees the block.
    pub fn destroy<D: Device>(self, gpu: &mut Gpu<D>)
        ensures
            final(gpu).memory_types == old(gpu).memory_types,
            final(gpu).requests() == old(gpu).requests(),
            forall|k: ObjectKind| #[trigger]
                final(gpu).live(k) == old(gpu).live(k) - one(ObjectKind::DeviceMemory, k),
    {
        self.owner.destroy(gpu);
    }
}

/// `before` with the bytes of `data` stored from `offset` on.
pub open spec fn written(before: Seq<u8>, offset: int, data: Seq<u8>) -> Seq<u8> {
    Seq::new(
        before.len(),
        |i: int|
            if offset <= i < offset + data.len() {
                data[i - offset]
            } else {
                before[i]
            },
    )
}

/// Byte `k` (0 is the lowest) of `word`.
pub open spec fn byte_of(word: u32, k: int) -> u8 {
    ((word as int / pow256(k)) % 256) as u8
}

/// 256 to the power `k`, for the four bytes of a word.
pub open spec fn pow256(k: int) -> int {
    if k <= 0 {
        1
    } else if k == 1 {
        0x100
    } else if k == 2 {
        0x1_0000
    } else {
        0x100_0000
    }
}

/// The little-endian bytes of `words`, four per word.
pub open spec fn word_bytes(words: Seq<u32>) -> Seq<u8> {
    Seq::new(4 * words.len(), |i: int| byte_of(words[i / 4], i % 4))
}

/// Reading back the range that was written gives the data that was written;
/// every byte outside that range is as before, and the length is unchanged.
pub proof fn lemma_write_read_round_trip(before: Seq<u8>, offset: int, data: Seq<u8>)
    requires
        0 <= offset,
        offset + data.len() <= before.len(),
    ensures
        written(before, offset, data).len() == before.len(),
        written(before, offset, data).subrange(offset, offset + data.len()) == data,
        forall|i: int|
            0 <= i < before.len() && !(offset <= i < offset + data.len()) ==> written(
                before,
                offset,
                data,
            )[i] == before[i],
{
    assert(written(before, offset, data).subrange(offset, offset + data.len()) =~= data);
}

/// The little-endian bytes of `words`.
pub fn words_to_bytes(words: &[u32]) -> (bytes: Vec<u8>)
    requires
        4 * words@.len() <= usize::MAX,
    ensures
        bytes@ == word_bytes(words@),
{
    let mut bytes: Vec<u8> = Vec::new();
    let mut index: usize = 0;
    while index < words.len()
        invariant
            index <= words@.len(),
            4 * words@.len() <= usize::MAX,
            bytes@.len() == 4 * index,
            forall|i: int| 0 <= i < 4 * index ==> bytes@[i] == byte_of(words@[i / 4], i % 4),
        decreases words@.len() - index,
    {
        let word: u32 = words[index];
        let b0: u8 = (word & 0xff) as u8;
        let b1: u8 = ((word >> 8) & 0xff) as u8;
        let b2: u8 = ((word >> 16) & 0xff) as u8;
        let b3: u8 = ((word >> 24) & 0xff) as u8;
        proof {
            assert(word & 0xff == word % 256) by (bit_vector);
            assert((word >> 8) & 0xff == (word / 0x100) % 256) by (bit_vector);
            assert((word >> 16) & 0xff == (word / 0x1_0000) % 256) by (bit_vector);
            assert((word >> 24) & 0xff == (word / 0x100_0000) % 256) by (bit_vector);
        }
        bytes.push(b0);
        bytes.push(b1);
        bytes.push(b2);
        bytes.push(b3);
        index = index + 1;
    }
    assert(bytes@ =~= word_bytes(words@));
    bytes
}

/// A bounds-checked host view of a range of a memory block. Reads and
/// writes stay inside the view. The view holds what the host has written,
/// and zeros where it has written nothing; the device gets each write, in
/// the order of writing, when the view is unmapped, and keeps what it holds
/// wherever nothing was written.
pub struct MemoryMapping {
    memory: DeviceMemoryHandle,
    offset: u64,
    bytes: Vec<u8>,
    writes: Vec<(u64, Vec<u8>)>,
}

impl View for MemoryMapping {
    type V = Seq<u8>;

    closed spec fn view(&self) -> Seq<u8> {
        self.bytes@
    }
}

impl MemoryMapping {
    /// What unmapping asks the device to store: each write so far, at its
    /// place in the block, in the order of writing.
    pub closed spec fn stores(&self) -> Seq<Request> {
        Seq::new(
            self.writes@.len(),
            |i: int|
                Request::Store {
                    memory: self.memory,
                    offset: self.writes@[i].0,
                    bytes: self.writes@[i].1@,
                },
        )
    }

    /// The view ends inside the range of block offsets.
    pub closed spec fn wf(&self) -> bool {
        self.offset + self.bytes@.len() <= u64::MAX
    }

    /// The block the view looks into.
    pub closed spec fn memory(&self) -> DeviceMemoryHandle {
        self.memory
    }

    /// Where in the block the view starts.
    pub closed spec fn offset(&self) -> u64 {
        self.offset
    }

    /// The number of bytes in the view.
    pub fn size(&self) -> (size: usize)
        ensures
            size == self@.len(),
    {
        self.bytes.len()
    }

    /// Stores `src` at `offset` of the view. No byte outside the written
    /// range changes.
    pub fn write(&mut self, offset: usize, src: &[u8])
        requires
            old(self).wf(),
            offset + src@.len() <= old(self)@.len(),
        ensures
            final(self).wf(),
            final(self)@ == written(old(self)@, offset as int, src@),
            final(self).memory() == old(self).memory(),
            final(self).offset() == old(self).offset(),
            final(self).stores() == old(self).stores().push(
                Request::Store {
                    memory: old(self).memory(),
                    offset: (old(self).offset() + offset) as u64,
                    bytes: src@,
                },
            ),
    {
        let size: usize = self.bytes.len();
        assert(offset <= size);
        let at: u64 = self.offset + offset as u64;
        self.writes.push((at, vstd::slice::slice_to_vec(src)));
        assert(self.stores() =~= old(self).stores().push(
            Request::Store { memory: self.memory, offset: at, bytes: src@ },
        ));
        let mut index: usize = 0;
        while index < src.len()
            invariant
                index <= src@.len(),
                offset + src@.len() <= self.bytes@.len(),
                self.bytes@.len() == size,
                self.bytes@.len() == old(self).bytes@.len(),
                self.memory == old(self).memory,
                self.offset == old(self).offset,
                self.stores() == old(self).stores().push(
                    Request::Store { memory: self.memory, offset: at, bytes: src@ },
                ),
                forall|i: int|
                    0 <= i < self.bytes@.len() ==> self.bytes@[i] == (if offset <= i < offset
                        + index {
                        src@[i - offset]
                    } else {
                        old(self).bytes@[i]
                    }),
            decreases src@.len() - index,
        {
            self.bytes.set(offset + index, src[index]);
            index = index + 1;
        }
        assert(self.bytes@ =~= written(old(self).bytes@, offset as int, src@));
    }

    /// The `len` bytes of the view from `offset` on.
    pub fn slice(&self, offset: usize, len: usize) -> (bytes: &[u8])
        requires
            offset + len <= self@.len(),
        ensures
            bytes@ == self@.subrange(offset as int, offset + len),
    {
        let size: usize = self.bytes.len();
        assert(offset + len <= size);
        vstd::slice::slice_subrange(self.bytes.as_slice(), offset, offset + len)
    }

    /// Stores the words of `source` at `offset` of the view, each as four
    /// little-endian bytes.
    pub fn write_slice(&mut self, offset: usize, source: &[u32])
        requires
            old(self).wf(),
            offset + 4 * source@.len() <= old(self)@.len(),
        ensures
            final(self).wf(),
            final(self)@ == written(old(self)@, offset as int, word_bytes(source@)),
            final(self).memory() == old(self).memory(),
            final(self).offset() == old(self).offset(),
            final(self).stores() == old(self).stores().push(
                Request::Store {
                    memory: old(self).memory(),
                    offset: (old(self).offset() + offset) as u64,
                    bytes: word_bytes(source@),
                },
            ),
    {
        let size: usize = self.bytes.len();
        assert(4 * source@.len() <= size);
        let bytes = words_to_bytes(source);
        self.write(offset, bytes.as_slice());
    }

    /// Hands what was written to the device, write by write, and ends the
    /// mapping.
    pub fn unmap<D: Device>(self, gpu: &mut Gpu<D>)
        ensures
            final(gpu).memory_types == old(gpu).memory_types,
            forall|k: ObjectKind| #[trigger]
                final(gpu).live(k) == old(gpu).live(k) - one(ObjectKind::Mapping, k),
            final(gpu).requests() == old(gpu).requests() + self.stores(),
    {
        let mut index: usize = 0;
        while index < self.writes.len()
            invariant
                index <= self.writes@.len(),
                gpu.memory_types == old(gpu).memory_types,
                forall|k: ObjectKind| #[trigger] gpu.live(k) == old(gpu).live(k),
                gpu.requests() == old(gpu).requests() + self.stores().take(index as int),
            decreases self.writes@.len() - index,
        {
            gpu.device.write_memory(
                self.memory,
                self.writes[index].0,
                self.writes[index].1.as_slice(),
            );
            gpu.ledger.note(Ghost(self.stores()[index as int]));
            proof {
                assert(self.stores().take(index + 1) =~= self.stores().take(index as int).push(
                    self.stores()[index as int],
                ));
                assert(gpu.requests() =~= old(gpu).requests() + self.stores().take(index + 1));
            }
            index = index + 1;
        }
        proof {
            assert(self.stores().take(index as int) =~= self.stores());
        }
        gpu.device.unmap_memory(self.memory);
        gpu.ledger.add(Ghost(ObjectKind::Mapping), Ghost(-1));
    }
}

} // verus!
