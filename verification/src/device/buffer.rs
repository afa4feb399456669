use vstd::prelude::*;
use crate::device::backend::Device;
use crate::device::memory::{is_mappable, DeviceMemoryHandle, Memory, MemoryTypeIndex, MemoryTypeMask};
use crate::device::raw_handle::{
    one, AsRawHandle, Create, Destroy, Gpu, ObjectKind, Owned, RawHandle, Request,
};
use crate::device::types::{BufferInfo, MemoryBinding, MemoryRequirements};
use crate::error::{Error, VkError};

verus! {

/// The handle of a buffer.
#[derive(Clone, Copy, PartialEq, Eq, Structural, Debug)]
pub struct BufferHandle(pub u64);

impl RawHandle for BufferHandle {
    open spec fn kind() -> ObjectKind {
        ObjectKind::Buffer
    }
}

impl<'a, D: Device> Create<D, &'a BufferInfo> for BufferHandle {
    fn create(device: &mut D, info: &'a BufferInfo) -> core::result::Result<Self, VkError> {
        device.create_buffer(info)
    }
}

impl<D: Device> Destroy<D> for BufferHandle {
    fn destroy(self, device: &mut D) {
        device.destroy_buffer(self)
    }
}

/// An owned buffer, with what is known of its memory: the requirements the
/// device reported for it, once asked, and where it is bound, once bound.
pub struct BufferObject {
    pub owner: Owned<BufferHandle>,
    pub info: BufferInfo,
    pub requirements: Option<MemoryRequirements>,
    pub binding: Option<MemoryBinding>,
}

impl AsRawHandle<BufferHandle> for BufferObject {
    open spec fn raw_handle(&self) -> BufferHandle {
        self.owner.raw_handle()
    }

    fn as_raw(&self) -> (raw: BufferHandle) {
        self.owner.as_raw()
    }
}

impl BufferObject {
    /// Creates a buffer of `size` bytes for `usage`. It has no memory yet.
    pub fn create<D: Device>(gpu: &mut Gpu<D>, size: u64, usage: u32) -> (created: Result<
        Self,
        Error,
    >)
        ensures
            final(gpu).memory_types == old(gpu).memory_types,
            final(gpu).requests() == old(gpu).requests(),
            created matches Err(e) ==> e is Vk,
            created matches Ok(object) ==> {
                &&& object.info == (BufferInfo { size, usage })
                &&& object.requirements is None
                &&& object.binding is None
            },
            forall|k: ObjectKind| #[trigger]
                final(gpu).live(k) == old(gpu).live(k) + (if created is Ok {
                    one(ObjectKind::Buffer, k)
                } else {
                    0
                }),
    {
        let info = BufferInfo { size, usage };
        match Owned::<BufferHandle>::create(gpu, &info) {
            Ok(owner) => Ok(BufferObject { owner, info, requirements: None, binding: None }),
            Err(e) => Err(e),
        }
    }

    /// Asks the device what memory the buffer needs, and remembers the
    /// answer.
    pub fn memory_requirements<D: Device>(&mut self, gpu: &mut Gpu<D>) -> (requirements:
        MemoryRequirements)
        ensures
            final(gpu).same_objects(old(gpu)),
            final(self).requirements == Some(requirements),
            final(self).owner == old(self).owner,
            final(self).info == old(self).info,
            final(self).binding == old(self).binding,
    {
        let requirements = gpu.device.buffer_memory_requirements(self.owner.as_raw());
        self.requirements = Some(requirements);
        requirements
    }

    /// Binds the buffer to `memory` at `offset`. A buffer is bound once, and
    /// only after its requirements are known. On failure it stays unbound.
    pub fn bind_memory<D: Device>(
        &mut self,
        gpu: &mut Gpu<D>,
        memory: DeviceMemoryHandle,
        offset: u64,
    ) -> (bound: Result<(), Error>)
        requires
            old(self).requirements is Some,
            old(self).binding is None,
        ensures
            final(gpu).same_objects(old(gpu)),
            final(self).owner == old(self).owner,
            final(self).info == old(self).info,
            final(self).requirements == old(self).requirements,
            bound matches Err(e) ==> e is Vk,
            final(self).binding == (if bound is Ok {
                Some(MemoryBinding { memory, offset })
            } else {
                None
            }),
    {
        match gpu.device.bind_buffer_memory(self.owner.as_raw(), memory, offset) {
            Ok(()) => {
                self.binding = Some(MemoryBinding { memory, offset });
                Ok(())
            },
            Err(code) => Err(Error::Vk(code)),
        }
    }

    /// Destroys the buffer. Its memory, if any, is not touched.
    pub fn destroy<D: Device>(self, gpu: &mut Gpu<D>)
        ensures
            final(gpu).memory_types == old(gpu).memory_types,
            final(gpu).requests() == old(gpu).requests(),
            forall|k: ObjectKind| #[trigger]
                final(gpu).live(k) == old(gpu).live(k) - one(ObjectKind::Buffer, k),
    {
        self.owner.destroy(gpu);
    }
}

/// A buffer together with the memory block it is bound to.
pub struct Buffer {
    pub object: BufferObject,
    pub memory: Memory,
}

impl AsRawHandle<DeviceMemoryHandle> for Buffer {
    open spec fn raw_handle(&self) -> DeviceMemoryHandle {
        self.memory.raw_handle()
    }

    fn as_raw(&self) -> (raw: DeviceMemoryHandle) {
        self.memory.as_raw()
    }
}

impl AsRawHandle<BufferHandle> for Buffer {
    open spec fn raw_handle(&self) -> BufferHandle {
        self.object.raw_handle()
    }

    fn as_raw(&self) -> (raw: BufferHandle) {
        self.object.as_raw()
    }
}

impl Buffer {
    /// What one buffer with its memory adds to the live objects of kind
    /// `kind`.
    pub open spec fn footprint(kind: ObjectKind) -> int {
        one(ObjectKind::Buffer, kind) + one(ObjectKind::DeviceMemory, kind)
    }

    /// A buffer is well formed when it is bound at the start of a block of
    /// its own that has the size the device asked for.
    pub open spec fn wf(&self) -> bool {
        &&& self.object.requirements matches Some(requirements)
        &&& self.memory.size == requirements.size
        &&& self.object.binding == Some(
            MemoryBinding {
                memory: AsRawHandle::<DeviceMemoryHandle>::raw_handle(&self.memory),
                offset: 0,
            },
        )
    }

    /// Creates a buffer as long as `source`, with mappable memory of its
    /// own, and stores `source` in it from the start. The only errors are
    /// those of creating the buffer and of storing: no mappable memory type
    /// that the buffer allows, a block that the device sized shorter than
    /// `source`, and what the device reports. If storing fails, the buffer
    /// and its memory are destroyed.
    pub fn create_with<D: Device>(gpu: &mut Gpu<D>, usage: u32, source: &[u8]) -> (created: Result<
        Self,
        Error,
    >)
        ensures
            final(gpu).memory_types == old(gpu).memory_types,
            final(gpu).requests() == (match created {
                Ok(buffer) => old(gpu).requests().push(
                    Request::Store {
                        memory: buffer.memory.raw_handle(),
                        offset: 0,
                        bytes: source@,
                    },
                ),
                Err(_) => old(gpu).requests(),
            }),
            created matches Err(e) ==> e == Error::NoCompatibleMemoryType || e
                == Error::MapOutOfRange || e is Vk,
            created matches Ok(buffer) ==> {
                &&& buffer.wf()
                &&& buffer.object.info == (BufferInfo { size: source@.len() as u64, usage })
                &&& source@.len() <= buffer.memory.size
                &&& MemoryTypeMask(buffer.object.requirements->0.memory_type_bits).contains(
                    buffer.memory.type_index,
                )
                &&& is_mappable(old(gpu).memory_types@, buffer.memory.type_index)
                &&& forall|i: MemoryTypeIndex|
                    #[trigger] MemoryTypeMask(
                        buffer.object.requirements->0.memory_type_bits,
                    ).contains(i) && is_mappable(old(gpu).memory_types@, i)
                        ==> buffer.memory.type_index.0 <= i.0
            },
            forall|k: ObjectKind| #[trigger]
                final(gpu).live(k) == old(gpu).live(k) + (if created is Ok {
                    Self::footprint(k)
                } else {
                    0
                }),
    {
        let buffer = Self::create(gpu, source.len() as u64, usage)?;
        match buffer.write(gpu, 0, source) {
            Ok(()) => Ok(buffer),
            Err(e) => {
                buffer.destroy(gpu);
                Err(e)
            },
        }
    }

    /// Creates a buffer of `size` bytes for `usage` and binds it to a block
    /// of its own that the host can map: the block has the size the device
    /// asks for and comes from the lowest mappable memory type the buffer
    /// allows. If any step fails, what the earlier steps made is destroyed.
    pub fn create<D: Device>(gpu: &mut Gpu<D>, size: u64, usage: u32) -> (created: Result<
        Self,
        Error,
    >)
        ensures
            final(gpu).memory_types == old(gpu).memory_types,
            final(gpu).requests() == old(gpu).requests(),
            created matches Err(e) ==> e == Error::NoCompatibleMemoryType || e is Vk,
            created matches Ok(buffer) ==> {
                &&& buffer.wf()
                &&& buffer.object.info == (BufferInfo { size, usage })
                &&& MemoryTypeMask(buffer.object.requirements->0.memory_type_bits).contains(
                    buffer.memory.type_index,
                )
                &&& is_mappable(old(gpu).memory_types@, buffer.memory.type_index)
                &&& forall|i: MemoryTypeIndex|
                    #[trigger] MemoryTypeMask(
                        buffer.object.requirements->0.memory_type_bits,
                    ).contains(i) && is_mappable(old(gpu).memory_types@, i)
                        ==> buffer.memory.type_index.0 <= i.0
            },
            forall|k: ObjectKind| #[trigger]
                final(gpu).live(k) == old(gpu).live(k) + (if created is Ok {
                    Self::footprint(k)
                } else {
                    0
                }),
    {
        let mut object = BufferObject::create(gpu, size, usage)?;
        let requirements = object.memory_requirements(gpu);
        let memory = match Memory::allocate_mappable(
            gpu,
            requirements.size,
            MemoryTypeMask(requirements.memory_type_bits),
        ) {
            Ok(memory) => memory,
            Err(e) => {
                object.destroy(gpu);
                return Err(e);
            },
        };
        match object.bind_memory(gpu, memory.as_raw(), 0) {
            Ok(()) => Ok(Self { object, memory }),
            Err(e) => {
                memory.destroy(gpu);
                object.destroy(gpu);
                Err(e)
            },
        }
    }

    /// Stores `source` in the buffer's memory at `offset`.
    pub fn write<D: Device>(&self, gpu: &mut Gpu<D>, offset: u64, source: &[u8]) -> (written: Result<
        (),
        Error,
    >)
        ensures
            final(gpu).same_live(old(gpu)),
            offset + source@.len() > self.memory.size <==> written == Err::<(), Error>(
                Error::MapOutOfRange,
            ),
            written matches Err(e) ==> e == Error::MapOutOfRange || e is Vk,
            final(gpu).requests() == (if written is Ok {
                old(gpu).requests().push(
                    Request::Store { memory: self.memory.raw_handle(), offset, bytes: source@ },
                )
            } else {
                old(gpu).requests()
            }),
    {
        self.memory.write(gpu, offset, source)
    }

    /// Destroys the buffer and frees its memory.
    pub fn destroy<D: Device>(self, gpu: &mut Gpu<D>)
        ensures
            final(gpu).memory_types == old(gpu).memory_types,
            final(gpu).requests() == old(gpu).requests(),
            forall|k: ObjectKind| #[trigger]
                final(gpu).live(k) == old(gpu).live(k) - Self::footprint(k),
    {
        self.object.destroy(gpu);
        self.memory.destroy(gpu);
    }
}

} // verus!
