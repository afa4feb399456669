use vstd::prelude::*;
use crate::device::backend::Device;
use crate::device::raw_handle::{one, AsRawHandle, Create, Destroy, Gpu, ObjectKind, Owned, RawHandle};
use crate::error::{Error, VkError};

verus! {

/// The handle of a semaphore.
#[derive(Clone, Copy, PartialEq, Eq, Structural, Debug)]
pub struct SemaphoreHandle(pub u64);

impl RawHandle for SemaphoreHandle {
    open spec fn kind() -> ObjectKind {
        ObjectKind::Semaphore
    }
}

impl<D: Device> Create<D, ()> for SemaphoreHandle {
    fn create(device: &mut D, info: ()) -> core::result::Result<Self, VkError> {
        device.create_semaphore()
    }
}

impl<D: Device> Destroy<D> for SemaphoreHandle {
    fn destroy(self, device: &mut D) {
        device.destroy_semaphore(self)
    }
}

/// An owned semaphore: it orders work on the device's queue and is not
/// visible to the host.
pub struct Semaphore(pub Owned<SemaphoreHandle>);

impl AsRawHandle<SemaphoreHandle> for Semaphore {
    open spec fn raw_handle(&self) -> SemaphoreHandle {
        self.0.raw_handle()
    }

    fn as_raw(&self) -> (raw: SemaphoreHandle) {
        self.0.as_raw()
    }
}

impl Semaphore {
    /// Creates a semaphore.
    pub fn create<D: Device>(gpu: &mut Gpu<D>) -> (created: Result<Self, Error>)
        ensures
            final(gpu).memory_types == old(gpu).memory_types,
            final(gpu).requests() == old(gpu).requests(),
            created matches Err(e) ==> e is Vk,
            forall|k: ObjectKind| #[trigger]
                final(gpu).live(k) == old(gpu).live(k) + (if created is Ok {
                    one(ObjectKind::Semaphore, k)
                } else {
                    0
                }),
    {
        match Owned::<SemaphoreHandle>::create(gpu, ()) {
            Ok(owner) => Ok(Self(owner)),
            Err(e) => Err(e),
        }
    }

    /// Destroys the semaphore.
    pub fn destroy<D: Device>(self, gpu: &mut Gpu<D>)
        ensures
            final(gpu).memory_types == old(gpu).memory_types,
            final(gpu).requests() == old(gpu).requests(),
            forall|k: ObjectKind| #[trigger]
                final(gpu).live(k) == old(gpu).live(k) - one(ObjectKind::Semaphore, k),
    {
        self.0.destroy(gpu);
    }
}

} // verus!
