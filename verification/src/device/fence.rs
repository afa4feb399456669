use vstd::prelude::*;
use crate::device::backend::Device;
use crate::device::raw_handle::{one, AsRawHandle, Create, Destroy, Gpu, ObjectKind, Owned, RawHandle};
use crate::error::{Error, VkError};

verus! {

/// The handle of a fence. The handle 0 names no fence.
#[derive(Clone, Copy, PartialEq, Eq, Structural, Debug)]
pub struct FenceHandle(pub u64);

impl RawHandle for FenceHandle {
    open spec fn kind() -> ObjectKind {
        ObjectKind::Fence
    }
}

/// Creates a fence; `signalled` says whether it starts out signalled.
impl<D: Device> Create<D, bool> for FenceHandle {
    fn create(device: &mut D, signalled: bool) -> core::result::Result<Self, VkError> {
        device.create_fence(signalled)
    }
}

impl<D: Device> Destroy<D> for FenceHandle {
    fn destroy(self, device: &mut D) {
        device.destroy_fence(self)
    }
}

/// An owned fence: the host's view of whether one submission has
/// completed. `signalled` records that the host has seen the fence
/// signalled since it was last reset; only then may it be reset.
pub struct Fence {
    pub owner: Owned<FenceHandle>,
    pub signalled: bool,
}

impl AsRawHandle<FenceHandle> for Fence {
    open spec fn raw_handle(&self) -> FenceHandle {
        self.owner.raw_handle()
    }

    fn as_raw(&self) -> (raw: FenceHandle) {
        self.owner.as_raw()
    }
}

impl Fence {
    /// Creates an unsignalled fence.
    pub fn create<D: Device>(gpu: &mut Gpu<D>) -> (created: Result<Self, Error>)
        ensures
            final(gpu).memory_types == old(gpu).memory_types,
            final(gpu).requests() == old(gpu).requests(),
            created matches Err(e) ==> e is Vk,
            created matches Ok(fence) ==> !fence.signalled,
            forall|k: ObjectKind| #[trigger]
                final(gpu).live(k) == old(gpu).live(k) + (if created is Ok {
                    one(ObjectKind::Fence, k)
                } else {
                    0
                }),
    {
        match Owned::<FenceHandle>::create(gpu, false) {
            Ok(owner) => Ok(Self { owner, signalled: false }),
            Err(e) => Err(e),
        }
    }

    /// Creates a fence that is signalled from the start.
    pub fn create_signalled<D: Device>(gpu: &mut Gpu<D>) -> (created: Result<Self, Error>)
        ensures
            final(gpu).memory_types == old(gpu).memory_types,
            final(gpu).requests() == old(gpu).requests(),
            created matches Err(e) ==> e is Vk,
            created matches Ok(fence) ==> fence.signalled,
            forall|k: ObjectKind| #[trigger]
                final(gpu).live(k) == old(gpu).live(k) + (if created is Ok {
                    one(ObjectKind::Fence, k)
                } else {
                    0
                }),
    {
        match Owned::<FenceHandle>::create(gpu, true) {
            Ok(owner) => Ok(Self { owner, signalled: true }),
            Err(e) => Err(e),
        }
    }

    /// Takes note of the device's answer to a status request: an answer
    /// that the fence is signalled is remembered, an error code becomes an
    /// error, and the answer is handed on.
    pub fn seen(&mut self, answer: core::result::Result<bool, VkError>) -> (status: Result<bool, Error>)
        ensures
            final(self).owner == old(self).owner,
            status == (match answer {
                Ok(signalled) => Ok::<bool, Error>(signalled),
                Err(code) => Err::<bool, Error>(Error::Vk(code)),
            }),
            final(self).signalled == (old(self).signalled || answer == Ok::<bool, VkError>(true)),
    {
        match answer {
            Ok(signalled) => {
                if signalled {
                    self.signalled = true;
                }
                Ok(signalled)
            },
            Err(code) => Err(Error::Vk(code)),
        }
    }

    /// Asks the device whether the fence is signalled, and takes note of
    /// the answer.
    pub fn is_signalled<D: Device>(&mut self, gpu: &mut Gpu<D>) -> (status: Result<bool, Error>)
        ensures
            final(gpu).same_objects(old(gpu)),
            final(self).owner == old(self).owner,
            status matches Err(e) ==> e is Vk,
            final(self).signalled == (old(self).signalled || status == Ok::<bool, Error>(true)),
    {
        let answer = gpu.device.fence_status(self.owner.as_raw());
        self.seen(answer)
    }

    /// Blocks until the device signals the fence, without a time limit.
    pub fn wait<D: Device>(&mut self, gpu: &mut Gpu<D>) -> (waited: Result<(), Error>)
        ensures
            final(gpu).same_objects(old(gpu)),
            final(self).owner == old(self).owner,
            waited matches Err(e) ==> e is Vk,
            final(self).signalled == (old(self).signalled || waited is Ok),
    {
        match gpu.device.wait_for_fence(self.owner.as_raw(), u64::MAX) {
            Ok(()) => {
                self.signalled = true;
                Ok(())
            },
            Err(code) => Err(Error::Vk(code)),
        }
    }

    /// Returns the fence to the unsignalled state. Only a fence that has
    /// been seen signalled is reset.
    pub fn reset<D: Device>(&mut self, gpu: &mut Gpu<D>) -> (reset: Result<(), Error>)
        requires
            old(self).signalled,
        ensures
            final(gpu).same_objects(old(gpu)),
            final(self).owner == old(self).owner,
            reset matches Err(e) ==> e is Vk,
            final(self).signalled == reset is Err,
    {
        match gpu.device.reset_fence(self.owner.as_raw()) {
            Ok(()) => {
                self.signalled = false;
                Ok(())
            },
            Err(code) => Err(Error::Vk(code)),
        }
    }

    /// Destroys the fence.
    pub fn destroy<D: Device>(self, gpu: &mut Gpu<D>)
        ensures
            final(gpu).memory_types == old(gpu).memory_types,
            final(gpu).requests() == old(gpu).requests(),
            forall|k: ObjectKind| #[trigger]
                final(gpu).live(k) == old(gpu).live(k) - one(ObjectKind::Fence, k),
    {
        self.owner.destroy(gpu);
    }
}

} // verus!
