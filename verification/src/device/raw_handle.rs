use vstd::prelude::*;
use crate::device::backend::Device;
use crate::device::fence::Fence;
use crate::device::command_buffer::{CommandView, SubmitWait};
use crate::device::memory::{DeviceMemoryHandle, MemoryTypes};
use crate::device::types::{FramebufferInfo, RenderPassInfo, SamplerInfo, SwapchainInfo};
use crate::error::{Error, VkError};

verus! {

/// The kinds of thing that are made and ended one by one: GPU objects, and
/// host mappings of device memory.
#[derive(Clone, Copy, PartialEq, Eq, Structural, Debug)]
pub enum ObjectKind {
    RenderPass,
    Surface,
    Swapchain,
    ShaderModule,
    Framebuffer,
    Sampler,
    DeviceMemory,
    Buffer,
    Image,
    ImageView,
    Semaphore,
    Fence,
    DescriptorPool,
    DescriptorSetLayout,
    PipelineLayout,
    PipelineCache,
    Pipeline,
    CommandBuffer,
    /// An open host mapping of a memory block.
    Mapping,
}

/// 1 if `kind` is `counted`, else 0: what one object of kind `kind` adds to
/// the number of live objects of kind `counted`.
pub open spec fn one(kind: ObjectKind, counted: ObjectKind) -> int {
    if kind == counted {
        1
    } else {
        0
    }
}

/// `n` if `kind` is `counted`, else 0.
pub open spec fn many(n: int, kind: ObjectKind, counted: ObjectKind) -> int {
    if kind == counted {
        n
    } else {
        0
    }
}

/// Something the device was asked to take or to do: data for its memory,
/// work for its queue, an image to present; and the host's wait for the
/// work.
pub enum Request {
    /// Store `bytes` in `memory` from `offset` on.
    Store { memory: DeviceMemoryHandle, offset: u64, bytes: Seq<u8> },
    /// Run `commands`, once `wait` is satisfied.
    Submit { commands: Seq<CommandView>, wait: Option<SubmitWait> },
    /// The host has waited, without a time limit, until the device had run
    /// the submission before this entry, and with it every earlier one.
    /// What those submissions read and wrote may be rewritten or freed from
    /// here on.
    Wait,
    /// Present image `index` of `swapchain`.
    Present { swapchain: SwapchainHandle, index: u32 },
}

/// Whether `request` stores `bytes` at `offset` of some memory block.
pub open spec fn stores(request: Request, offset: u64, bytes: Seq<u8>) -> bool {
    request matches Request::Store { offset: at, bytes: stored, .. } && at == offset && stored
        == bytes
}

/// Whether `after` is `before` with more requests, or none, at its end.
pub open spec fn continues(before: Seq<Request>, after: Seq<Request>) -> bool {
    &&& before.len() <= after.len()
    &&& forall|i: int| 0 <= i < before.len() ==> #[trigger] after[i] == before[i]
}

/// Whether `after` is `before` with at most `at_most` more requests at its
/// end.
pub open spec fn extends(before: Seq<Request>, after: Seq<Request>, at_most: nat) -> bool {
    continues(before, after) && after.len() <= before.len() + at_most
}

/// Whether `after` is `before` with what a submission adds: `request`,
/// once the queue has taken it, and the wait for it, once the device has
/// run it. Where `done` holds, both are there; else the request may be
/// there, and no wait is.
pub open spec fn requested(before: Seq<Request>, after: Seq<Request>, request: Request, done: bool) -> bool {
    if done {
        after == before.push(request).push(Request::Wait)
    } else {
        after == before || after == before.push(request)
    }
}

/// A continuation of a continuation of a log continues that log.
pub proof fn lemma_continues_twice(first: Seq<Request>, second: Seq<Request>, third: Seq<Request>)
    requires
        continues(first, second),
        continues(second, third),
    ensures
        continues(first, third),
{
    assert forall|i: int| 0 <= i < first.len() implies #[trigger] third[i] == first[i] by {
        assert(second[i] == first[i]);
    }
}

/// What proofs keep track of: the count, per kind, of the handles that
/// owners currently hold and of the mappings that are open, and the data,
/// the work and the presentations that the device was asked to take, in
/// order. Creating and adopting a handle and opening a mapping add to the
/// count, destroying and releasing a handle and ending a mapping take from
/// it; ending a mapping, submitting, waiting for a submission and
/// presenting add to the requests; nothing else changes either.
///
/// The ledger is bookkeeping that stands beside the calls of the device:
/// each function that changes it makes the call it stands for in the same
/// body, but the device promises nothing, so a contract over the ledger
/// says what this library asks of the device and keeps, not what the
/// device has done.
pub struct Ledger {
    pub(crate) live: Ghost<Map<ObjectKind, int>>,
    pub(crate) requests: Ghost<Seq<Request>>,
}

impl Ledger {
    /// The number of owned handles of kind `kind`.
    pub closed spec fn live(&self, kind: ObjectKind) -> int {
        self.live@[kind]
    }

    /// What the device was asked to take so far, in order.
    pub closed spec fn requests(&self) -> Seq<Request> {
        self.requests@
    }

    pub(crate) fn new() -> (ledger: Self)
        ensures
            forall|k: ObjectKind| #[trigger] ledger.live(k) == 0,
            ledger.requests() == Seq::<Request>::empty(),
    {
        Ledger { live: Ghost(Map::total(|k: ObjectKind| 0int)), requests: Ghost(Seq::empty()) }
    }

    /// Takes note that the host has waited until the device had run what
    /// was submitted, on the evidence of the submission's fence, seen
    /// signalled.
    pub(crate) fn note_wait(&mut self, fence: &Fence)
        requires
            fence.signalled,
        ensures
            forall|k: ObjectKind| #[trigger] final(self).live(k) == old(self).live(k),
            final(self).requests() == old(self).requests().push(Request::Wait),
    {
        proof {
            self.requests@ = self.requests@.push(Request::Wait);
        }
    }

    pub(crate) fn add(&mut self, Ghost(kind): Ghost<ObjectKind>, Ghost(n): Ghost<int>)
        ensures
            forall|k: ObjectKind| #[trigger] final(self).live(k) == old(self).live(k) + many(n, kind, k),
            final(self).requests() == old(self).requests(),
    {
        proof {
            self.live@ = self.live@.insert(kind, self.live@[kind] + n);
        }
    }

    pub(crate) fn note(&mut self, Ghost(request): Ghost<Request>)
        ensures
            forall|k: ObjectKind| #[trigger] final(self).live(k) == old(self).live(k),
            final(self).requests() == old(self).requests().push(request),
    {
        proof {
            self.requests@ = self.requests@.push(request);
        }
    }
}

/// The context every resource operation works in: the device, the memory
/// types it enumerates, and the ledger of live objects.
pub struct Gpu<D: Device> {
    pub device: D,
    pub memory_types: MemoryTypes,
    pub ledger: Ledger,
}

impl<D: Device> Gpu<D> {
    /// A context on `device` in which no object is live yet.
    pub fn new(device: D, memory_types: MemoryTypes) -> (gpu: Self)
        ensures
            gpu.device == device,
            gpu.memory_types == memory_types,
            forall|k: ObjectKind| #[trigger] gpu.live(k) == 0,
            gpu.requests() == Seq::<Request>::empty(),
    {
        Gpu { device, memory_types, ledger: Ledger::new() }
    }

    /// The number of owned handles of kind `kind`.
    #[verifier::inline]
    pub open spec fn live(&self, kind: ObjectKind) -> int {
        self.ledger.live(kind)
    }

    /// What the device was asked to take so far, in order.
    #[verifier::inline]
    pub open spec fn requests(&self) -> Seq<Request> {
        self.ledger.requests()
    }

    /// No object is live on `self` that was not live on `before`, and none
    /// has gone.
    pub open spec fn same_live(&self, before: &Self) -> bool {
        &&& self.memory_types == before.memory_types
        &&& forall|k: ObjectKind| #[trigger] self.live(k) == before.live(k)
    }

    /// The same objects live on `self` as on `before`, and the device was
    /// asked to take nothing more.
    pub open spec fn same_objects(&self, before: &Self) -> bool {
        &&& self.same_live(before)
        &&& self.requests() == before.requests()
    }
}

/// A copyable identifier of a GPU object of one kind.
pub trait RawHandle: Copy {
    /// The kind of object that handles of this type name.
    spec fn kind() -> ObjectKind;
}

/// How a kind of handle is made from creation parameters.
pub trait Create<D: Device, Info>: Sized {
    fn create(device: &mut D, info: Info) -> core::result::Result<Self, VkError>;
}

/// How several handles of a kind are made by one call.
pub trait CreateVec<D: Device, Info>: Sized {
    fn create_vec(device: &mut D, info: Info) -> core::result::Result<Vec<Self>, VkError>;
}

/// How a kind of handle is released. Releasing cannot fail.
pub trait Destroy<D: Device>: Sized + Copy {
    fn destroy(self, device: &mut D);
}

/// Anything that stands for one handle of type `T`.
pub trait AsRawHandle<T: RawHandle> {
    spec fn raw_handle(&self) -> T;

    fn as_raw(&self) -> (raw: T)
        ensures
            raw == self.raw_handle(),
    ;
}

/// The exclusive owner of one handle. It is made by creating or adopting a
/// handle and ends by destroying or releasing it; it cannot be copied.
pub struct Owned<T>(T);

impl<T: RawHandle> AsRawHandle<T> for Owned<T> {
    closed spec fn raw_handle(&self) -> T {
        self.0
    }

    fn as_raw(&self) -> (raw: T) {
        self.0
    }
}

impl<T: RawHandle> Owned<T> {
    /// Adopts `handle`: from now on this owner answers for destroying it.
    pub fn from_raw<D: Device>(gpu: &mut Gpu<D>, handle: T) -> (owned: Self)
        ensures
            owned.raw_handle() == handle,
            final(gpu).device == old(gpu).device,
            final(gpu).memory_types == old(gpu).memory_types,
            final(gpu).requests() == old(gpu).requests(),
            forall|k: ObjectKind| #[trigger]
                final(gpu).live(k) == old(gpu).live(k) + one(T::kind(), k),
    {
        gpu.ledger.add(Ghost(T::kind()), Ghost(1));
        Self(handle)
    }

    /// Releases the handle without destroying it: whoever takes it answers
    /// for it from now on.
    pub fn into_raw<D: Device>(self, gpu: &mut Gpu<D>) -> (handle: T)
        ensures
            handle == self.raw_handle(),
            final(gpu).device == old(gpu).device,
            final(gpu).memory_types == old(gpu).memory_types,
            final(gpu).requests() == old(gpu).requests(),
            forall|k: ObjectKind| #[trigger]
                final(gpu).live(k) == old(gpu).live(k) - one(T::kind(), k),
    {
        gpu.ledger.add(Ghost(T::kind()), Ghost(-1));
        self.0
    }

    /// Creates a handle from `info` and owns it. On failure nothing is
    /// created and the device's error code is returned.
    pub fn create<D: Device, I>(gpu: &mut Gpu<D>, info: I) -> (created: Result<Self, Error>) where
        T: Create<D, I>,

        ensures
            final(gpu).memory_types == old(gpu).memory_types,
            final(gpu).requests() == old(gpu).requests(),
            created is Err ==> created->Err_0 is Vk,
            forall|k: ObjectKind| #[trigger]
                final(gpu).live(k) == old(gpu).live(k) + (if created is Ok {
                    one(T::kind(), k)
                } else {
                    0
                }),
    {
        match T::create(&mut gpu.device, info) {
            Ok(handle) => {
                gpu.ledger.add(Ghost(T::kind()), Ghost(1));
                Ok(Self(handle))
            },
            Err(code) => Err(Error::Vk(code)),
        }
    }

    /// Adopts every handle of `handles`, in order: from now on each owner
    /// answers for destroying its handle.
    pub fn from_raw_vec<D: Device>(gpu: &mut Gpu<D>, handles: Vec<T>) -> (owners: Vec<Self>)
        ensures
            owners@.len() == handles@.len(),
            forall|i: int| 0 <= i < owners@.len() ==> (#[trigger] owners@[i]).raw_handle() == handles@[i],
            final(gpu).device == old(gpu).device,
            final(gpu).memory_types == old(gpu).memory_types,
            final(gpu).requests() == old(gpu).requests(),
            forall|k: ObjectKind| #[trigger]
                final(gpu).live(k) == old(gpu).live(k) + many(
                    handles@.len() as int,
                    T::kind(),
                    k,
                ),
    {
        let mut owners: Vec<Self> = Vec::new();
        let mut index: usize = 0;
        while index < handles.len()
            invariant
                index <= handles@.len(),
                owners@.len() == index,
                forall|i: int|
                    0 <= i < owners@.len() ==> (#[trigger] owners@[i]).raw_handle() == handles@[i],
            decreases handles@.len() - index,
        {
            owners.push(Self(handles[index]));
            index = index + 1;
        }
        gpu.ledger.add(Ghost(T::kind()), Ghost(owners@.len() as int));
        owners
    }

    /// Creates several handles by one call and owns each, in the order the
    /// device gives them. On failure nothing is created.
    pub fn create_vec<D: Device, I>(gpu: &mut Gpu<D>, info: I) -> (created: Result<
        Vec<Self>,
        Error,
    >) where T: CreateVec<D, I>
        ensures
            final(gpu).memory_types == old(gpu).memory_types,
            final(gpu).requests() == old(gpu).requests(),
            created is Err ==> created->Err_0 is Vk,
            forall|k: ObjectKind| #[trigger]
                final(gpu).live(k) == old(gpu).live(k) + (if created is Ok {
                    many(created->Ok_0@.len() as int, T::kind(), k)
                } else {
                    0
                }),
    {
        match T::create_vec(&mut gpu.device, info) {
            Ok(handles) => Ok(Self::from_raw_vec(gpu, handles)),
            Err(code) => Err(Error::Vk(code)),
        }
    }

    /// Destroys the handle. The owner is used up: a handle is destroyed once.
    pub fn destroy<D: Device>(self, gpu: &mut Gpu<D>) where T: Destroy<D>
        ensures
            final(gpu).memory_types == old(gpu).memory_types,
            final(gpu).requests() == old(gpu).requests(),
            forall|k: ObjectKind| #[trigger]
                final(gpu).live(k) == old(gpu).live(k) - one(T::kind(), k),
    {
        self.0.destroy(&mut gpu.device);
        gpu.ledger.add(Ghost(T::kind()), Ghost(-1));
    }
}

/// The handle of a render pass.
#[derive(Clone, Copy, PartialEq, Eq, Structural, Debug)]
pub struct RenderPassHandle(pub u64);

impl RawHandle for RenderPassHandle {
    open spec fn kind() -> ObjectKind {
        ObjectKind::RenderPass
    }
}

impl<'a, D: Device> Create<D, &'a RenderPassInfo> for RenderPassHandle {
    fn create(device: &mut D, info: &'a RenderPassInfo) -> core::result::Result<Self, VkError> {
        device.create_render_pass(info)
    }
}

impl<D: Device> Destroy<D> for RenderPassHandle {
    fn destroy(self, device: &mut D) {
        device.destroy_render_pass(self)
    }
}

/// The handle of a presentation surface. Surfaces are made by the
/// windowing side and adopted here.
#[derive(Clone, Copy, PartialEq, Eq, Structural, Debug)]
pub struct SurfaceHandle(pub u64);

impl RawHandle for SurfaceHandle {
    open spec fn kind() -> ObjectKind {
        ObjectKind::Surface
    }
}

impl<D: Device> Destroy<D> for SurfaceHandle {
    fn destroy(self, device: &mut D) {
        device.destroy_surface(self)
    }
}

/// The handle of a swapchain. The handle 0 names no swapchain.
#[derive(Clone, Copy, PartialEq, Eq, Structural, Debug)]
pub struct SwapchainHandle(pub u64);

impl RawHandle for SwapchainHandle {
    open spec fn kind() -> ObjectKind {
        ObjectKind::Swapchain
    }
}

impl<'a, D: Device> Create<D, &'a SwapchainInfo> for SwapchainHandle {
    fn create(device: &mut D, info: &'a SwapchainInfo) -> core::result::Result<Self, VkError> {
        device.create_swapchain(info)
    }
}

impl<D: Device> Destroy<D> for SwapchainHandle {
    fn destroy(self, device: &mut D) {
        device.destroy_swapchain(self)
    }
}

/// The handle of a shader module.
#[derive(Clone, Copy, PartialEq, Eq, Structural, Debug)]
pub struct ShaderModuleHandle(pub u64);

impl RawHandle for ShaderModuleHandle {
    open spec fn kind() -> ObjectKind {
        ObjectKind::ShaderModule
    }
}

impl<'a, D: Device> Create<D, &'a [u32]> for ShaderModuleHandle {
    fn create(device: &mut D, code: &'a [u32]) -> core::result::Result<Self, VkError> {
        device.create_shader_module(code)
    }
}

impl<D: Device> Destroy<D> for ShaderModuleHandle {
    fn destroy(self, device: &mut D) {
        device.destroy_shader_module(self)
    }
}

/// The handle of a framebuffer.
#[derive(Clone, Copy, PartialEq, Eq, Structural, Debug)]
pub struct FramebufferHandle(pub u64);

impl RawHandle for FramebufferHandle {
    open spec fn kind() -> ObjectKind {
        ObjectKind::Framebuffer
    }
}

impl<'a, D: Device> Create<D, &'a FramebufferInfo> for FramebufferHandle {
    fn create(device: &mut D, info: &'a FramebufferInfo) -> core::result::Result<Self, VkError> {
        device.create_framebuffer(info)
    }
}

impl<D: Device> Destroy<D> for FramebufferHandle {
    fn destroy(self, device: &mut D) {
        device.destroy_framebuffer(self)
    }
}

/// The handle of a sampler. The handle 0 names no sampler.
#[derive(Clone, Copy, PartialEq, Eq, Structural, Debug)]
pub struct SamplerHandle(pub u64);

impl RawHandle for SamplerHandle {
    open spec fn kind() -> ObjectKind {
        ObjectKind::Sampler
    }
}

impl<'a, D: Device> Create<D, &'a SamplerInfo> for SamplerHandle {
    fn create(device: &mut D, info: &'a SamplerInfo) -> core::result::Result<Self, VkError> {
        device.create_sampler(info)
    }
}

impl<D: Device> Destroy<D> for SamplerHandle {
    fn destroy(self, device: &mut D) {
        device.destroy_sampler(self)
    }
}

} // verus!
