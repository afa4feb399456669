use vstd::prelude::*;
use crate::device::backend::Device;
use crate::device::descriptor_set_layout::DescriptorSetLayoutHandle;
use crate::device::raw_handle::{
    one, AsRawHandle, Create, Destroy, Gpu, ObjectKind, Owned, RawHandle, RenderPassHandle,
};
use crate::device::types::{
    FixedFunctionState, PushConstantRange, ShaderStage, VertexInputAttributeDescription,
    VertexInputBindingDescription,
};
use crate::error::{Error, VkError};

verus! {

/// The handle of a pipeline layout.
#[derive(Clone, Copy, PartialEq, Eq, Structural, Debug)]
pub struct PipelineLayoutHandle(pub u64);

impl RawHandle for PipelineLayoutHandle {
    open spec fn kind() -> ObjectKind {
        ObjectKind::PipelineLayout
    }
}

/// The parameters a pipeline layout is created from: the set layouts, in
/// slot order, and the push constant ranges.
pub struct PipelineLayoutInfo<'a> {
    pub set_layouts: &'a [DescriptorSetLayoutHandle],
    pub push_constant_ranges: &'a [PushConstantRange],
}

impl<'a, D: Device> Create<D, PipelineLayoutInfo<'a>> for PipelineLayoutHandle {
    fn create(device: &mut D, info: PipelineLayoutInfo<'a>) -> core::result::Result<Self, VkError> {
        device.create_pipeline_layout(info.set_layouts, info.push_constant_ranges)
    }
}

impl<D: Device> Destroy<D> for PipelineLayoutHandle {
    fn destroy(self, device: &mut D) {
        device.destroy_pipeline_layout(self)
    }
}

/// An owned pipeline layout: which descriptor set layout sits in which
/// slot, and which push constant bytes which stages see. Every pipeline
/// built against it and every bind call depends on this order.
pub struct PipelineLayout {
    owner: Owned<PipelineLayoutHandle>,
    set_layouts: Vec<DescriptorSetLayoutHandle>,
    push_constant_ranges: Vec<PushConstantRange>,
}

impl AsRawHandle<PipelineLayoutHandle> for PipelineLayout {
    closed spec fn raw_handle(&self) -> PipelineLayoutHandle {
        self.owner.raw_handle()
    }

    fn as_raw(&self) -> (raw: PipelineLayoutHandle) {
        self.owner.as_raw()
    }
}

impl PipelineLayout {
    /// The set layouts, by slot.
    pub closed spec fn set_layouts(&self) -> Seq<DescriptorSetLayoutHandle> {
        self.set_layouts@
    }

    /// The push constant ranges.
    pub closed spec fn push_constant_ranges(&self) -> Seq<PushConstantRange> {
        self.push_constant_ranges@
    }

    /// Creates a layout with `set_layouts[i]` in slot `i`.
    pub fn create<D: Device>(
        gpu: &mut Gpu<D>,
        set_layouts: &[DescriptorSetLayoutHandle],
        push_constant_ranges: &[PushConstantRange],
    ) -> (created: Result<Self, Error>)
        ensures
            final(gpu).memory_types == old(gpu).memory_types,
            final(gpu).requests() == old(gpu).requests(),
            created matches Err(e) ==> e is Vk,
            created matches Ok(layout) ==> {
                &&& layout.set_layouts() == set_layouts@
                &&& layout.push_constant_ranges() == push_constant_ranges@
            },
            forall|k: ObjectKind| #[trigger]
                final(gpu).live(k) == old(gpu).live(k) + (if created is Ok {
                    one(ObjectKind::PipelineLayout, k)
                } else {
                    0
                }),
    {
        match Owned::<PipelineLayoutHandle>::create(
            gpu,
            PipelineLayoutInfo { set_layouts, push_constant_ranges },
        ) {
            Ok(owner) => Ok(
                Self {
                    owner,
                    set_layouts: vstd::slice::slice_to_vec(set_layouts),
                    push_constant_ranges: vstd::slice::slice_to_vec(push_constant_ranges),
                },
            ),
            Err(e) => Err(e),
        }
    }

    /// Destroys the layout.
    pub fn destroy<D: Device>(self, gpu: &mut Gpu<D>)
        ensures
            final(gpu).memory_types == old(gpu).memory_types,
            final(gpu).requests() == old(gpu).requests(),
            forall|k: ObjectKind| #[trigger]
                final(gpu).live(k) == old(gpu).live(k) - one(ObjectKind::PipelineLayout, k),
    {
        self.owner.destroy(gpu);
    }
}

/// The handle of a pipeline cache.
#[derive(Clone, Copy, PartialEq, Eq, Structural, Debug)]
pub struct PipelineCacheHandle(pub u64);

impl RawHandle for PipelineCacheHandle {
    open spec fn kind() -> ObjectKind {
        ObjectKind::PipelineCache
    }
}

impl<D: Device> Create<D, ()> for PipelineCacheHandle {
    fn create(device: &mut D, info: ()) -> core::result::Result<Self, VkError> {
        device.create_pipeline_cache()
    }
}

impl<D: Device> Destroy<D> for PipelineCacheHandle {
    fn destroy(self, device: &mut D) {
        device.destroy_pipeline_cache(self)
    }
}

/// Everything a graphics pipeline is compiled from.
pub struct GraphicsPipelineInfo {
    pub stages: Vec<ShaderStage>,
    pub vertex_bindings: Vec<VertexInputBindingDescription>,
    pub vertex_attributes: Vec<VertexInputAttributeDescription>,
    pub state: FixedFunctionState,
    pub layout: PipelineLayoutHandle,
    pub render_pass: RenderPassHandle,
    pub subpass: u32,
}

/// What a graphics pipeline is compiled from, as plain values.
pub struct PipelineParameters {
    pub stages: Seq<ShaderStage>,
    pub vertex_bindings: Seq<VertexInputBindingDescription>,
    pub vertex_attributes: Seq<VertexInputAttributeDescription>,
    pub state: FixedFunctionState,
    pub layout: PipelineLayoutHandle,
    pub render_pass: RenderPassHandle,
    pub subpass: u32,
}

impl View for GraphicsPipelineInfo {
    type V = PipelineParameters;

    open spec fn view(&self) -> PipelineParameters {
        PipelineParameters {
            stages: self.stages@,
            vertex_bindings: self.vertex_bindings@,
            vertex_attributes: self.vertex_attributes@,
            state: self.state,
            layout: self.layout,
            render_pass: self.render_pass,
            subpass: self.subpass,
        }
    }
}

impl GraphicsPipelineInfo {
    /// A copy of the parameters.
    pub fn duplicate(&self) -> (copy: Self)
        ensures
            copy@ == self@,
    {
        Self {
            stages: vstd::slice::slice_to_vec(self.stages.as_slice()),
            vertex_bindings: vstd::slice::slice_to_vec(self.vertex_bindings.as_slice()),
            vertex_attributes: vstd::slice::slice_to_vec(self.vertex_attributes.as_slice()),
            state: self.state,
            layout: self.layout,
            render_pass: self.render_pass,
            subpass: self.subpass,
        }
    }
}

/// An owned pipeline cache. It may make building a pipeline again faster
/// and has no other effect.
pub struct PipelineCache(pub Owned<PipelineCacheHandle>);

impl AsRawHandle<PipelineCacheHandle> for PipelineCache {
    open spec fn raw_handle(&self) -> PipelineCacheHandle {
        self.0.raw_handle()
    }

    fn as_raw(&self) -> (raw: PipelineCacheHandle) {
        self.0.as_raw()
    }
}

impl PipelineCache {
    /// Creates an empty cache.
    pub fn create<D: Device>(gpu: &mut Gpu<D>) -> (created: Result<Self, Error>)
        ensures
            final(gpu).memory_types == old(gpu).memory_types,
            final(gpu).requests() == old(gpu).requests(),
            created matches Err(e) ==> e is Vk,
            forall|k: ObjectKind| #[trigger]
                final(gpu).live(k) == old(gpu).live(k) + (if created is Ok {
                    one(ObjectKind::PipelineCache, k)
                } else {
                    0
                }),
    {
        match Owned::<PipelineCacheHandle>::create(gpu, ()) {
            Ok(owner) => Ok(Self(owner)),
            Err(e) => Err(e),
        }
    }

    /// Compiles the pipeline that `info` describes, through this cache, and
    /// takes ownership of it. The pipeline keeps the parameters it was
    /// compiled from.
    pub fn create_pipeline<D: Device>(&self, gpu: &mut Gpu<D>, info: &GraphicsPipelineInfo) -> (created:
        Result<Pipeline, Error>)
        ensures
            final(gpu).memory_types == old(gpu).memory_types,
            final(gpu).requests() == old(gpu).requests(),
            created matches Err(e) ==> e is Vk,
            created matches Ok(pipeline) ==> pipeline.info@ == info@,
            forall|k: ObjectKind| #[trigger]
                final(gpu).live(k) == old(gpu).live(k) + (if created is Ok {
                    one(ObjectKind::Pipeline, k)
                } else {
                    0
                }),
    {
        match gpu.device.create_graphics_pipeline(self.0.as_raw(), info) {
            Ok(handle) => Ok(
                Pipeline { owner: Owned::from_raw(gpu, handle), info: info.duplicate() },
            ),
            Err(code) => Err(Error::Vk(code)),
        }
    }

    /// Destroys the cache. Pipelines built through it are not touched.
    pub fn destroy<D: Device>(self, gpu: &mut Gpu<D>)
        ensures
            final(gpu).memory_types == old(gpu).memory_types,
            final(gpu).requests() == old(gpu).requests(),
            forall|k: ObjectKind| #[trigger]
                final(gpu).live(k) == old(gpu).live(k) - one(ObjectKind::PipelineCache, k),
    {
        self.0.destroy(gpu);
    }
}

/// The handle of a pipeline.
#[derive(Clone, Copy, PartialEq, Eq, Structural, Debug)]
pub struct PipelineHandle(pub u64);

impl RawHandle for PipelineHandle {
    open spec fn kind() -> ObjectKind {
        ObjectKind::Pipeline
    }
}

impl<D: Device> Destroy<D> for PipelineHandle {
    fn destroy(self, device: &mut D) {
        device.destroy_pipeline(self)
    }
}

/// An owned pipeline with the parameters it was compiled from. A pipeline
/// is never changed: when state that is compiled into it changes, it is
/// destroyed and built again.
pub struct Pipeline {
    pub owner: Owned<PipelineHandle>,
    pub info: GraphicsPipelineInfo,
}

impl AsRawHandle<PipelineHandle> for Pipeline {
    open spec fn raw_handle(&self) -> PipelineHandle {
        self.owner.raw_handle()
    }

    fn as_raw(&self) -> (raw: PipelineHandle) {
        self.owner.as_raw()
    }
}

impl Pipeline {
    /// Destroys the pipeline.
    pub fn destroy<D: Device>(self, gpu: &mut Gpu<D>)
        ensures
            final(gpu).memory_types == old(gpu).memory_types,
            final(gpu).requests() == old(gpu).requests(),
            forall|k: ObjectKind| #[trigger]
                final(gpu).live(k) == old(gpu).live(k) - one(ObjectKind::Pipeline, k),
    {
        self.owner.destroy(gpu);
    }
}

} // verus!
