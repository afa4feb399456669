use vstd::prelude::*;
use crate::device::backend::Device;
use crate::device::raw_handle::{one, AsRawHandle, Gpu, ObjectKind, Owned, SamplerHandle};
use crate::device::types::{
    SamplerInfo, FILTER_LINEAR, FILTER_NEAREST, SAMPLER_ADDRESS_MODE_CLAMP_TO_EDGE,
    SAMPLER_ADDRESS_MODE_REPEAT, SAMPLER_MIPMAP_MODE_LINEAR, SAMPLER_MIPMAP_MODE_NEAREST,
};
use crate::error::Error;

verus! {

/// An owned sampler.
pub struct Sampler {
    pub owner: Owned<SamplerHandle>,
    pub info: SamplerInfo,
}

impl AsRawHandle<SamplerHandle> for Sampler {
    open spec fn raw_handle(&self) -> SamplerHandle {
        self.owner.raw_handle()
    }

    fn as_raw(&self) -> (raw: SamplerHandle) {
        self.owner.as_raw()
    }
}

/// A sampler that takes the nearest texel of the base level and repeats the
/// image outside its edges.
pub open spec fn nearest_sampler() -> SamplerInfo {
    SamplerInfo {
        mag_filter: FILTER_NEAREST,
        min_filter: FILTER_NEAREST,
        mipmap_mode: SAMPLER_MIPMAP_MODE_NEAREST,
        address_mode_u: SAMPLER_ADDRESS_MODE_REPEAT,
        address_mode_v: SAMPLER_ADDRESS_MODE_REPEAT,
        address_mode_w: SAMPLER_ADDRESS_MODE_REPEAT,
        anisotropy_enable: false,
        max_anisotropy: 0,
        min_lod: 0,
        max_lod: 0,
    }
}

/// A sampler that filters linearly within and between the first sixteen
/// mip levels, with anisotropy up to 16, and clamps at the image's edges.
pub open spec fn linear_sampler() -> SamplerInfo {
    SamplerInfo {
        mag_filter: FILTER_LINEAR,
        min_filter: FILTER_LINEAR,
        mipmap_mode: SAMPLER_MIPMAP_MODE_LINEAR,
        address_mode_u: SAMPLER_ADDRESS_MODE_CLAMP_TO_EDGE,
        address_mode_v: SAMPLER_ADDRESS_MODE_CLAMP_TO_EDGE,
        address_mode_w: SAMPLER_ADDRESS_MODE_CLAMP_TO_EDGE,
        anisotropy_enable: true,
        max_anisotropy: 16,
        min_lod: 0,
        max_lod: 16,
    }
}

impl Sampler {
    /// Creates a sampler from `info`.
    pub fn create<D: Device>(gpu: &mut Gpu<D>, info: &SamplerInfo) -> (created: Result<Self, Error>)
        ensures
            final(gpu).memory_types == old(gpu).memory_types,
            final(gpu).requests() == old(gpu).requests(),
            created matches Err(e) ==> e is Vk,
            created matches Ok(sampler) ==> sampler.info == *info,
            forall|k: ObjectKind| #[trigger]
                final(gpu).live(k) == old(gpu).live(k) + (if created is Ok {
                    one(ObjectKind::Sampler, k)
                } else {
                    0
                }),
    {
        match Owned::<SamplerHandle>::create(gpu, info) {
            Ok(owner) => Ok(Self { owner, info: *info }),
            Err(e) => Err(e),
        }
    }

    /// Creates a nearest-texel sampler.
    pub fn nearest<D: Device>(gpu: &mut Gpu<D>) -> (created: Result<Self, Error>)
        ensures
            final(gpu).memory_types == old(gpu).memory_types,
            final(gpu).requests() == old(gpu).requests(),
            created matches Err(e) ==> e is Vk,
            created matches Ok(sampler) ==> sampler.info == nearest_sampler(),
            forall|k: ObjectKind| #[trigger]
                final(gpu).live(k) == old(gpu).live(k) + (if created is Ok {
                    one(ObjectKind::Sampler, k)
                } else {
                    0
                }),
    {
        Self::create(
            gpu,
            &SamplerInfo {
                mag_filter: FILTER_NEAREST,
                min_filter: FILTER_NEAREST,
                mipmap_mode: SAMPLER_MIPMAP_MODE_NEAREST,
                address_mode_u: SAMPLER_ADDRESS_MODE_REPEAT,
                address_mode_v: SAMPLER_ADDRESS_MODE_REPEAT,
                address_mode_w: SAMPLER_ADDRESS_MODE_REPEAT,
                anisotropy_enable: false,
                max_anisotropy: 0,
                min_lod: 0,
                max_lod: 0,
            },
        )
    }

    /// Creates a linear, anisotropic, edge-clamping sampler.
    pub fn linear<D: Device>(gpu: &mut Gpu<D>) -> (created: Result<Self, Error>)
        ensures
            final(gpu).memory_types == old(gpu).memory_types,
            final(gpu).requests() == old(gpu).requests(),
            created matches Err(e) ==> e is Vk,
            created matches Ok(sampler) ==> sampler.info == linear_sampler(),
            forall|k: ObjectKind| #[trigger]
                final(gpu).live(k) == old(gpu).live(k) + (if created is Ok {
                    one(ObjectKind::Sampler, k)
                } else {
                    0
                }),
    {
        Self::create(
            gpu,
            &SamplerInfo {
                mag_filter: FILTER_LINEAR,
                min_filter: FILTER_LINEAR,
                mipmap_mode: SAMPLER_MIPMAP_MODE_LINEAR,
                address_mode_u: SAMPLER_ADDRESS_MODE_CLAMP_TO_EDGE,
                address_mode_v: SAMPLER_ADDRESS_MODE_CLAMP_TO_EDGE,
                address_mode_w: SAMPLER_ADDRESS_MODE_CLAMP_TO_EDGE,
                anisotropy_enable: true,
                max_anisotropy: 16,
                min_lod: 0,
                max_lod: 16,
            },
        )
    }

    /// Destroys the sampler.
    pub fn destroy<D: Device>(self, gpu: &mut Gpu<D>)
        ensures
            final(gpu).memory_types == old(gpu).memory_types,
            final(gpu).requests() == old(gpu).requests(),
            forall|k: ObjectKind| #[trigger]
                final(gpu).live(k) == old(gpu).live(k) - one(ObjectKind::Sampler, k),
    {
        self.owner.destroy(gpu);
    }
}

} // verus!
