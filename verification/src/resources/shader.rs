use vstd::prelude::*;
use crate::device::backend::Device;
use crate::device::raw_handle::{one, AsRawHandle, Gpu, ObjectKind, Owned, ShaderModuleHandle};
use crate::error::Error;

verus! {

/// An owned shader module, the pipeline stage it is written for, and the
/// compiled code it was made from.
pub struct Shader(pub Owned<ShaderModuleHandle>, pub u32, pub Vec<u32>);

impl AsRawHandle<ShaderModuleHandle> for Shader {
    open spec fn raw_handle(&self) -> ShaderModuleHandle {
        self.0.raw_handle()
    }

    fn as_raw(&self) -> (raw: ShaderModuleHandle) {
        self.0.as_raw()
    }
}

impl Shader {
    /// Creates a shader module for `stage` from compiled code.
    pub fn new<D: Device>(gpu: &mut Gpu<D>, code: &[u32], stage: u32) -> (created: Result<Self, Error>)
        ensures
            final(gpu).memory_types == old(gpu).memory_types,
            final(gpu).requests() == old(gpu).requests(),
            created matches Err(e) ==> e is Vk,
            created matches Ok(shader) ==> shader.1 == stage && shader.2@ == code@,
            forall|k: ObjectKind| #[trigger]
                final(gpu).live(k) == old(gpu).live(k) + (if created is Ok {
                    one(ObjectKind::ShaderModule, k)
                } else {
                    0
                }),
    {
        match Owned::<ShaderModuleHandle>::create(gpu, code) {
            Ok(owner) => Ok(Self(owner, stage, vstd::slice::slice_to_vec(code))),
            Err(e) => Err(e),
        }
    }

    /// The compiled code the shader was made from.
    pub fn code(&self) -> (code: &[u32])
        ensures
            code@ == self.2@,
    {
        self.2.as_slice()
    }

    /// The pipeline stage the shader is written for.
    pub fn stage(&self) -> (stage: u32)
        ensures
            stage == self.1,
    {
        self.1
    }

    /// Destroys the shader module.
    pub fn destroy<D: Device>(self, gpu: &mut Gpu<D>)
        ensures
            final(gpu).memory_types == old(gpu).memory_types,
            final(gpu).requests() == old(gpu).requests(),
            forall|k: ObjectKind| #[trigger]
                final(gpu).live(k) == old(gpu).live(k) - one(ObjectKind::ShaderModule, k),
    {
        self.0.destroy(gpu);
    }
}

} // verus!
