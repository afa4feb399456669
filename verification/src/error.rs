use vstd::prelude::*;

verus! {

/// A result code reported by the GPU interface for a call that did not
/// succeed. The code is carried as the interface's raw signed number.
#[derive(Clone, Copy, PartialEq, Eq, Structural, Debug)]
pub struct VkError(pub i32);

/// Everything that can go wrong while building or driving GPU resources.
#[derive(Clone, Copy, PartialEq, Eq, Structural, Debug)]
pub enum Error {
    /// The GPU interface reported an error code.
    Vk(VkError),
    /// No queue family or device offers what rendering needs.
    VkSupport,
    /// No memory type lies in both the resource's and the caller's mask.
    NoCompatibleMemoryType,
    /// A mapping was asked for a range that leaves the memory block.
    MapOutOfRange,
    /// A descriptor pool has no room left for the requested set.
    PoolExhausted,
    /// A texture container is malformed or uses an unsupported layout.
    Ktx,
    /// A decoded picture has a pixel layout that cannot be uploaded.
    Png,
    /// A byte range of an asset lies outside the asset.
    Io,
    /// A size or count does not fit the numbers the GPU interface works
    /// with.
    TooLarge,
}

/// What the fallible operations of this crate return.
pub type Result<T> = core::result::Result<T, Error>;

} // verus!
