//! The declaration of a scene, as plain values: programs, materials,
//! textures, buffers and meshes that refer to each other by number.

use vstd::prelude::*;
use crate::device::types::{
    DESCRIPTOR_TYPE_COMBINED_IMAGE_SAMPLER, DESCRIPTOR_TYPE_UNIFORM_BUFFER, FORMAT_R32G32B32A32_SFLOAT,
    FORMAT_R32G32B32A32_UINT, FORMAT_R32G32B32_SFLOAT, FORMAT_R32G32B32_UINT,
    FORMAT_R32G32_SFLOAT, FORMAT_R32G32_UINT, FORMAT_R32_SFLOAT, FORMAT_R32_UINT,
    INDEX_TYPE_UINT16, INDEX_TYPE_UINT32, SHADER_STAGE_FRAGMENT, SHADER_STAGE_VERTEX,
};

verus! {

/// A whole scene.
pub struct Scene {
    pub programs: Vec<Program>,
    pub materials: Vec<Material>,
    pub textures: Vec<TextureFile>,
    pub buffers: Vec<File>,
    pub meshes: Vec<Mesh>,
}

/// A pair of shaders with what they take as input.
pub struct Program {
    pub id: u32,
    pub vertex_input: Vec<VertexInputBinding>,
    pub descriptors: Vec<Descriptor>,
    pub vertex: String,
    pub fragment: String,
}

/// One vertex buffer binding and the attributes read from it.
pub struct VertexInputBinding {
    pub binding: u32,
    pub stride: u32,
    pub attributes: Vec<VertexAttribute>,
}

/// One vertex attribute.
#[derive(Clone, Copy, PartialEq, Eq, Structural, Debug)]
pub struct VertexAttribute {
    pub location: u32,
    pub offset: u32,
    pub format: AttributeFormat,
}

/// The type of a vertex attribute: one to four 32-bit floats or unsigned
/// integers.
#[derive(Clone, Copy, PartialEq, Eq, Structural, Debug)]
pub enum AttributeFormat {
    F32,
    Vec2,
    Vec3,
    Vec4,
    U32,
    UVec2,
    UVec3,
    UVec4,
}

impl AttributeFormat {
    /// The format code of the attribute type.
    pub open spec fn spec_format(self) -> i32 {
        match self {
            AttributeFormat::F32 => FORMAT_R32_SFLOAT,
            AttributeFormat::Vec2 => FORMAT_R32G32_SFLOAT,
            AttributeFormat::Vec3 => FORMAT_R32G32B32_SFLOAT,
            AttributeFormat::Vec4 => FORMAT_R32G32B32A32_SFLOAT,
            AttributeFormat::U32 => FORMAT_R32_UINT,
            AttributeFormat::UVec2 => FORMAT_R32G32_UINT,
            AttributeFormat::UVec3 => FORMAT_R32G32B32_UINT,
            AttributeFormat::UVec4 => FORMAT_R32G32B32A32_UINT,
        }
    }

    /// The format code of the attribute type.
    #[verifier::when_used_as_spec(spec_format)]
    pub fn format(self) -> (format: i32)
        ensures
            format == self.spec_format(),
    {
        match self {
            AttributeFormat::F32 => FORMAT_R32_SFLOAT,
            AttributeFormat::Vec2 => FORMAT_R32G32_SFLOAT,
            AttributeFormat::Vec3 => FORMAT_R32G32B32_SFLOAT,
            AttributeFormat::Vec4 => FORMAT_R32G32B32A32_SFLOAT,
            AttributeFormat::U32 => FORMAT_R32_UINT,
            AttributeFormat::UVec2 => FORMAT_R32G32_UINT,
            AttributeFormat::UVec3 => FORMAT_R32G32B32_UINT,
            AttributeFormat::UVec4 => FORMAT_R32G32B32A32_UINT,
        }
    }
}

/// One descriptor a program reads, and the stages that read it.
pub struct Descriptor {
    pub binding: u32,
    pub ty: DescriptorType,
    pub stages: Vec<StageType>,
}

/// The kind of a descriptor.
#[derive(Clone, Copy, PartialEq, Eq, Structural, Debug)]
pub enum DescriptorType {
    Uniform,
    Texture,
}

impl DescriptorType {
    /// The descriptor type code of the kind.
    pub open spec fn spec_descriptor_type(self) -> i32 {
        match self {
            DescriptorType::Uniform => DESCRIPTOR_TYPE_UNIFORM_BUFFER,
            DescriptorType::Texture => DESCRIPTOR_TYPE_COMBINED_IMAGE_SAMPLER,
        }
    }

    /// The descriptor type code of the kind.
    #[verifier::when_used_as_spec(spec_descriptor_type)]
    pub fn descriptor_type(self) -> (code: i32)
        ensures
            code == self.spec_descriptor_type(),
    {
        match self {
            DescriptorType::Uniform => DESCRIPTOR_TYPE_UNIFORM_BUFFER,
            DescriptorType::Texture => DESCRIPTOR_TYPE_COMBINED_IMAGE_SAMPLER,
        }
    }
}

/// A shader stage.
#[derive(Clone, Copy, PartialEq, Eq, Structural, Debug)]
pub enum StageType {
    Vertex,
    Fragment,
}

impl StageType {
    /// The stage's flag bit.
    pub open spec fn spec_stage_flags(self) -> u32 {
        match self {
            StageType::Vertex => SHADER_STAGE_VERTEX,
            StageType::Fragment => SHADER_STAGE_FRAGMENT,
        }
    }

    /// The stage's flag bit.
    #[verifier::when_used_as_spec(spec_stage_flags)]
    pub fn stage_flags(self) -> (flags: u32)
        ensures
            flags == self.spec_stage_flags(),
    {
        match self {
            StageType::Vertex => SHADER_STAGE_VERTEX,
            StageType::Fragment => SHADER_STAGE_FRAGMENT,
        }
    }
}

/// A program with the textures bound to its descriptors.
pub struct Material {
    pub id: u32,
    pub program: u32,
    pub textures: Vec<MaterialTexture>,
}

/// The texture bound at one location of a material.
#[derive(Clone, Copy, PartialEq, Eq, Structural, Debug)]
pub struct MaterialTexture {
    pub location: u32,
    pub texture: u32,
}

/// A texture file.
pub struct TextureFile {
    pub id: u32,
    pub format: TextureFormat,
    pub space: TextureColorSpace,
    pub path: String,
}

/// The file format of a texture.
#[derive(Clone, Copy, PartialEq, Eq, Structural, Debug)]
pub enum TextureFormat {
    Png,
    Ktx,
}

/// The color space of a texture's texels.
#[derive(Clone, Copy, PartialEq, Eq, Structural, Debug)]
pub enum TextureColorSpace {
    Linear,
    Srgb,
}

impl Default for TextureColorSpace {
    fn default() -> (space: Self)
        ensures
            space == TextureColorSpace::Linear,
    {
        TextureColorSpace::Linear
    }
}

/// A file of raw bytes that buffer views cut from.
pub struct File {
    pub id: u32,
    pub path: String,
}

/// One mesh instance. The transform is the model matrix as the sixty-four
/// bytes that are pushed to the shaders.
pub struct Mesh {
    pub transform: Vec<u8>,
    pub material: u32,
    pub bindings: Vec<MeshBinding>,
    pub indices: MeshIndices,
}

/// The bytes bound as one vertex buffer of a mesh.
#[derive(Clone, Copy, PartialEq, Eq, Structural, Debug)]
pub struct MeshBinding {
    pub binding: u32,
    pub view: BufferView,
}

/// The indices of a mesh.
#[derive(Clone, Copy, PartialEq, Eq, Structural, Debug)]
pub struct MeshIndices {
    pub count: u32,
    pub format: MeshIndexFormat,
    pub view: BufferView,
}

/// The width of a mesh's indices.
#[derive(Clone, Copy, PartialEq, Eq, Structural, Debug)]
pub enum MeshIndexFormat {
    U16,
    U32,
}

impl MeshIndexFormat {
    /// The index type code of the width.
    pub open spec fn spec_index_type(self) -> i32 {
        match self {
            MeshIndexFormat::U16 => INDEX_TYPE_UINT16,
            MeshIndexFormat::U32 => INDEX_TYPE_UINT32,
        }
    }

    /// The index type code of the width.
    #[verifier::when_used_as_spec(spec_index_type)]
    pub fn index_type(self) -> (code: i32)
        ensures
            code == self.spec_index_type(),
    {
        match self {
            MeshIndexFormat::U16 => INDEX_TYPE_UINT16,
            MeshIndexFormat::U32 => INDEX_TYPE_UINT32,
        }
    }
}

/// A range of bytes of a buffer file.
#[derive(Clone, Copy, PartialEq, Eq, Structural, Debug)]
pub struct BufferView {
    pub buffer: u32,
    pub offset: u64,
    pub size: u64,
}

/// The index of the last entry of `ids` that is `id`, and -1 if there is
/// none: a later declaration of a number replaces an earlier one.
pub open spec fn last_index_of(ids: Seq<u32>, id: u32) -> int
    decreases ids.len(),
{
    if ids.len() == 0 {
        -1
    } else if ids.last() == id {
        ids.len() - 1
    } else {
        last_index_of(ids.drop_last(), id)
    }
}

/// What `last_index_of` finds is an index of `id`, and no later index is.
pub proof fn lemma_last_index_of(ids: Seq<u32>, id: u32)
    ensures
        -1 <= last_index_of(ids, id) < ids.len(),
        last_index_of(ids, id) >= 0 ==> ids[last_index_of(ids, id)] == id,
        forall|i: int| last_index_of(ids, id) < i < ids.len() ==> ids[i] != id,
    decreases ids.len(),
{
    if ids.len() != 0 && ids.last() != id {
        lemma_last_index_of(ids.drop_last(), id);
        assert forall|i: int| last_index_of(ids, id) < i < ids.len() implies ids[i] != id by {
            if i < ids.len() - 1 {
                assert(ids.drop_last()[i] == ids[i]);
            }
        }
    }
}

/// The index of the last entry of `ids` that is `id`.
pub fn find_last(ids: &Vec<u32>, id: u32) -> (found: Option<usize>)
    ensures
        match found {
            Some(index) => index == last_index_of(ids@, id) && index < ids@.len() && ids@[index as int]
                == id,
            None => last_index_of(ids@, id) == -1,
        },
{
    proof {
        lemma_last_index_of(ids@, id);
    }
    let mut index: usize = ids.len();
    proof {
        assert(ids@.take(index as int) =~= ids@);
    }
    while index > 0
        invariant
            index <= ids@.len(),
            last_index_of(ids@, id) == last_index_of(ids@.take(index as int), id),
        decreases index,
    {
        proof {
            assert(ids@.take(index as int).drop_last() =~= ids@.take(index - 1));
        }
        if ids[index - 1] == id {
            return Some(index - 1);
        }
        index = index - 1;
    }
    proof {
        assert(ids@.take(0) =~= Seq::<u32>::empty());
    }
    None
}

} // verus!
