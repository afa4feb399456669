//! What is drawn: textures, programs, materials and models, built from a
//! scene declaration and the bytes of the files it names.

pub mod definition;
pub mod material;
pub mod textures;

use vstd::prelude::*;
use crate::device::backend::Device;
use crate::device::buffer::{Buffer, BufferHandle, BufferObject};
use crate::device::command_buffer::{CommandBufferRenderPassRecorder, CommandView};
use crate::device::descriptor_set::{
    binding_sizes, descriptors_of_type, lemma_descriptors_of_type_concat, DescriptorPool,
    DescriptorSet, DescriptorSetHandle,
};
use crate::device::descriptor_set_layout::{DescriptorSetLayout, DescriptorSetLayoutHandle};
use crate::device::memory::Memory;
use crate::device::raw_handle::{
    continues, lemma_continues_twice, many, one, AsRawHandle, Gpu, ObjectKind, RenderPassHandle,
    Request,
};
use crate::device::types::{
    BufferInfo, DescriptorPoolSize, WriteDescriptor, BUFFER_USAGE_INDEX_BUFFER,
    BUFFER_USAGE_UNIFORM_BUFFER, BUFFER_USAGE_VERTEX_BUFFER,
    DESCRIPTOR_TYPE_COMBINED_IMAGE_SAMPLER, DESCRIPTOR_TYPE_UNIFORM_BUFFER,
    IMAGE_LAYOUT_SHADER_READ_ONLY_OPTIMAL, SHADER_STAGE_ALL, SHADER_STAGE_FRAGMENT,
    SHADER_STAGE_VERTEX,
};
use crate::error::Error;
use crate::resources::mesh::MeshObject;
use crate::resources::texture::Texture;
use crate::scene::definition::{find_last, last_index_of, BufferView, TextureColorSpace, TextureFormat};
use crate::scene::material::{program_bindings, Material, MaterialProgram};
use crate::device::image::spec_mip_levels;
use crate::device::image_view::whole_image_view;
use crate::device::sampler::linear_sampler;
use crate::device::types::IMAGE_ASPECT_COLOR;
use crate::scene::textures::ktx::{
    header_of, ktx_fault, ktx_image_info, ktx_view_type, load_ktx,
};
use crate::scene::textures::png::{load_png, picture_format, png_decoded, png_fault};

verus! {

/// The size of the view uniforms: two matrices and a position.
pub const VIEW_UNIFORMS_SIZE: u64 = 140;

/// The two shaders of a program as compiled code.
pub struct CompiledProgram {
    pub vertex: Vec<u32>,
    pub fragment: Vec<u32>,
}

/// What the files of a scene hold: the compiled shaders of each declared
/// program, and the bytes of each declared texture and buffer file, in
/// declaration order.
pub struct SceneAssets {
    pub shaders: Vec<CompiledProgram>,
    pub textures: Vec<Vec<u8>>,
    pub buffers: Vec<Vec<u8>>,
}

/// One mesh instance: what to draw, with which material, and the model
/// matrix as the bytes that are pushed to the shaders.
pub struct Model {
    pub transform: Vec<u8>,
    pub material: u32,
    pub mesh: MeshObject,
}

/// The numbers under which the programs of a declaration are known.
pub open spec fn program_ids(programs: Seq<definition::Program>) -> Seq<u32> {
    Seq::new(programs.len(), |i: int| programs[i].id)
}

/// The numbers under which the materials of a declaration are known.
pub open spec fn material_ids(materials: Seq<definition::Material>) -> Seq<u32> {
    Seq::new(materials.len(), |i: int| materials[i].id)
}

/// The numbers under which the textures of a declaration are known.
pub open spec fn texture_ids(textures: Seq<definition::TextureFile>) -> Seq<u32> {
    Seq::new(textures.len(), |i: int| textures[i].id)
}

/// The numbers under which the buffer files of a declaration are known.
pub open spec fn buffer_ids(buffers: Seq<definition::File>) -> Seq<u32> {
    Seq::new(buffers.len(), |i: int| buffers[i].id)
}

/// Whether a declaration hangs together and comes with its files: there
/// are the shaders of every program and the bytes of every texture and
/// buffer file; every material names a declared program and declared
/// textures; every mesh names a declared material and cuts its vertex and
/// index bytes from declared buffer files, with no more vertex buffers than
/// there are binding numbers.
pub open spec fn consistent(scene: &definition::Scene, assets: &SceneAssets) -> bool {
    &&& assets.shaders@.len() == scene.programs@.len()
    &&& assets.textures@.len() == scene.textures@.len()
    &&& assets.buffers@.len() == scene.buffers@.len()
    &&& forall|m: int|
        0 <= m < scene.materials@.len() ==> material_resolves(scene, #[trigger] scene.materials@[m])
    &&& forall|m: int|
        0 <= m < scene.meshes@.len() ==> mesh_resolves(scene, #[trigger] scene.meshes@[m])
}

/// Whether a material names a declared program and declared textures.
pub open spec fn material_resolves(scene: &definition::Scene, material: definition::Material) -> bool {
    &&& last_index_of(program_ids(scene.programs@), material.program) >= 0
    &&& forall|t: int|
        0 <= t < material.textures@.len() ==> last_index_of(
            texture_ids(scene.textures@),
            (#[trigger] material.textures@[t]).texture,
        ) >= 0
}

/// Whether a mesh names a declared material and declared buffer files.
pub open spec fn mesh_resolves(scene: &definition::Scene, mesh: definition::Mesh) -> bool {
    &&& last_index_of(material_ids(scene.materials@), mesh.material) >= 0
    &&& mesh.bindings@.len() <= u32::MAX
    &&& last_index_of(buffer_ids(scene.buffers@), mesh.indices.view.buffer) >= 0
    &&& forall|b: int|
        0 <= b < mesh.bindings@.len() ==> last_index_of(
            buffer_ids(scene.buffers@),
            (#[trigger] mesh.bindings@[b]).view.buffer,
        ) >= 0
}

fn ids_of_programs(programs: &Vec<definition::Program>) -> (ids: Vec<u32>)
    ensures
        ids@ == program_ids(programs@),
{
    let mut ids: Vec<u32> = Vec::new();
    let mut index: usize = 0;
    while index < programs.len()
        invariant
            index <= programs@.len(),
            ids@ == program_ids(programs@).take(index as int),
        decreases programs@.len() - index,
    {
        ids.push(programs[index].id);
        proof {
            assert(ids@ =~= program_ids(programs@).take(index + 1));
        }
        index = index + 1;
    }
    proof {
        assert(program_ids(programs@).take(index as int) =~= program_ids(programs@));
    }
    ids
}

fn ids_of_materials(materials: &Vec<definition::Material>) -> (ids: Vec<u32>)
    ensures
        ids@ == material_ids(materials@),
{
    let mut ids: Vec<u32> = Vec::new();
    let mut index: usize = 0;
    while index < materials.len()
        invariant
            index <= materials@.len(),
            ids@ == material_ids(materials@).take(index as int),
        decreases materials@.len() - index,
    {
        ids.push(materials[index].id);
        proof {
            assert(ids@ =~= material_ids(materials@).take(index + 1));
        }
        index = index + 1;
    }
    proof {
        assert(material_ids(materials@).take(index as int) =~= material_ids(materials@));
    }
    ids
}

fn ids_of_textures(textures: &Vec<definition::TextureFile>) -> (ids: Vec<u32>)
    ensures
        ids@ == texture_ids(textures@),
{
    let mut ids: Vec<u32> = Vec::new();
    let mut index: usize = 0;
    while index < textures.len()
        invariant
            index <= textures@.len(),
            ids@ == texture_ids(textures@).take(index as int),
        decreases textures@.len() - index,
    {
        ids.push(textures[index].id);
        proof {
            assert(ids@ =~= texture_ids(textures@).take(index + 1));
        }
        index = index + 1;
    }
    proof {
        assert(texture_ids(textures@).take(index as int) =~= texture_ids(textures@));
    }
    ids
}

fn ids_of_buffers(buffers: &Vec<definition::File>) -> (ids: Vec<u32>)
    ensures
        ids@ == buffer_ids(buffers@),
{
    let mut ids: Vec<u32> = Vec::new();
    let mut index: usize = 0;
    while index < buffers.len()
        invariant
            index <= buffers@.len(),
            ids@ == buffer_ids(buffers@).take(index as int),
        decreases buffers@.len() - index,
    {
        ids.push(buffers[index].id);
        proof {
            assert(ids@ =~= buffer_ids(buffers@).take(index + 1));
        }
        index = index + 1;
    }
    proof {
        assert(buffer_ids(buffers@).take(index as int) =~= buffer_ids(buffers@));
    }
    ids
}

fn check_material(
    material: &definition::Material,
    programs: &Vec<u32>,
    textures: &Vec<u32>,
) -> (resolves: bool)
    ensures
        resolves == (last_index_of(programs@, material.program) >= 0 && forall|t: int|
            0 <= t < material.textures@.len() ==> last_index_of(
                textures@,
                (#[trigger] material.textures@[t]).texture,
            ) >= 0),
{
    if find_last(programs, material.program).is_none() {
        return false;
    }
    let mut index: usize = 0;
    while index < material.textures.len()
        invariant
            index <= material.textures@.len(),
            forall|t: int|
                0 <= t < index ==> last_index_of(
                    textures@,
                    (#[trigger] material.textures@[t]).texture,
                ) >= 0,
        decreases material.textures@.len() - index,
    {
        if find_last(textures, material.textures[index].texture).is_none() {
            return false;
        }
        index = index + 1;
    }
    true
}

fn check_mesh(mesh: &definition::Mesh, materials: &Vec<u32>, buffers: &Vec<u32>) -> (resolves: bool)
    ensures
        resolves == (last_index_of(materials@, mesh.material) >= 0 && mesh.bindings@.len()
            <= u32::MAX && last_index_of(buffers@, mesh.indices.view.buffer) >= 0 && forall|b: int|
            0 <= b < mesh.bindings@.len() ==> last_index_of(
                buffers@,
                (#[trigger] mesh.bindings@[b]).view.buffer,
            ) >= 0),
{
    if find_last(materials, mesh.material).is_none() {
        return false;
    }
    if mesh.bindings.len() > u32::MAX as usize {
        return false;
    }
    if find_last(buffers, mesh.indices.view.buffer).is_none() {
        return false;
    }
    let mut index: usize = 0;
    while index < mesh.bindings.len()
        invariant
            index <= mesh.bindings@.len(),
            forall|b: int|
                0 <= b < index ==> last_index_of(
                    buffers@,
                    (#[trigger] mesh.bindings@[b]).view.buffer,
                ) >= 0,
        decreases mesh.bindings@.len() - index,
    {
        if find_last(buffers, mesh.bindings[index].view.buffer).is_none() {
            return false;
        }
        index = index + 1;
    }
    true
}

/// Whether a declaration hangs together and comes with its files.
pub fn is_consistent(scene: &definition::Scene, assets: &SceneAssets) -> (ok: bool)
    ensures
        ok == consistent(scene, assets),
{
    if assets.shaders.len() != scene.programs.len() || assets.textures.len()
        != scene.textures.len() || assets.buffers.len() != scene.buffers.len() {
        return false;
    }
    let programs = ids_of_programs(&scene.programs);
    let materials = ids_of_materials(&scene.materials);
    let textures = ids_of_textures(&scene.textures);
    let buffers = ids_of_buffers(&scene.buffers);
    let mut index: usize = 0;
    while index < scene.materials.len()
        invariant
            index <= scene.materials@.len(),
            programs@ == program_ids(scene.programs@),
            textures@ == texture_ids(scene.textures@),
            forall|m: int| 0 <= m < index ==> material_resolves(scene, #[trigger] scene.materials@[m]),
        decreases scene.materials@.len() - index,
    {
        if !check_material(&scene.materials[index], &programs, &textures) {
            assert(!material_resolves(scene, scene.materials@[index as int]));
            return false;
        }
        index = index + 1;
    }
    let mut index: usize = 0;
    while index < scene.meshes.len()
        invariant
            index <= scene.meshes@.len(),
            materials@ == material_ids(scene.materials@),
            buffers@ == buffer_ids(scene.buffers@),
            forall|m: int| 0 <= m < index ==> mesh_resolves(scene, #[trigger] scene.meshes@[m]),
        decreases scene.meshes@.len() - index,
    {
        if !check_mesh(&scene.meshes[index], &materials, &buffers) {
            assert(!mesh_resolves(scene, scene.meshes@[index as int]));
            return false;
        }
        index = index + 1;
    }
    true
}

/// The paths of the files that a declaration names: those of its textures,
/// then those of its buffer files, each in declaration order.
pub open spec fn asset_paths(scene: &definition::Scene) -> Seq<Seq<char>> {
    Seq::new(scene.textures@.len(), |i: int| scene.textures@[i].path@) + Seq::new(
        scene.buffers@.len(),
        |i: int| scene.buffers@[i].path@,
    )
}

/// The paths of the files that a declaration names, in the order in which
/// their bytes are asked for.
pub fn paths_of(scene: &definition::Scene) -> (paths: Vec<String>)
    ensures
        paths@.len() == asset_paths(scene).len(),
        forall|i: int| 0 <= i < paths@.len() ==> (#[trigger] paths@[i])@ == asset_paths(scene)[i],
{
    let mut paths: Vec<String> = Vec::new();
    let mut index: usize = 0;
    while index < scene.textures.len()
        invariant
            index <= scene.textures@.len(),
            paths@.len() == index,
            forall|i: int| 0 <= i < index ==> (#[trigger] paths@[i])@ == scene.textures@[i].path@,
        decreases scene.textures@.len() - index,
    {
        paths.push(scene.textures[index].path.clone());
        index = index + 1;
    }
    let mut index: usize = 0;
    while index < scene.buffers.len()
        invariant
            index <= scene.buffers@.len(),
            paths@.len() == scene.textures@.len() + index,
            forall|i: int|
                0 <= i < scene.textures@.len() ==> (#[trigger] paths@[i])@
                    == scene.textures@[i].path@,
            forall|i: int|
                0 <= i < index ==> (#[trigger] paths@[scene.textures@.len() + i])@
                    == scene.buffers@[i].path@,
        decreases scene.buffers@.len() - index,
    {
        paths.push(scene.buffers[index].path.clone());
        index = index + 1;
    }
    proof {
        assert forall|i: int| 0 <= i < paths@.len() implies (#[trigger] paths@[i])@ == asset_paths(
            scene,
        )[i] by {
            if i >= scene.textures@.len() {
                assert(paths@[scene.textures@.len() + (i - scene.textures@.len())]@
                    == scene.buffers@[i - scene.textures@.len()].path@);
            }
        }
    }
    paths
}

/// The number of buffers that `models` hold: for each model its vertex
/// buffers and its index buffer.
pub open spec fn model_buffers(models: Seq<Model>) -> int
    decreases models.len(),
{
    if models.len() == 0 {
        0
    } else {
        model_buffers(models.drop_last()) + models.last().mesh.vertex_buffers@.len() + 1
    }
}

/// What `n` programs add to the live objects of kind `kind`.
pub open spec fn programs_footprint(n: int, kind: ObjectKind) -> int {
    many(n, ObjectKind::PipelineCache, kind) + many(n, ObjectKind::DescriptorSetLayout, kind)
        + many(n, ObjectKind::PipelineLayout, kind) + many(2 * n, ObjectKind::ShaderModule, kind)
}

/// What `n` textures add to the live objects of kind `kind`.
pub open spec fn textures_footprint(n: int, kind: ObjectKind) -> int {
    many(n, ObjectKind::Image, kind) + many(n, ObjectKind::DeviceMemory, kind) + many(
        n,
        ObjectKind::ImageView,
        kind,
    ) + many(n, ObjectKind::Sampler, kind)
}

fn destroy_programs<D: Device>(gpu: &mut Gpu<D>, programs: Vec<MaterialProgram>)
    ensures
        final(gpu).memory_types == old(gpu).memory_types,
        final(gpu).requests() == old(gpu).requests(),
        forall|k: ObjectKind| #[trigger]
            final(gpu).live(k) == old(gpu).live(k) - programs_footprint(programs@.len() as int, k),
{
    let mut programs = programs;
    let ghost total = programs@.len();
    while programs.len() > 0
        invariant
            gpu.memory_types == old(gpu).memory_types,
            gpu.requests() == old(gpu).requests(),
            programs@.len() <= total,
            forall|k: ObjectKind| #[trigger]
                gpu.live(k) == old(gpu).live(k) - programs_footprint(total - programs@.len(), k),
        decreases programs@.len(),
    {
        match programs.pop() {
            Some(program) => program.destroy(gpu),
            None => {},
        }
    }
}

fn destroy_textures<D: Device>(gpu: &mut Gpu<D>, textures: Vec<Texture>)
    ensures
        final(gpu).memory_types == old(gpu).memory_types,
        final(gpu).requests() == old(gpu).requests(),
        forall|k: ObjectKind| #[trigger]
            final(gpu).live(k) == old(gpu).live(k) - textures_footprint(textures@.len() as int, k),
{
    let mut textures = textures;
    let ghost total = textures@.len();
    while textures.len() > 0
        invariant
            gpu.memory_types == old(gpu).memory_types,
            gpu.requests() == old(gpu).requests(),
            textures@.len() <= total,
            forall|k: ObjectKind| #[trigger]
                gpu.live(k) == old(gpu).live(k) - textures_footprint(total - textures@.len(), k),
        decreases textures@.len(),
    {
        match textures.pop() {
            Some(texture) => texture.destroy(gpu),
            None => {},
        }
    }
}

fn destroy_materials<D: Device>(gpu: &mut Gpu<D>, materials: Vec<Material>)
    ensures
        final(gpu).memory_types == old(gpu).memory_types,
        final(gpu).requests() == old(gpu).requests(),
        forall|k: ObjectKind| #[trigger]
            final(gpu).live(k) == old(gpu).live(k) - many(
                materials@.len() as int,
                ObjectKind::Pipeline,
                k,
            ),
{
    let mut materials = materials;
    let ghost total = materials@.len();
    while materials.len() > 0
        invariant
            gpu.memory_types == old(gpu).memory_types,
            gpu.requests() == old(gpu).requests(),
            materials@.len() <= total,
            forall|k: ObjectKind| #[trigger]
                gpu.live(k) == old(gpu).live(k) - many(
                    total - materials@.len(),
                    ObjectKind::Pipeline,
                    k,
                ),
        decreases materials@.len(),
    {
        match materials.pop() {
            Some(material) => material.pipeline.destroy(gpu),
            None => {},
        }
    }
}

fn destroy_memories<D: Device>(gpu: &mut Gpu<D>, memories: Vec<Memory>)
    ensures
        final(gpu).memory_types == old(gpu).memory_types,
        final(gpu).requests() == old(gpu).requests(),
        forall|k: ObjectKind| #[trigger]
            final(gpu).live(k) == old(gpu).live(k) - many(
                memories@.len() as int,
                ObjectKind::DeviceMemory,
                k,
            ),
{
    let mut memories = memories;
    let ghost total = memories@.len();
    while memories.len() > 0
        invariant
            gpu.memory_types == old(gpu).memory_types,
            gpu.requests() == old(gpu).requests(),
            memories@.len() <= total,
            forall|k: ObjectKind| #[trigger]
                gpu.live(k) == old(gpu).live(k) - many(
                    total - memories@.len(),
                    ObjectKind::DeviceMemory,
                    k,
                ),
        decreases memories@.len(),
    {
        match memories.pop() {
            Some(memory) => memory.destroy(gpu),
            None => {},
        }
    }
}

fn destroy_buffers<D: Device>(gpu: &mut Gpu<D>, buffers: Vec<BufferObject>)
    ensures
        final(gpu).memory_types == old(gpu).memory_types,
        final(gpu).requests() == old(gpu).requests(),
        forall|k: ObjectKind| #[trigger]
            final(gpu).live(k) == old(gpu).live(k) - many(
                buffers@.len() as int,
                ObjectKind::Buffer,
                k,
            ),
{
    let mut buffers = buffers;
    let ghost total = buffers@.len();
    while buffers.len() > 0
        invariant
            gpu.memory_types == old(gpu).memory_types,
            gpu.requests() == old(gpu).requests(),
            buffers@.len() <= total,
            forall|k: ObjectKind| #[trigger]
                gpu.live(k) == old(gpu).live(k) - many(
                    total - buffers@.len(),
                    ObjectKind::Buffer,
                    k,
                ),
        decreases buffers@.len(),
    {
        match buffers.pop() {
            Some(buffer) => buffer.destroy(gpu),
            None => {},
        }
    }
}

fn destroy_models<D: Device>(gpu: &mut Gpu<D>, models: Vec<Model>)
    ensures
        final(gpu).memory_types == old(gpu).memory_types,
        final(gpu).requests() == old(gpu).requests(),
        forall|k: ObjectKind| #[trigger]
            final(gpu).live(k) == old(gpu).live(k) - many(
                model_buffers(models@),
                ObjectKind::Buffer,
                k,
            ),
{
    let mut models = models;
    let ghost all = models@;
    while models.len() > 0
        invariant
            gpu.memory_types == old(gpu).memory_types,
            gpu.requests() == old(gpu).requests(),
            forall|k: ObjectKind| #[trigger]
                gpu.live(k) == old(gpu).live(k) - many(
                    model_buffers(all) - model_buffers(models@),
                    ObjectKind::Buffer,
                    k,
                ),
        decreases models@.len(),
    {
        let ghost before = models@;
        match models.pop() {
            Some(model) => {
                proof {
                    assert(before.drop_last() =~= models@);
                }
                model.mesh.destroy(gpu)
            },
            None => {},
        }
    }
}

/// Whether `made` holds what the materials of each declared program share,
/// made from the program's declaration and its compiled shaders for the
/// view layout `view_layout`.
pub open spec fn programs_match(
    made: Seq<MaterialProgram>,
    programs: Seq<definition::Program>,
    shaders: Seq<CompiledProgram>,
    view_layout: DescriptorSetLayoutHandle,
) -> bool {
    &&& made.len() == programs.len()
    &&& forall|i: int|
        0 <= i < made.len() ==> {
            &&& (#[trigger] made[i]).matches(&programs[i], view_layout)
            &&& made[i].vs.2@ == shaders[i].vertex@
            &&& made[i].fs.2@ == shaders[i].fragment@
        }
}

/// Creates what the materials of each declared program share. If one
/// program cannot be made, those made before it are destroyed.
fn build_programs<D: Device>(
    gpu: &mut Gpu<D>,
    programs: &Vec<definition::Program>,
    shaders: &Vec<CompiledProgram>,
    view_descriptors_layout: DescriptorSetLayoutHandle,
) -> (built: Result<Vec<MaterialProgram>, Error>)
    requires
        shaders@.len() == programs@.len(),
    ensures
        final(gpu).memory_types == old(gpu).memory_types,
        final(gpu).requests() == old(gpu).requests(),
        built matches Err(e) ==> e is Vk,
        built matches Ok(made) ==> {
            &&& made@.len() == programs@.len()
            &&& forall|i: int|
                0 <= i < made@.len() ==> {
                    &&& (#[trigger] made@[i]).matches(&programs@[i], view_descriptors_layout)
                    &&& made@[i].vs.2@ == shaders@[i].vertex@
                    &&& made@[i].fs.2@ == shaders@[i].fragment@
                }
        },
        forall|k: ObjectKind| #[trigger]
            final(gpu).live(k) == old(gpu).live(k) + (if built is Ok {
                programs_footprint(programs@.len() as int, k)
            } else {
                0
            }),
{
    let mut made: Vec<MaterialProgram> = Vec::new();
    let mut index: usize = 0;
    while index < programs.len()
        invariant
            gpu.memory_types == old(gpu).memory_types,
            gpu.requests() == old(gpu).requests(),
            index <= programs@.len(),
            shaders@.len() == programs@.len(),
            made@.len() == index,
            forall|i: int|
                0 <= i < made@.len() ==> {
                    &&& (#[trigger] made@[i]).matches(&programs@[i], view_descriptors_layout)
                    &&& made@[i].vs.2@ == shaders@[i].vertex@
                    &&& made@[i].fs.2@ == shaders@[i].fragment@
                },
            forall|k: ObjectKind| #[trigger]
                gpu.live(k) == old(gpu).live(k) + programs_footprint(index as int, k),
        decreases programs@.len() - index,
    {
        match MaterialProgram::create(
            gpu,
            &programs[index],
            shaders[index].vertex.as_slice(),
            shaders[index].fragment.as_slice(),
            view_descriptors_layout,
        ) {
            Ok(program) => made.push(program),
            Err(e) => {
                destroy_programs(gpu, made);
                return Err(e);
            },
        }
        index = index + 1;
    }
    Ok(made)
}

/// Why a declared texture cannot be loaded from the bytes of its file, and
/// `None` for one that can.
pub open spec fn texture_fault(file: definition::TextureFile, bytes: Seq<u8>) -> Option<Error> {
    match file.format {
        TextureFormat::Ktx => ktx_fault(bytes),
        TextureFormat::Png => png_fault(bytes),
    }
}

/// Whether `texture` is what loading the declared texture `file` from
/// `bytes` gives. A picture becomes a texture of the picture's size, in the
/// format of the declared color space, with a full mip chain; a container
/// becomes a texture of the size, format, levels and faces that its header
/// gives. Either has a view of its whole image and a linear sampler.
pub open spec fn loaded_from(texture: Texture, file: definition::TextureFile, bytes: Seq<u8>) -> bool {
    &&& texture.sampler.info == linear_sampler()
    &&& match file.format {
        TextureFormat::Png => {
            &&& png_decoded(bytes) matches Some(picture)
            &&& texture.wf()
            &&& texture.width == picture.width
            &&& texture.height == picture.height
            &&& texture.image.object.info.format == picture_format(
                file.space == TextureColorSpace::Srgb,
            )
            &&& texture.image.object.info.mip_levels == spec_mip_levels(
                picture.width,
                picture.height,
            ) as u32
        },
        TextureFormat::Ktx => {
            &&& texture.width == header_of(bytes).width
            &&& texture.height == header_of(bytes).height
            &&& texture.image.wf()
            &&& texture.image.object.info == ktx_image_info(header_of(bytes))
            &&& texture.image_view.info == whole_image_view(
                texture.image.object.raw_handle(),
                ktx_view_type(header_of(bytes)),
                header_of(bytes).format as i32,
                IMAGE_ASPECT_COLOR,
            )
        },
    }
}

/// Loads each declared texture from the bytes of its file, in declaration
/// order. A texture with a fault ends the loading with that fault; every
/// other error comes from the device or from its memory. If one texture
/// cannot be loaded, those loaded before it are destroyed.
fn build_textures<D: Device>(
    gpu: &mut Gpu<D>,
    textures: &Vec<definition::TextureFile>,
    files: &Vec<Vec<u8>>,
) -> (built: Result<Vec<Texture>, Error>)
    requires
        files@.len() == textures@.len(),
    ensures
        final(gpu).memory_types == old(gpu).memory_types,
        continues(old(gpu).requests(), final(gpu).requests()),
        built matches Ok(made) ==> {
            &&& made@.len() == textures@.len()
            &&& forall|i: int|
                0 <= i < made@.len() ==> (#[trigger] texture_fault(textures@[i], files@[i]@))
                    is None
            &&& forall|i: int|
                0 <= i < made@.len() ==> loaded_from(
                    #[trigger] made@[i],
                    textures@[i],
                    files@[i]@,
                )
        },
        textures@.len() > 0 && texture_fault(textures@[0], files@[0]@) is Some ==> built
            == Err::<Vec<Texture>, Error>(texture_fault(textures@[0], files@[0]@)->0)
            && final(gpu).requests() == old(gpu).requests(),
        (exists|i: int|
            0 <= i < textures@.len() && (#[trigger] texture_fault(textures@[i], files@[i]@))
                is Some) ==> built is Err,
        built matches Err(e) ==> (exists|i: int|
            0 <= i < textures@.len() && #[trigger] texture_fault(textures@[i], files@[i]@)
                == Some(e)) || e == Error::NoCompatibleMemoryType || e == Error::MapOutOfRange
            || e is Vk,
        forall|k: ObjectKind| #[trigger]
            final(gpu).live(k) == old(gpu).live(k) + (if built is Ok {
                textures_footprint(textures@.len() as int, k)
            } else {
                0
            }),
{
    let mut made: Vec<Texture> = Vec::new();
    let mut index: usize = 0;
    while index < textures.len()
        invariant
            gpu.memory_types == old(gpu).memory_types,
            index <= textures@.len(),
            files@.len() == textures@.len(),
            made@.len() == index,
            forall|i: int|
                0 <= i < index ==> (#[trigger] texture_fault(textures@[i], files@[i]@)) is None,
            forall|i: int|
                0 <= i < made@.len() ==> loaded_from(
                    #[trigger] made@[i],
                    textures@[i],
                    files@[i]@,
                ),
            index == 0 ==> gpu.requests() == old(gpu).requests(),
            continues(old(gpu).requests(), gpu.requests()),
            forall|k: ObjectKind| #[trigger]
                gpu.live(k) == old(gpu).live(k) + textures_footprint(index as int, k),
        decreases textures@.len() - index,
    {
        let ghost before = gpu.requests();
        let loaded = match textures[index].format {
            TextureFormat::Ktx => load_ktx(gpu, files[index].as_slice()),
            TextureFormat::Png => load_png(
                gpu,
                files[index].as_slice(),
                match textures[index].space {
                    TextureColorSpace::Srgb => true,
                    TextureColorSpace::Linear => false,
                },
            ),
        };
        proof {
            lemma_continues_twice(old(gpu).requests(), before, gpu.requests());
        }
        match loaded {
            Ok(texture) => {
                let ghost loaded_before = made@;
                proof {
                    assert(texture_fault(textures@[index as int], files@[index as int]@) is None);
                    assert(loaded_from(texture, textures@[index as int], files@[index as int]@));
                }
                made.push(texture);
                proof {
                    assert forall|i: int| 0 <= i < made@.len() implies loaded_from(
                        #[trigger] made@[i],
                        textures@[i],
                        files@[i]@,
                    ) by {
                        if i < index {
                            assert(made@[i] == loaded_before[i]);
                        }
                    }
                }
            },
            Err(e) => {
                proof {
                    if index > 0 {
                        assert(texture_fault(textures@[0], files@[0]@) is None);
                    }
                }
                destroy_textures(gpu, made);
                return Err(e);
            },
        }
        index = index + 1;
    }
    Ok(made)
}

/// What the descriptor set of a material takes from the pool: one
/// descriptor for each descriptor that its program declares, of the declared
/// type. A material of no declared program takes nothing.
pub open spec fn material_sizes(
    programs: Seq<definition::Program>,
    material: definition::Material,
) -> Seq<DescriptorPoolSize> {
    let at = last_index_of(program_ids(programs), material.program);
    if 0 <= at < programs.len() {
        binding_sizes(program_bindings(programs[at].descriptors@))
    } else {
        Seq::empty()
    }
}

/// What the descriptor sets of `materials` take from the pool together.
pub open spec fn materials_sizes(
    programs: Seq<definition::Program>,
    materials: Seq<definition::Material>,
) -> Seq<DescriptorPoolSize>
    decreases materials.len(),
{
    if materials.len() == 0 {
        Seq::empty()
    } else {
        materials_sizes(programs, materials.drop_last()) + material_sizes(
            programs,
            materials.last(),
        )
    }
}

/// What the descriptor set of the view takes from the pool: one uniform
/// buffer.
pub open spec fn view_sizes() -> Seq<DescriptorPoolSize> {
    seq![DescriptorPoolSize { ty: DESCRIPTOR_TYPE_UNIFORM_BUFFER, descriptor_count: 1 }]
}

/// The sizes of the descriptor pool of a scene: what the set of the view
/// takes, then what the set of each material takes, so that the pool holds
/// exactly what is allocated from it.
pub open spec fn scene_pool_sizes(
    programs: Seq<definition::Program>,
    materials: Seq<definition::Material>,
) -> Seq<DescriptorPoolSize> {
    view_sizes() + materials_sizes(programs, materials)
}

/// The sets of the first `n` materials take no more of any type than the
/// sets of all of them.
pub proof fn lemma_materials_sizes_grow(
    programs: Seq<definition::Program>,
    materials: Seq<definition::Material>,
    n: int,
    ty: i32,
)
    requires
        0 <= n <= materials.len(),
    ensures
        descriptors_of_type(materials_sizes(programs, materials.take(n)), ty)
            <= descriptors_of_type(materials_sizes(programs, materials), ty),
    decreases materials.len(),
{
    if n == materials.len() {
        assert(materials.take(n) =~= materials);
    } else {
        assert(materials.drop_last().take(n) =~= materials.take(n));
        lemma_materials_sizes_grow(programs, materials.drop_last(), n, ty);
        lemma_descriptors_of_type_concat(
            materials_sizes(programs, materials.drop_last()),
            material_sizes(programs, materials.last()),
            ty,
        );
    }
}

/// The sizes of the descriptor pool of a scene with the declared programs
/// and materials.
pub fn descriptor_pool_sizes(
    programs: &Vec<definition::Program>,
    materials: &Vec<definition::Material>,
) -> (sizes: Vec<DescriptorPoolSize>)
    ensures
        sizes@ == scene_pool_sizes(programs@, materials@),
{
    let ids = ids_of_programs(programs);
    let mut sizes: Vec<DescriptorPoolSize> = Vec::new();
    sizes.push(DescriptorPoolSize { ty: DESCRIPTOR_TYPE_UNIFORM_BUFFER, descriptor_count: 1 });
    let mut index: usize = 0;
    while index < materials.len()
        invariant
            index <= materials@.len(),
            ids@ == program_ids(programs@),
            sizes@ == view_sizes() + materials_sizes(programs@, materials@.take(index as int)),
        decreases materials@.len() - index,
    {
        let ghost before = sizes@;
        let ghost needs = material_sizes(programs@, materials@[index as int]);
        match find_last(&ids, materials[index].program) {
            Some(at) => {
                let descriptors = &programs[at].descriptors;
                let mut declared: usize = 0;
                while declared < descriptors.len()
                    invariant
                        declared <= descriptors@.len(),
                        needs == binding_sizes(program_bindings(descriptors@)),
                        sizes@ == before + needs.take(declared as int),
                    decreases descriptors@.len() - declared,
                {
                    sizes.push(
                        DescriptorPoolSize {
                            ty: descriptors[declared].ty.descriptor_type(),
                            descriptor_count: 1,
                        },
                    );
                    proof {
                        assert(sizes@ =~= before + needs.take(declared + 1));
                    }
                    declared = declared + 1;
                }
                proof {
                    assert(needs.take(declared as int) =~= needs);
                }
            },
            None => {},
        }
        proof {
            assert(materials@.take(index + 1).drop_last() =~= materials@.take(index as int));
            assert(materials@.take(index + 1).last() == materials@[index as int]);
            assert(sizes@ =~= view_sizes() + materials_sizes(
                programs@,
                materials@.take(index + 1),
            ));
        }
        index = index + 1;
    }
    proof {
        assert(materials@.take(index as int) =~= materials@);
    }
    sizes
}

/// What is written to the descriptor set `set` of a material with the
/// texture bindings `bindings`: each binding's location points at the view
/// of the texture declared under the binding's number, sampled through that
/// texture's sampler, for reading in shaders. Where two bindings name one
/// location, the later one stands.
pub open spec fn material_writes(
    set: DescriptorSetHandle,
    bindings: Seq<definition::MaterialTexture>,
    texture_ids: Seq<u32>,
    textures: Seq<Texture>,
) -> Map<u32, WriteDescriptor>
    decreases bindings.len(),
{
    if bindings.len() == 0 {
        Map::empty()
    } else {
        let texture = textures[last_index_of(texture_ids, bindings.last().texture)];
        material_writes(set, bindings.drop_last(), texture_ids, textures).insert(
            bindings.last().location,
            WriteDescriptor::Image {
                set,
                binding: bindings.last().location,
                descriptor_type: DESCRIPTOR_TYPE_COMBINED_IMAGE_SAMPLER,
                sampler: texture.sampler.raw_handle(),
                image_view: texture.image_view.raw_handle(),
                image_layout: IMAGE_LAYOUT_SHADER_READ_ONLY_OPTIMAL,
            },
        )
    }
}

/// Creates each declared material: a pipeline of its program for
/// `render_pass` at `samples` samples, and a descriptor set from `pool` that
/// points at its textures. The pool must have room for the sets of all the
/// materials; then no set is refused for want of room. If one material
/// cannot be made, the pipelines made before are destroyed.
fn build_materials<D: Device>(
    gpu: &mut Gpu<D>,
    pool: &mut DescriptorPool,
    materials: &Vec<definition::Material>,
    declared: &Vec<definition::Program>,
    program_ids: &Vec<u32>,
    programs: &Vec<MaterialProgram>,
    texture_ids: &Vec<u32>,
    textures: &Vec<Texture>,
    render_pass: RenderPassHandle,
    samples: u32,
) -> (built: Result<Vec<Material>, Error>)
    requires
        program_ids@ == self::program_ids(declared@),
        program_ids@.len() == programs@.len(),
        forall|i: int|
            0 <= i < programs@.len() ==> (#[trigger] programs@[i]).descriptors_layout@
                == program_bindings(declared@[i].descriptors@),
        old(pool).sets_allocated() + materials@.len() <= old(pool).max_sets(),
        forall|ty: i32|
            old(pool).used(ty) + descriptors_of_type(materials_sizes(declared@, materials@), ty)
                <= #[trigger] old(pool).capacity(ty),
        texture_ids@.len() == textures@.len(),
        forall|m: int|
            0 <= m < materials@.len() ==> last_index_of(
                program_ids@,
                (#[trigger] materials@[m]).program,
            ) >= 0,
        forall|m: int, t: int|
            0 <= m < materials@.len() && 0 <= t < materials@[m].textures@.len() ==> last_index_of(
                texture_ids@,
                (#[trigger] materials@[m].textures@[t]).texture,
            ) >= 0,
    ensures
        final(gpu).memory_types == old(gpu).memory_types,
        final(gpu).requests() == old(gpu).requests(),
        final(pool).raw_handle() == old(pool).raw_handle(),
        final(pool).max_sets() == old(pool).max_sets(),
        forall|ty: i32| #[trigger] final(pool).capacity(ty) == old(pool).capacity(ty),
        built matches Err(e) ==> e is Vk,
        built matches Ok(made) ==> {
            &&& made@.len() == materials@.len()
            &&& forall|i: int|
                0 <= i < made@.len() ==> (#[trigger] made@[i]).program == materials@[i].program
            &&& forall|i: int|
                0 <= i < made@.len() ==> (#[trigger] made@[i]).pipeline.info@
                    == programs@[last_index_of(
                    program_ids@,
                    materials@[i].program,
                )].pipeline_parameters(render_pass, samples)
            &&& forall|i: int|
                0 <= i < made@.len() ==> (#[trigger] made@[i]).descriptors@ == material_writes(
                    made@[i].descriptors.handle(),
                    materials@[i].textures@,
                    texture_ids@,
                    textures@,
                )
            &&& final(pool).sets_allocated() == old(pool).sets_allocated() + materials@.len()
            &&& forall|ty: i32| #[trigger]
                final(pool).used(ty) == old(pool).used(ty) + descriptors_of_type(
                    materials_sizes(declared@, materials@),
                    ty,
                )
        },
        forall|k: ObjectKind| #[trigger]
            final(gpu).live(k) == old(gpu).live(k) + (if built is Ok {
                many(materials@.len() as int, ObjectKind::Pipeline, k)
            } else {
                0
            }),
{
    let mut made: Vec<Material> = Vec::new();
    let mut index: usize = 0;
    while index < materials.len()
        invariant
            gpu.memory_types == old(gpu).memory_types,
            gpu.requests() == old(gpu).requests(),
            pool.raw_handle() == old(pool).raw_handle(),
            pool.max_sets() == old(pool).max_sets(),
            index <= materials@.len(),
            program_ids@ == self::program_ids(declared@),
            program_ids@.len() == programs@.len(),
            forall|i: int|
                0 <= i < programs@.len() ==> (#[trigger] programs@[i]).descriptors_layout@
                    == program_bindings(declared@[i].descriptors@),
            old(pool).sets_allocated() + materials@.len() <= old(pool).max_sets(),
            forall|ty: i32|
                old(pool).used(ty) + descriptors_of_type(
                    materials_sizes(declared@, materials@),
                    ty,
                ) <= #[trigger] old(pool).capacity(ty),
            forall|ty: i32| #[trigger] pool.capacity(ty) == old(pool).capacity(ty),
            pool.sets_allocated() == old(pool).sets_allocated() + index,
            forall|ty: i32| #[trigger]
                pool.used(ty) == old(pool).used(ty) + descriptors_of_type(
                    materials_sizes(declared@, materials@.take(index as int)),
                    ty,
                ),
            forall|i: int|
                0 <= i < made@.len() ==> (#[trigger] made@[i]).pipeline.info@
                    == programs@[last_index_of(
                    program_ids@,
                    materials@[i].program,
                )].pipeline_parameters(render_pass, samples),
            forall|i: int|
                0 <= i < made@.len() ==> (#[trigger] made@[i]).descriptors@ == material_writes(
                    made@[i].descriptors.handle(),
                    materials@[i].textures@,
                    texture_ids@,
                    textures@,
                ),
            texture_ids@.len() == textures@.len(),
            forall|m: int|
                0 <= m < materials@.len() ==> last_index_of(
                    program_ids@,
                    (#[trigger] materials@[m]).program,
                ) >= 0,
            forall|m: int, t: int|
                0 <= m < materials@.len() && 0 <= t < materials@[m].textures@.len()
                    ==> last_index_of(
                    texture_ids@,
                    (#[trigger] materials@[m].textures@[t]).texture,
                ) >= 0,
            made@.len() == index,
            forall|i: int|
                0 <= i < made@.len() ==> (#[trigger] made@[i]).program == materials@[i].program,
            forall|k: ObjectKind| #[trigger]
                gpu.live(k) == old(gpu).live(k) + many(index as int, ObjectKind::Pipeline, k),
        decreases materials@.len() - index,
    {
        let material = &materials[index];
        let program = match find_last(program_ids, material.program) {
            Some(at) => &programs[at],
            None => {
                proof {
                    assert(last_index_of(program_ids@, materials@[index as int].program) >= 0);
                }
                vstd::pervasive::unreached()
            },
        };
        let pipeline = match program.create_material_pipeline(gpu, render_pass, samples) {
            Ok(pipeline) => pipeline,
            Err(e) => {
                destroy_materials(gpu, made);
                return Err(e);
            },
        };
        let ghost taken = materials_sizes(declared@, materials@.take(index as int));
        let ghost needs = material_sizes(declared@, materials@[index as int]);
        proof {
            assert(materials@.take(index + 1).drop_last() =~= materials@.take(index as int));
            assert(materials@.take(index + 1).last() == materials@[index as int]);
            assert(materials_sizes(declared@, materials@.take(index + 1)) == taken + needs);
            assert(needs == binding_sizes(program.descriptors_layout@));
            assert forall|ty: i32|
                pool.used(ty) + #[trigger] descriptors_of_type(
                    binding_sizes(program.descriptors_layout@),
                    ty,
                ) <= pool.capacity(ty) by {
                lemma_materials_sizes_grow(declared@, materials@, index + 1, ty);
                lemma_descriptors_of_type_concat(taken, needs, ty);
                assert(old(pool).used(ty) + descriptors_of_type(
                    materials_sizes(declared@, materials@),
                    ty,
                ) <= old(pool).capacity(ty));
            }
            assert(pool.has_room_for(program.descriptors_layout@));
        }
        let ghost pool_before = *pool;
        let mut descriptors = match pool.allocate(gpu, &program.descriptors_layout) {
            Ok(set) => set,
            Err(e) => {
                pipeline.destroy(gpu);
                destroy_materials(gpu, made);
                return Err(e);
            },
        };
        proof {
            assert forall|ty: i32| #[trigger]
                pool.used(ty) == old(pool).used(ty) + descriptors_of_type(
                    materials_sizes(declared@, materials@.take(index + 1)),
                    ty,
                ) by {
                lemma_descriptors_of_type_concat(taken, needs, ty);
                assert(pool.used(ty) == pool_before.used(ty) + descriptors_of_type(
                    binding_sizes(program.descriptors_layout@),
                    ty,
                ));
            }
        }
        let ghost set = descriptors.handle();
        let mut bound: usize = 0;
        while bound < material.textures.len()
            invariant
                gpu.memory_types == old(gpu).memory_types,
                gpu.requests() == old(gpu).requests(),
                bound <= material.textures@.len(),
                descriptors.handle() == set,
                descriptors@ == material_writes(
                    set,
                    material.textures@.take(bound as int),
                    texture_ids@,
                    textures@,
                ),
                texture_ids@.len() == textures@.len(),
                material == materials@[index as int],
                0 <= index < materials@.len(),
                forall|m: int, t: int|
                    0 <= m < materials@.len() && 0 <= t < materials@[m].textures@.len()
                        ==> last_index_of(
                        texture_ids@,
                        (#[trigger] materials@[m].textures@[t]).texture,
                    ) >= 0,
                forall|k: ObjectKind| #[trigger]
                    gpu.live(k) == old(gpu).live(k) + many(
                        index as int + 1,
                        ObjectKind::Pipeline,
                        k,
                    ),
            decreases material.textures@.len() - bound,
        {
            let binding = material.textures[bound];
            proof {
                assert(last_index_of(
                    texture_ids@,
                    materials@[index as int].textures@[bound as int].texture,
                ) >= 0);
            }
            match find_last(texture_ids, binding.texture) {
                Some(at) => {
                    let texture = &textures[at];
                    descriptors.update_combined_image_sampler(
                        gpu,
                        binding.location,
                        texture.sampler.as_raw(),
                        texture.image_view.as_raw(),
                        IMAGE_LAYOUT_SHADER_READ_ONLY_OPTIMAL,
                    );
                },
                None => vstd::pervasive::unreached(),
            }
            proof {
                assert(material.textures@.take(bound + 1).drop_last() =~= material.textures@.take(
                    bound as int,
                ));
                assert(material.textures@.take(bound + 1).last() == material.textures@[bound as int]);
            }
            bound = bound + 1;
        }
        proof {
            assert(material.textures@.take(bound as int) =~= material.textures@);
        }
        let ghost made_before = made@;
        made.push(Material { program: material.program, pipeline, descriptors });
        proof {
            assert forall|i: int| 0 <= i < made@.len() implies (#[trigger] made@[i]).descriptors@
                == material_writes(
                made@[i].descriptors.handle(),
                materials@[i].textures@,
                texture_ids@,
                textures@,
            ) by {
                if i < index {
                    assert(made@[i] == made_before[i]);
                }
            }
            assert forall|i: int| 0 <= i < made@.len() implies (#[trigger] made@[i]).pipeline.info@
                == programs@[last_index_of(
                program_ids@,
                materials@[i].program,
            )].pipeline_parameters(render_pass, samples) by {
                if i < index {
                    assert(made@[i] == made_before[i]);
                }
            }
        }
        index = index + 1;
    }
    proof {
        assert(materials@.take(index as int) =~= materials@);
    }
    Ok(made)
}

/// Creates a buffer of its own for a range of a file's bytes and stores
/// the bytes in it. A range that leaves the file is an input error.
pub fn load_buffer_view<D: Device>(gpu: &mut Gpu<D>, file: &[u8], view: &BufferView, usage: u32) -> (loaded:
    Result<Buffer, Error>)
    ensures
        final(gpu).memory_types == old(gpu).memory_types,
        final(gpu).requests() == (match loaded {
            Ok(buffer) => old(gpu).requests().push(
                Request::Store {
                    memory: buffer.memory.raw_handle(),
                    offset: 0,
                    bytes: file@.subrange(view.offset as int, view.offset + view.size),
                },
            ),
            Err(_) => old(gpu).requests(),
        }),
        view.offset + view.size > file@.len() <==> loaded == Err::<Buffer, Error>(Error::Io),
        loaded matches Err(e) ==> e == Error::Io || e == Error::NoCompatibleMemoryType || e
            == Error::MapOutOfRange || e is Vk,
        loaded matches Ok(buffer) ==> buffer.wf() && buffer.object.info.size == view.size
            && buffer.object.info.usage == usage,
        forall|k: ObjectKind| #[trigger]
            final(gpu).live(k) == old(gpu).live(k) + (if loaded is Ok {
                Buffer::footprint(k)
            } else {
                0
            }),
{
    let length: usize = file.len();
    if view.size > length as u64 || view.offset > length as u64 - view.size {
        return Err(Error::Io);
    }
    let bytes = vstd::slice::slice_subrange(
        file,
        view.offset as usize,
        (view.offset + view.size) as usize,
    );
    let buffer = Buffer::create(gpu, view.size, usage)?;
    match buffer.write(gpu, 0, bytes) {
        Ok(()) => Ok(buffer),
        Err(e) => {
            buffer.destroy(gpu);
            Err(e)
        },
    }
}

/// Whether `buffer` is a buffer of `size` bytes for `usage` that is bound at
/// the start of a memory block.
pub open spec fn holds_view(buffer: BufferObject, size: u64, usage: u32) -> bool {
    &&& buffer.info == (BufferInfo { size, usage })
    &&& buffer.binding matches Some(binding)
    &&& binding.offset == 0
}

/// Declared meshes and the models made of them agree: same material and
/// matrix, one vertex buffer per declared binding and an index buffer, each
/// as long as its declared view and bound to memory, the declared index
/// type and count.
pub open spec fn models_match(models: Seq<Model>, meshes: Seq<definition::Mesh>) -> bool {
    &&& models.len() == meshes.len()
    &&& forall|i: int|
        0 <= i < models.len() ==> {
            &&& (#[trigger] models[i]).material == meshes[i].material
            &&& models[i].transform@ == meshes[i].transform@
            &&& models[i].mesh.vertex_buffers@.len() == meshes[i].bindings@.len()
            &&& models[i].mesh.index_type == meshes[i].indices.format.spec_index_type()
            &&& models[i].mesh.index_count == meshes[i].indices.count
            &&& holds_view(
                models[i].mesh.index_buffer,
                meshes[i].indices.view.size,
                BUFFER_USAGE_INDEX_BUFFER,
            )
            &&& forall|b: int|
                0 <= b < meshes[i].bindings@.len() ==> holds_view(
                    #[trigger] models[i].mesh.vertex_buffers@[b],
                    meshes[i].bindings@[b].view.size,
                    BUFFER_USAGE_VERTEX_BUFFER,
                )
        }
}

/// Whether the bytes that `view` names lie in the file it names: the last
/// file declared under its number.
pub open spec fn view_fits(buffer_ids: Seq<u32>, files: Seq<Vec<u8>>, view: BufferView) -> bool {
    let file = last_index_of(buffer_ids, view.buffer);
    0 <= file < files.len() && view.offset + view.size <= files[file]@.len()
}

/// Whether every view of `mesh` lies in its file.
pub open spec fn mesh_fits(buffer_ids: Seq<u32>, files: Seq<Vec<u8>>, mesh: definition::Mesh) -> bool {
    &&& view_fits(buffer_ids, files, mesh.indices.view)
    &&& forall|b: int|
        0 <= b < mesh.bindings@.len() ==> view_fits(
            buffer_ids,
            files,
            (#[trigger] mesh.bindings@[b]).view,
        )
}

/// Creates the buffers of each declared mesh, each with memory of its own
/// that holds the declared range of its file: for each mesh in declaration
/// order its vertex buffers, binding by binding, then its index buffer. A
/// view that leaves its file ends the building with an input error; every
/// other error comes from creating a buffer or storing in it. If one buffer
/// cannot be made, everything made before it is destroyed.
fn build_models<D: Device>(
    gpu: &mut Gpu<D>,
    meshes: &Vec<definition::Mesh>,
    buffer_ids: &Vec<u32>,
    files: &Vec<Vec<u8>>,
) -> (built: Result<(Vec<Memory>, Vec<Model>), Error>)
    requires
        buffer_ids@.len() == files@.len(),
        forall|m: int|
            0 <= m < meshes@.len() ==> last_index_of(
                buffer_ids@,
                (#[trigger] meshes@[m]).indices.view.buffer,
            ) >= 0,
        forall|m: int, b: int|
            0 <= m < meshes@.len() && 0 <= b < meshes@[m].bindings@.len() ==> last_index_of(
                buffer_ids@,
                (#[trigger] meshes@[m].bindings@[b]).view.buffer,
            ) >= 0,
    ensures
        final(gpu).memory_types == old(gpu).memory_types,
        continues(old(gpu).requests(), final(gpu).requests()),
        built matches Ok(made) ==> {
            &&& models_match(made.1@, meshes@)
            &&& made.0@.len() == model_buffers(made.1@)
            &&& forall|m: int|
                0 <= m < meshes@.len() ==> mesh_fits(buffer_ids@, files@, #[trigger] meshes@[m])
        },
        (exists|m: int|
            0 <= m < meshes@.len() && !mesh_fits(buffer_ids@, files@, #[trigger] meshes@[m]))
            ==> built is Err,
        built matches Err(e) ==> e == Error::Io || e == Error::NoCompatibleMemoryType || e
            == Error::MapOutOfRange || e is Vk,
        built == Err::<(Vec<Memory>, Vec<Model>), Error>(Error::Io) ==> exists|m: int|
            0 <= m < meshes@.len() && !mesh_fits(buffer_ids@, files@, #[trigger] meshes@[m]),
        forall|k: ObjectKind| #[trigger]
            final(gpu).live(k) == old(gpu).live(k) + (if built is Ok {
                many(built->Ok_0.0@.len() as int, ObjectKind::DeviceMemory, k) + many(
                    model_buffers(built->Ok_0.1@),
                    ObjectKind::Buffer,
                    k,
                )
            } else {
                0
            }),
{
    let mut memories: Vec<Memory> = Vec::new();
    let mut models: Vec<Model> = Vec::new();
    let mut index: usize = 0;
    while index < meshes.len()
        invariant
            gpu.memory_types == old(gpu).memory_types,
            continues(old(gpu).requests(), gpu.requests()),
            index <= meshes@.len(),
            buffer_ids@.len() == files@.len(),
            forall|m: int|
                0 <= m < meshes@.len() ==> last_index_of(
                    buffer_ids@,
                    (#[trigger] meshes@[m]).indices.view.buffer,
                ) >= 0,
            forall|m: int, b: int|
                0 <= m < meshes@.len() && 0 <= b < meshes@[m].bindings@.len() ==> last_index_of(
                    buffer_ids@,
                    (#[trigger] meshes@[m].bindings@[b]).view.buffer,
                ) >= 0,
            models_match(models@, meshes@.take(index as int)),
            memories@.len() == model_buffers(models@),
            forall|m: int|
                0 <= m < index ==> mesh_fits(buffer_ids@, files@, #[trigger] meshes@[m]),
            forall|k: ObjectKind| #[trigger]
                gpu.live(k) == old(gpu).live(k) + many(
                    memories@.len() as int,
                    ObjectKind::DeviceMemory,
                    k,
                ) + many(model_buffers(models@), ObjectKind::Buffer, k),
        decreases meshes@.len() - index,
    {
        let mesh = &meshes[index];
        let mut vertex_buffers: Vec<BufferObject> = Vec::new();
        let mut failure: Option<Error> = None;
        let mut at: usize = 0;
        while at < mesh.bindings.len() && failure.is_none()
            invariant
                gpu.memory_types == old(gpu).memory_types,
                continues(old(gpu).requests(), gpu.requests()),
                at <= mesh.bindings@.len(),
                0 <= index < meshes@.len(),
                mesh == meshes@[index as int],
                buffer_ids@.len() == files@.len(),
                forall|m: int, b: int|
                    0 <= m < meshes@.len() && 0 <= b < meshes@[m].bindings@.len()
                        ==> last_index_of(
                        buffer_ids@,
                        (#[trigger] meshes@[m].bindings@[b]).view.buffer,
                    ) >= 0,
                failure is None ==> vertex_buffers@.len() == at,
                failure matches Some(e) ==> e == Error::Io || e == Error::NoCompatibleMemoryType
                    || e == Error::MapOutOfRange || e is Vk,
                failure == Some(Error::Io) ==> at < mesh.bindings@.len() && !view_fits(
                    buffer_ids@,
                    files@,
                    mesh.bindings@[at as int].view,
                ),
                vertex_buffers@.len() <= at,
                memories@.len() == model_buffers(models@) + vertex_buffers@.len(),
                forall|b: int|
                    0 <= b < vertex_buffers@.len() ==> view_fits(
                        buffer_ids@,
                        files@,
                        (#[trigger] mesh.bindings@[b]).view,
                    ),
                forall|b: int|
                    0 <= b < vertex_buffers@.len() ==> holds_view(
                        #[trigger] vertex_buffers@[b],
                        mesh.bindings@[b].view.size,
                        BUFFER_USAGE_VERTEX_BUFFER,
                    ),
                forall|k: ObjectKind| #[trigger]
                    gpu.live(k) == old(gpu).live(k) + many(
                        memories@.len() as int,
                        ObjectKind::DeviceMemory,
                        k,
                    ) + many(
                        model_buffers(models@) + vertex_buffers@.len(),
                        ObjectKind::Buffer,
                        k,
                    ),
            decreases mesh.bindings@.len() - at + (if failure is None { 1int } else { 0int }),
        {
            let view = mesh.bindings[at].view;
            proof {
                assert(last_index_of(
                    buffer_ids@,
                    meshes@[index as int].bindings@[at as int].view.buffer,
                ) >= 0);
            }
            match find_last(buffer_ids, view.buffer) {
                Some(file) => match load_buffer_view(
                    gpu,
                    files[file].as_slice(),
                    &view,
                    BUFFER_USAGE_VERTEX_BUFFER,
                ) {
                    Ok(buffer) => {
                        let ghost bound = vertex_buffers@;
                        proof {
                            assert(holds_view(
                                buffer.object,
                                mesh.bindings@[at as int].view.size,
                                BUFFER_USAGE_VERTEX_BUFFER,
                            ));
                            assert(view_fits(buffer_ids@, files@, mesh.bindings@[at as int].view));
                        }
                        memories.push(buffer.memory);
                        vertex_buffers.push(buffer.object);
                        proof {
                            assert forall|b: int| 0 <= b < vertex_buffers@.len() implies holds_view(
                                #[trigger] vertex_buffers@[b],
                                mesh.bindings@[b].view.size,
                                BUFFER_USAGE_VERTEX_BUFFER,
                            ) by {
                                if b < at {
                                    assert(vertex_buffers@[b] == bound[b]);
                                }
                            }
                        }
                        at = at + 1;
                    },
                    Err(e) => {
                        failure = Some(e);
                    },
                },
                None => vstd::pervasive::unreached(),
            }
        }
        let ghost failed = failure;
        let index_buffer = match failure {
            Some(e) => Err(e),
            None => match find_last(buffer_ids, mesh.indices.view.buffer) {
                Some(file) => load_buffer_view(
                    gpu,
                    files[file].as_slice(),
                    &mesh.indices.view,
                    BUFFER_USAGE_INDEX_BUFFER,
                ),
                None => vstd::pervasive::unreached(),
            },
        };
        match index_buffer {
            Ok(buffer) => {
                proof {
                    assert(holds_view(
                        buffer.object,
                        mesh.indices.view.size,
                        BUFFER_USAGE_INDEX_BUFFER,
                    ));
                    assert(mesh_fits(buffer_ids@, files@, meshes@[index as int]));
                }
                memories.push(buffer.memory);
                let ghost before = models@;
                models.push(
                    Model {
                        transform: vstd::slice::slice_to_vec(mesh.transform.as_slice()),
                        material: mesh.material,
                        mesh: MeshObject {
                            vertex_buffers,
                            index_buffer: buffer.object,
                            index_type: mesh.indices.format.index_type(),
                            index_count: mesh.indices.count,
                        },
                    },
                );
                proof {
                    assert(models@.drop_last() =~= before);
                    assert(meshes@.take(index + 1).drop_last() =~= meshes@.take(index as int));
                    assert(meshes@.take(index + 1) =~= meshes@.take(index as int).push(
                        meshes@[index as int],
                    ));
                }
            },
            Err(e) => {
                proof {
                    if e == Error::Io {
                        if failed is Some {
                            assert(!view_fits(buffer_ids@, files@, mesh.bindings@[at as int].view));
                        } else {
                            assert(!view_fits(buffer_ids@, files@, mesh.indices.view));
                        }
                        assert(!mesh_fits(buffer_ids@, files@, meshes@[index as int]));
                    }
                }
                destroy_buffers(gpu, vertex_buffers);
                destroy_models(gpu, models);
                destroy_memories(gpu, memories);
                return Err(e);
            },
        }
        index = index + 1;
    }
    proof {
        assert(meshes@.take(index as int) =~= meshes@);
    }
    Ok((memories, models))
}

fn abandon<D: Device>(
    gpu: &mut Gpu<D>,
    view_layout: DescriptorSetLayout,
    programs: Vec<MaterialProgram>,
    pool: Option<DescriptorPool>,
    textures: Vec<Texture>,
    uniform: Option<Buffer>,
    materials: Vec<Material>,
)
    ensures
        final(gpu).memory_types == old(gpu).memory_types,
        final(gpu).requests() == old(gpu).requests(),
        forall|k: ObjectKind| #[trigger]
            final(gpu).live(k) == old(gpu).live(k) - one(ObjectKind::DescriptorSetLayout, k)
                - programs_footprint(programs@.len() as int, k) - (if pool is Some {
                one(ObjectKind::DescriptorPool, k)
            } else {
                0
            }) - textures_footprint(textures@.len() as int, k) - (if uniform is Some {
                Buffer::footprint(k)
            } else {
                0
            }) - many(materials@.len() as int, ObjectKind::Pipeline, k),
{
    destroy_materials(gpu, materials);
    match uniform {
        Some(buffer) => buffer.destroy(gpu),
        None => {},
    }
    destroy_textures(gpu, textures);
    match pool {
        Some(pool) => pool.destroy(gpu),
        None => {},
    }
    destroy_programs(gpu, programs);
    view_layout.destroy(gpu);
}

/// A scene on the device: the programs, materials and textures of a
/// declaration under their declared numbers, the models with the memory
/// their buffers are bound to, and what every model shares: the descriptor
/// pool, the descriptor set of the view and the buffer of the view's
/// uniforms.
pub struct Scene {
    pub program_ids: Vec<u32>,
    pub programs: Vec<MaterialProgram>,
    pub material_ids: Vec<u32>,
    pub materials: Vec<Material>,
    pub texture_ids: Vec<u32>,
    pub textures: Vec<Texture>,
    pub memories: Vec<Memory>,
    pub models: Vec<Model>,
    pub descriptor_pool: DescriptorPool,
    pub view_set: DescriptorSet,
    pub view_uniform_buffer: Buffer,
}

impl Scene {
    /// Every number stands for what was declared under it, every material
    /// names a program of the scene and every model a material, and no
    /// model has more vertex buffers than there are binding numbers.
    pub open spec fn wf(&self) -> bool {
        &&& self.program_ids@.len() == self.programs@.len()
        &&& self.material_ids@.len() == self.materials@.len()
        &&& self.texture_ids@.len() == self.textures@.len()
        &&& forall|i: int|
            0 <= i < self.materials@.len() ==> last_index_of(
                self.program_ids@,
                (#[trigger] self.materials@[i]).program,
            ) >= 0
        &&& forall|i: int|
            0 <= i < self.models@.len() ==> last_index_of(
                self.material_ids@,
                (#[trigger] self.models@[i]).material,
            ) >= 0 && self.models@[i].mesh.vertex_buffers@.len() <= u32::MAX
    }

    /// What the scene adds to the live objects of kind `kind`.
    pub open spec fn footprint(&self, kind: ObjectKind) -> int {
        programs_footprint(self.programs@.len() as int, kind) + many(
            self.materials@.len() as int,
            ObjectKind::Pipeline,
            kind,
        ) + textures_footprint(self.textures@.len() as int, kind) + many(
            self.memories@.len() as int,
            ObjectKind::DeviceMemory,
            kind,
        ) + many(model_buffers(self.models@), ObjectKind::Buffer, kind) + one(
            ObjectKind::DescriptorPool,
            kind,
        ) + Buffer::footprint(kind)
    }

    /// The material of `model`: the last one declared under its number.
    pub open spec fn material_of(&self, model: Model) -> Material {
        self.materials@[last_index_of(self.material_ids@, model.material)]
    }

    /// The program of `material`: the last one declared under its number.
    pub open spec fn program_of(&self, material: Material) -> MaterialProgram {
        self.programs@[last_index_of(self.program_ids@, material.program)]
    }

    /// The commands that draw `model`: bind its material's pipeline, the
    /// view's descriptor set in slot 0 and the material's in slot 1, push
    /// its matrix to the vertex and the fragment stage, and draw its mesh.
    pub open spec fn model_commands(&self, model: Model) -> Seq<CommandView> {
        let material = self.material_of(model);
        let layout = self.program_of(material).pipeline_layout.raw_handle();
        seq![
            CommandView::BindPipeline { pipeline: material.pipeline.raw_handle() },
            CommandView::BindDescriptorSet { layout, set_index: 0, set: self.view_set.handle() },
            CommandView::BindDescriptorSet {
                layout,
                set_index: 1,
                set: material.descriptors.handle(),
            },
            CommandView::PushConstants {
                layout,
                stage_flags: SHADER_STAGE_VERTEX | SHADER_STAGE_FRAGMENT,
                offset: 0,
                data: model.transform@,
            },
        ] + model.mesh.draw_commands()
    }

    /// The commands that draw models `from` and up, in order.
    pub open spec fn draw_commands(&self, from: int) -> Seq<CommandView>
        decreases self.models@.len() - from,
    {
        if from < 0 || from >= self.models@.len() {
            Seq::empty()
        } else {
            self.model_commands(self.models@[from]) + self.draw_commands(from + 1)
        }
    }

    /// Builds the scene that the parsed declaration `definition` describes
    /// from the bytes in `assets`, with material pipelines for `render_pass`
    /// at `samples` samples. The descriptor pool is sized for exactly what
    /// is allocated from it: one set with one uniform buffer for the view,
    /// and for each material one set with the descriptors that its program
    /// declares; so no set is refused for want of room. A declaration with
    /// too many materials to count, a texture with a fault and a mesh view
    /// that leaves its file end the building with an error; every other
    /// error comes from the device or from its memory. If any step fails,
    /// everything the earlier steps made is destroyed.
    pub fn parse<D: Device>(
        gpu: &mut Gpu<D>,
        definition: &definition::Scene,
        assets: &SceneAssets,
        render_pass: RenderPassHandle,
        samples: u32,
    ) -> (built: Result<Self, Error>)
        requires
            consistent(definition, assets),
        ensures
            final(gpu).memory_types == old(gpu).memory_types,
            continues(old(gpu).requests(), final(gpu).requests()),
            definition.materials@.len() >= u32::MAX ==> built == Err::<Self, Error>(
                Error::TooLarge,
            ) && final(gpu).requests() == old(gpu).requests(),
            (exists|i: int|
                0 <= i < definition.textures@.len() && (#[trigger] texture_fault(
                    definition.textures@[i],
                    assets.textures@[i]@,
                )) is Some) ==> built is Err,
            (exists|m: int|
                0 <= m < definition.meshes@.len() && !mesh_fits(
                    buffer_ids(definition.buffers@),
                    assets.buffers@,
                    #[trigger] definition.meshes@[m],
                )) ==> built is Err,
            built matches Err(e) ==> {
                ||| e == Error::TooLarge && definition.materials@.len() >= u32::MAX
                ||| exists|i: int|
                    0 <= i < definition.textures@.len() && #[trigger] texture_fault(
                        definition.textures@[i],
                        assets.textures@[i]@,
                    ) == Some(e)
                ||| e == Error::Io && exists|m: int|
                    0 <= m < definition.meshes@.len() && !mesh_fits(
                        buffer_ids(definition.buffers@),
                        assets.buffers@,
                        #[trigger] definition.meshes@[m],
                    )
                ||| e == Error::NoCompatibleMemoryType
                ||| e == Error::MapOutOfRange
                ||| e is Vk
            },
            built matches Ok(scene) ==> {
                &&& scene.wf()
                &&& scene.program_ids@ == program_ids(definition.programs@)
                &&& scene.material_ids@ == material_ids(definition.materials@)
                &&& scene.texture_ids@ == texture_ids(definition.textures@)
                &&& models_match(scene.models@, definition.meshes@)
                &&& scene.memories@.len() == model_buffers(scene.models@)
                &&& forall|i: int|
                    0 <= i < scene.textures@.len() ==> loaded_from(
                        #[trigger] scene.textures@[i],
                        definition.textures@[i],
                        assets.textures@[i]@,
                    )
                &&& exists|view_layout: DescriptorSetLayoutHandle|
                    programs_match(scene.programs@, definition.programs@, assets.shaders@, view_layout)
                &&& forall|i: int|
                    0 <= i < scene.materials@.len() ==> {
                        &&& (#[trigger] scene.materials@[i]).program
                            == definition.materials@[i].program
                        &&& scene.materials@[i].pipeline.info@ == scene.program_of(
                            scene.materials@[i],
                        ).pipeline_parameters(render_pass, samples)
                        &&& scene.materials@[i].descriptors@ == material_writes(
                            scene.materials@[i].descriptors.handle(),
                            definition.materials@[i].textures@,
                            scene.texture_ids@,
                            scene.textures@,
                        )
                    }
                &&& scene.view_set@ == Map::<u32, WriteDescriptor>::empty().insert(
                    0,
                    WriteDescriptor::Buffer {
                        set: scene.view_set.handle(),
                        binding: 0,
                        descriptor_type: DESCRIPTOR_TYPE_UNIFORM_BUFFER,
                        buffer: scene.view_uniform_buffer.object.raw_handle(),
                        offset: 0,
                        range: VIEW_UNIFORMS_SIZE,
                    },
                )
                &&& scene.descriptor_pool.max_sets() == 1 + definition.materials@.len()
                &&& scene.descriptor_pool.sets_allocated() == 1 + definition.materials@.len()
                &&& forall|ty: i32| #[trigger]
                    scene.descriptor_pool.capacity(ty) == descriptors_of_type(
                        scene_pool_sizes(definition.programs@, definition.materials@),
                        ty,
                    )
                &&& forall|ty: i32| #[trigger]
                    scene.descriptor_pool.used(ty) == scene.descriptor_pool.capacity(ty)
            },
            forall|k: ObjectKind| #[trigger]
                final(gpu).live(k) == old(gpu).live(k) + (if built is Ok {
                    built->Ok_0.footprint(k)
                } else {
                    0
                }),
    {
        if definition.materials.len() >= u32::MAX as usize {
            return Err(Error::TooLarge);
        }
        let set_count: u32 = 1 + definition.materials.len() as u32;
        let view_layout = match DescriptorSetLayout::builder().add_uniform_buffer(
            0,
            SHADER_STAGE_ALL,
        ).build(gpu) {
            Ok(layout) => layout,
            Err(e) => {
                return Err(e);
            },
        };
        let programs = match build_programs(
            gpu,
            &definition.programs,
            &assets.shaders,
            view_layout.as_raw(),
        ) {
            Ok(programs) => programs,
            Err(e) => {
                abandon(gpu, view_layout, Vec::new(), None, Vec::new(), None, Vec::new());
                return Err(e);
            },
        };
        let pool_sizes = descriptor_pool_sizes(&definition.programs, &definition.materials);
        let mut pool = match DescriptorPool::create(gpu, set_count, pool_sizes.as_slice()) {
            Ok(pool) => pool,
            Err(e) => {
                abandon(gpu, view_layout, programs, None, Vec::new(), None, Vec::new());
                return Err(e);
            },
        };
        let ghost all = materials_sizes(definition.programs@, definition.materials@);
        proof {
            assert(binding_sizes(view_layout@) =~= view_sizes());
            assert forall|ty: i32|
                pool.used(ty) + #[trigger] descriptors_of_type(binding_sizes(view_layout@), ty)
                    <= pool.capacity(ty) by {
                lemma_descriptors_of_type_concat(view_sizes(), all, ty);
            }
            assert(pool.has_room_for(view_layout@));
        }
        let textures = match build_textures(gpu, &definition.textures, &assets.textures) {
            Ok(textures) => textures,
            Err(e) => {
                abandon(gpu, view_layout, programs, Some(pool), Vec::new(), None, Vec::new());
                return Err(e);
            },
        };
        let mut view_set = match pool.allocate(gpu, &view_layout) {
            Ok(set) => set,
            Err(e) => {
                abandon(gpu, view_layout, programs, Some(pool), textures, None, Vec::new());
                return Err(e);
            },
        };
        let ghost with_view = pool;
        proof {
            assert forall|ty: i32|
                pool.used(ty) + descriptors_of_type(all, ty) <= #[trigger] pool.capacity(ty) by {
                lemma_descriptors_of_type_concat(view_sizes(), all, ty);
                assert(pool.used(ty) == descriptors_of_type(binding_sizes(view_layout@), ty));
            }
        }
        let uniform = match Buffer::create(gpu, VIEW_UNIFORMS_SIZE, BUFFER_USAGE_UNIFORM_BUFFER) {
            Ok(buffer) => buffer,
            Err(e) => {
                abandon(gpu, view_layout, programs, Some(pool), textures, None, Vec::new());
                return Err(e);
            },
        };
        let program_ids = ids_of_programs(&definition.programs);
        let material_ids = ids_of_materials(&definition.materials);
        let texture_ids = ids_of_textures(&definition.textures);
        let buffer_ids = ids_of_buffers(&definition.buffers);
        proof {
            assert forall|m: int| 0 <= m < definition.materials@.len() implies last_index_of(
                program_ids@,
                (#[trigger] definition.materials@[m]).program,
            ) >= 0 by {
                assert(material_resolves(definition, definition.materials@[m]));
            }
            assert forall|m: int, t: int|
                0 <= m < definition.materials@.len() && 0 <= t
                    < definition.materials@[m].textures@.len() implies last_index_of(
                texture_ids@,
                (#[trigger] definition.materials@[m].textures@[t]).texture,
            ) >= 0 by {
                assert(material_resolves(definition, definition.materials@[m]));
            }
            assert forall|m: int| 0 <= m < definition.meshes@.len() implies last_index_of(
                buffer_ids@,
                (#[trigger] definition.meshes@[m]).indices.view.buffer,
            ) >= 0 by {
                assert(mesh_resolves(definition, definition.meshes@[m]));
            }
            assert forall|m: int, b: int|
                0 <= m < definition.meshes@.len() && 0 <= b
                    < definition.meshes@[m].bindings@.len() implies last_index_of(
                buffer_ids@,
                (#[trigger] definition.meshes@[m].bindings@[b]).view.buffer,
            ) >= 0 by {
                assert(mesh_resolves(definition, definition.meshes@[m]));
            }
        }
        let materials = match build_materials(
            gpu,
            &mut pool,
            &definition.materials,
            &definition.programs,
            &program_ids,
            &programs,
            &texture_ids,
            &textures,
            render_pass,
            samples,
        ) {
            Ok(materials) => materials,
            Err(e) => {
                abandon(gpu, view_layout, programs, Some(pool), textures, Some(uniform), Vec::new());
                return Err(e);
            },
        };
        proof {
            assert forall|ty: i32| #[trigger] pool.used(ty) == pool.capacity(ty) by {
                lemma_descriptors_of_type_concat(view_sizes(), all, ty);
                assert(with_view.used(ty) == descriptors_of_type(
                    binding_sizes(view_layout@),
                    ty,
                ));
                assert(pool.used(ty) == with_view.used(ty) + descriptors_of_type(all, ty));
            }
        }
        let (memories, models) = match build_models(
            gpu,
            &definition.meshes,
            &buffer_ids,
            &assets.buffers,
        ) {
            Ok(made) => made,
            Err(e) => {
                abandon(gpu, view_layout, programs, Some(pool), textures, Some(uniform), materials);
                return Err(e);
            },
        };
        view_set.update_buffer(
            gpu,
            0,
            DESCRIPTOR_TYPE_UNIFORM_BUFFER,
            AsRawHandle::<BufferHandle>::as_raw(&uniform),
            0,
            VIEW_UNIFORMS_SIZE,
        );
        let ghost view_layout_handle = view_layout.raw_handle();
        view_layout.destroy(gpu);
        let scene = Self {
            program_ids,
            programs,
            material_ids,
            materials,
            texture_ids,
            textures,
            memories,
            models,
            descriptor_pool: pool,
            view_set,
            view_uniform_buffer: uniform,
        };
        proof {
            assert forall|i: int| 0 <= i < scene.models@.len() implies last_index_of(
                scene.material_ids@,
                (#[trigger] scene.models@[i]).material,
            ) >= 0 && scene.models@[i].mesh.vertex_buffers@.len() <= u32::MAX by {
                assert(mesh_resolves(definition, definition.meshes@[i]));
            }
            assert forall|i: int| 0 <= i < scene.materials@.len() implies last_index_of(
                scene.program_ids@,
                (#[trigger] scene.materials@[i]).program,
            ) >= 0 by {
                assert(material_resolves(definition, definition.materials@[i]));
            }
            assert(programs_match(
                scene.programs@,
                definition.programs@,
                assets.shaders@,
                view_layout_handle,
            ));
        }
        Ok(scene)
    }

    /// Stores the view's uniforms and records the commands that draw every
    /// model, in order. If the uniforms cannot be stored, nothing is
    /// recorded.
    pub fn render<D: Device>(
        &self,
        gpu: &mut Gpu<D>,
        recorder: &mut CommandBufferRenderPassRecorder,
        view_uniforms: &[u8],
    ) -> (rendered: Result<(), Error>)
        requires
            self.wf(),
            old(recorder).wf(),
        ensures
            final(gpu).same_live(old(gpu)),
            final(gpu).requests() == (if rendered is Ok {
                old(gpu).requests().push(
                    Request::Store {
                        memory: self.view_uniform_buffer.memory.raw_handle(),
                        offset: 0,
                        bytes: view_uniforms@,
                    },
                )
            } else {
                old(gpu).requests()
            }),
            final(recorder).wf(),
            final(recorder).raw_handle() == old(recorder).raw_handle(),
            view_uniforms@.len() > self.view_uniform_buffer.memory.size <==> rendered == Err::<
                (),
                Error,
            >(Error::MapOutOfRange),
            rendered matches Err(e) ==> e == Error::MapOutOfRange || e is Vk,
            final(recorder)@ == (if rendered is Ok {
                old(recorder)@ + self.draw_commands(0)
            } else {
                old(recorder)@
            }),
    {
        self.view_uniform_buffer.write(gpu, 0, view_uniforms)?;
        let mut index: usize = 0;
        while index < self.models.len()
            invariant
                index <= self.models@.len(),
                self.wf(),
                recorder.wf(),
                recorder.raw_handle() == old(recorder).raw_handle(),
                recorder@ + self.draw_commands(index as int) == old(recorder)@ + self.draw_commands(
                    0,
                ),
            decreases self.models@.len() - index,
        {
            let model = &self.models[index];
            let ghost before = recorder@;
            match find_last(&self.material_ids, model.material) {
                Some(at) => {
                    let material = &self.materials[at];
                    match find_last(&self.program_ids, material.program) {
                        Some(program_at) => {
                            let layout = self.programs[program_at].pipeline_layout.as_raw();
                            recorder.bind_pipeline(material.pipeline.as_raw());
                            recorder.bind_descriptor_set(layout, 0, self.view_set.as_raw());
                            recorder.bind_descriptor_set(layout, 1, material.descriptors.as_raw());
                            recorder.push(
                                layout,
                                SHADER_STAGE_VERTEX | SHADER_STAGE_FRAGMENT,
                                0,
                                model.transform.as_slice(),
                            );
                            model.mesh.draw(recorder);
                        },
                        None => vstd::pervasive::unreached(),
                    }
                },
                None => vstd::pervasive::unreached(),
            }
            proof {
                assert(recorder@ =~= before + self.model_commands(self.models@[index as int]));
                assert(before + self.draw_commands(index as int) =~= recorder@
                    + self.draw_commands(index + 1));
            }
            index = index + 1;
        }
        proof {
            assert(recorder@ + self.draw_commands(index as int) =~= recorder@);
        }
        Ok(())
    }

    /// Destroys everything the scene holds.
    pub fn destroy<D: Device>(self, gpu: &mut Gpu<D>)
        ensures
            final(gpu).memory_types == old(gpu).memory_types,
            final(gpu).requests() == old(gpu).requests(),
            forall|k: ObjectKind| #[trigger]
                final(gpu).live(k) == old(gpu).live(k) - self.footprint(k),
    {
        destroy_models(gpu, self.models);
        destroy_memories(gpu, self.memories);
        destroy_materials(gpu, self.materials);
        self.view_uniform_buffer.destroy(gpu);
        destroy_textures(gpu, self.textures);
        self.descriptor_pool.destroy(gpu);
        destroy_programs(gpu, self.programs);
    }

    /// Puts `rebuilt` in the place of this scene and then destroys what
    /// this scene held: the old scene's objects go only once the new scene
    /// stands.
    pub fn replace<D: Device>(&mut self, gpu: &mut Gpu<D>, rebuilt: Scene)
        ensures
            final(gpu).memory_types == old(gpu).memory_types,
            final(gpu).requests() == old(gpu).requests(),
            *final(self) == rebuilt,
            forall|k: ObjectKind| #[trigger]
                final(gpu).live(k) == old(gpu).live(k) - old(self).footprint(k),
    {
        let mut previous = rebuilt;
        core::mem::swap(self, &mut previous);
        previous.destroy(gpu);
    }
}

/// Corner indices of the two triangles of a quad whose corners are stored
/// from `first` on in the order top left, top right, bottom left, bottom
/// right: top left, bottom left, top right; top right, bottom left, bottom
/// right.
pub open spec fn quad_indices(first: u32) -> Seq<u32> {
    seq![
        first,
        (first + 2) as u32,
        (first + 1) as u32,
        (first + 1) as u32,
        (first + 2) as u32,
        (first + 3) as u32,
    ]
}

/// Collects the vertices and indices of a mesh made of quads.
pub struct MeshBuilder<V: Copy> {
    pub vertices: Vec<V>,
    pub indices: Vec<u32>,
}

impl<V: Copy> MeshBuilder<V> {
    /// A builder without vertices.
    pub fn new() -> (builder: Self)
        ensures
            builder.vertices@ == Seq::<V>::empty(),
            builder.indices@ == Seq::<u32>::empty(),
    {
        Self { vertices: Vec::new(), indices: Vec::new() }
    }

    /// Adds a quad with the given corners: four vertices and the six
    /// indices of its two triangles.
    pub fn quad(&mut self, tl: V, tr: V, bl: V, br: V)
        requires
            old(self).vertices@.len() + 3 <= u32::MAX,
        ensures
            final(self).vertices@ == old(self).vertices@ + seq![tl, tr, bl, br],
            final(self).indices@ == old(self).indices@ + quad_indices(
                old(self).vertices@.len() as u32,
            ),
    {
        let index: u32 = self.vertices.len() as u32;
        self.vertices.push(tl);
        self.vertices.push(tr);
        self.vertices.push(bl);
        self.vertices.push(br);
        self.indices.push(index);
        self.indices.push(index + 2);
        self.indices.push(index + 1);
        self.indices.push(index + 1);
        self.indices.push(index + 2);
        self.indices.push(index + 3);
        proof {
            assert(self.vertices@ =~= old(self).vertices@ + seq![tl, tr, bl, br]);
            assert(self.indices@ =~= old(self).indices@ + quad_indices(index));
        }
    }
}

/// What a file watcher reports of a watched file.
#[derive(Clone, Copy, PartialEq, Eq, Structural, Debug)]
pub enum Change {
    /// A write has begun; more is to come.
    NoticeWrite,
    /// A removal has begun; more is to come.
    NoticeRemove,
    /// Anything that has settled: a finished write, creation, removal, a
    /// rename, a rescan, an error.
    Settled,
}

/// Whether a reported change calls for building the scene again: a change
/// that has settled does, a mere notice does not.
pub fn calls_for_reload(change: Change) -> (reload: bool)
    ensures
        reload == (change == Change::Settled),
{
    match change {
        Change::NoticeWrite => false,
        Change::NoticeRemove => false,
        Change::Settled => true,
    }
}

} // verus!
