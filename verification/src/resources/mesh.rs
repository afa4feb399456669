use vstd::prelude::*;
use crate::device::backend::Device;
use crate::device::buffer::BufferObject;
use crate::device::command_buffer::{CommandBufferRenderPassRecorder, CommandView};
use crate::device::memory::{
    is_mappable, word_bytes, written, Memory, MemoryMapping, MemoryTypeIndex, MemoryTypeMask,
};
use crate::device::raw_handle::{extends, many, one, AsRawHandle, Gpu, ObjectKind, Request};
use crate::device::types::{
    BufferInfo, MemoryBinding, MemoryRequirements, BUFFER_USAGE_INDEX_BUFFER,
    BUFFER_USAGE_VERTEX_BUFFER, INDEX_TYPE_UINT32,
};
use crate::error::Error;

verus! {

/// What is drawn for a mesh: its vertex buffers, one per binding from 0 on,
/// and its index buffer with the type and number of indices.
pub struct MeshObject {
    pub vertex_buffers: Vec<BufferObject>,
    pub index_buffer: BufferObject,
    pub index_type: i32,
    pub index_count: u32,
}

impl MeshObject {
    /// The commands that bind vertex buffers `from` and up.
    pub open spec fn vertex_binds(&self, from: int) -> Seq<CommandView>
        decreases self.vertex_buffers@.len() - from,
    {
        if from < 0 || from >= self.vertex_buffers@.len() {
            Seq::empty()
        } else {
            seq![
                CommandView::BindVertexBuffer {
                    binding: from as u32,
                    buffer: self.vertex_buffers@[from].raw_handle(),
                },
            ] + self.vertex_binds(from + 1)
        }
    }

    /// The commands that draw the mesh: bind each vertex buffer to its
    /// binding, bind the index buffer, draw every index.
    pub open spec fn draw_commands(&self) -> Seq<CommandView> {
        self.vertex_binds(0) + seq![
            CommandView::BindIndexBuffer {
                buffer: self.index_buffer.raw_handle(),
                index_type: self.index_type,
            },
            CommandView::DrawIndexed { index_count: self.index_count },
        ]
    }

    /// What the buffers add to the live objects of kind `kind`.
    pub open spec fn footprint(&self, kind: ObjectKind) -> int {
        many(self.vertex_buffers@.len() as int + 1, ObjectKind::Buffer, kind)
    }

    /// Records the commands that draw the mesh.
    pub fn draw(&self, cmd: &mut CommandBufferRenderPassRecorder)
        requires
            old(cmd).wf(),
            self.vertex_buffers@.len() <= u32::MAX,
        ensures
            final(cmd).wf(),
            final(cmd).raw_handle() == old(cmd).raw_handle(),
            final(cmd)@ == old(cmd)@ + self.draw_commands(),
    {
        let mut index: usize = 0;
        while index < self.vertex_buffers.len()
            invariant
                index <= self.vertex_buffers@.len(),
                self.vertex_buffers@.len() <= u32::MAX,
                cmd.wf(),
                cmd.raw_handle() == old(cmd).raw_handle(),
                cmd@ + self.vertex_binds(index as int) == old(cmd)@ + self.vertex_binds(0),
            decreases self.vertex_buffers@.len() - index,
        {
            let ghost before = cmd@;
            cmd.bind_vertex_buffer(index as u32, self.vertex_buffers[index].as_raw());
            proof {
                let bind = CommandView::BindVertexBuffer {
                    binding: index as u32,
                    buffer: self.vertex_buffers@[index as int].raw_handle(),
                };
                assert(before + self.vertex_binds(index as int) =~= before.push(bind)
                    + self.vertex_binds(index + 1));
            }
            index = index + 1;
        }
        proof {
            assert(cmd@ + self.vertex_binds(index as int) =~= cmd@);
        }
        let ghost bound = cmd@;
        cmd.bind_index_buffer(self.index_buffer.as_raw(), self.index_type);
        cmd.draw_indexed(self.index_count);
        proof {
            assert(cmd@ =~= old(cmd)@ + self.draw_commands());
        }
    }

    /// Destroys the buffers. Their memory is not touched.
    pub fn destroy<D: Device>(self, gpu: &mut Gpu<D>)
        ensures
            final(gpu).memory_types == old(gpu).memory_types,
            final(gpu).requests() == old(gpu).requests(),
            forall|k: ObjectKind| #[trigger]
                final(gpu).live(k) == old(gpu).live(k) - self.footprint(k),
    {
        let mut vertex_buffers = self.vertex_buffers;
        let ghost total = vertex_buffers@.len();
        while vertex_buffers.len() > 0
            invariant
                gpu.memory_types == old(gpu).memory_types,
                gpu.requests() == old(gpu).requests(),
                vertex_buffers@.len() <= total,
                forall|k: ObjectKind| #[trigger]
                    gpu.live(k) == old(gpu).live(k) - many(
                        total - vertex_buffers@.len(),
                        ObjectKind::Buffer,
                        k,
                    ),
            decreases vertex_buffers@.len(),
        {
            match vertex_buffers.pop() {
                Some(buffer) => buffer.destroy(gpu),
                None => {},
            }
        }
        self.index_buffer.destroy(gpu);
    }
}

/// A mesh whose vertex and index buffer share one memory block: the vertex
/// buffer is bound at the start, the index buffer right behind what the
/// device asks for the vertex buffer.
pub struct Mesh {
    pub memory: Memory,
    pub object: MeshObject,
}

/// What the shared block of a mesh holds once it is filled: the vertex
/// bytes at the start and the indices, as little-endian words, from
/// `indices_offset` on.
pub open spec fn mesh_bytes(
    before: Seq<u8>,
    vertices: Seq<u8>,
    indices: Seq<u32>,
    indices_offset: int,
) -> Seq<u8> {
    written(written(before, 0, vertices), indices_offset, word_bytes(indices))
}

/// Stores vertex bytes and indices in a mapping of a mesh's block.
pub fn fill_mesh_memory(
    mapping: &mut MemoryMapping,
    vertices: &[u8],
    indices: &[u32],
    indices_offset: usize,
)
    requires
        old(mapping).wf(),
        vertices@.len() <= old(mapping)@.len(),
        indices_offset + 4 * indices@.len() <= old(mapping)@.len(),
    ensures
        final(mapping).wf(),
        final(mapping)@ == mesh_bytes(old(mapping)@, vertices@, indices@, indices_offset as int),
        final(mapping).memory() == old(mapping).memory(),
        final(mapping).offset() == old(mapping).offset(),
        final(mapping).stores() == old(mapping).stores().push(
            Request::Store {
                memory: old(mapping).memory(),
                offset: old(mapping).offset(),
                bytes: vertices@,
            },
        ).push(
            Request::Store {
                memory: old(mapping).memory(),
                offset: (old(mapping).offset() + indices_offset) as u64,
                bytes: word_bytes(indices@),
            },
        ),
{
    mapping.write(0, vertices);
    mapping.write_slice(indices_offset, indices);
}

/// Where the two buffers of a mesh lie in their one block: the size of the
/// block, the memory types both buffers allow, and the offset of the index
/// buffer. The vertex buffer lies at offset 0.
#[derive(Clone, Copy, PartialEq, Eq, Structural, Debug)]
pub struct MeshLayout {
    pub size: u64,
    pub memory_types: MemoryTypeMask,
    pub indices_offset: usize,
}

/// Whether one block can hold `vertex_bytes` bytes of vertices and
/// `index_bytes` bytes of indices in buffers that ask for `vertex` and
/// `index`: each buffer's data fits what the device asks for it, and the
/// sum of what it asks for both can be mapped at once.
pub open spec fn mesh_fits_block(
    vertex: MemoryRequirements,
    index: MemoryRequirements,
    vertex_bytes: int,
    index_bytes: int,
) -> bool {
    &&& vertex.size + index.size <= usize::MAX
    &&& vertex_bytes <= vertex.size
    &&& index_bytes <= index.size
}

/// Lays out the block of a mesh from what the device asks for its two
/// buffers: the block is as large as both together, of a memory type both
/// allow, and the index buffer follows the vertex buffer. Data that does
/// not fit is a range error.
pub fn mesh_layout(
    vertex: MemoryRequirements,
    index: MemoryRequirements,
    vertex_bytes: usize,
    index_bytes: usize,
) -> (layout: Result<MeshLayout, Error>)
    ensures
        layout == (if mesh_fits_block(vertex, index, vertex_bytes as int, index_bytes as int) {
            Ok::<MeshLayout, Error>(
                MeshLayout {
                    size: (vertex.size + index.size) as u64,
                    memory_types: MemoryTypeMask(vertex.memory_type_bits & index.memory_type_bits),
                    indices_offset: vertex.size as usize,
                },
            )
        } else {
            Err::<MeshLayout, Error>(Error::MapOutOfRange)
        }),
{
    let fits = vertex.size <= usize::MAX as u64 && index.size <= usize::MAX as u64 - vertex.size
        && vertex_bytes as u64 <= vertex.size && index_bytes as u64 <= index.size;
    if !fits {
        return Err(Error::MapOutOfRange);
    }
    Ok(
        MeshLayout {
            size: vertex.size + index.size,
            memory_types: MemoryTypeMask(vertex.memory_type_bits & index.memory_type_bits),
            indices_offset: vertex.size as usize,
        },
    )
}

impl Mesh {
    /// What a mesh adds to the live objects of kind `kind`: two buffers and
    /// one memory block.
    pub open spec fn footprint(kind: ObjectKind) -> int {
        many(2, ObjectKind::Buffer, kind) + one(ObjectKind::DeviceMemory, kind)
    }

    /// The vertex and the index buffer are bound into the one block, which
    /// is as large as the device asks for both together: the vertex buffer
    /// at offset 0, the index buffer at the size the device asks for the
    /// vertex buffer.
    pub open spec fn wf(&self) -> bool {
        &&& self.object.vertex_buffers@.len() == 1
        &&& self.object.vertex_buffers@[0].requirements matches Some(vertex)
        &&& self.object.index_buffer.requirements matches Some(index)
        &&& self.memory.size == vertex.size + index.size
        &&& MemoryTypeMask(vertex.memory_type_bits & index.memory_type_bits).contains(
            self.memory.type_index,
        )
        &&& self.object.vertex_buffers@[0].binding == Some(
            MemoryBinding { memory: self.memory.raw_handle(), offset: 0 },
        )
        &&& self.object.index_buffer.binding == Some(
            MemoryBinding { memory: self.memory.raw_handle(), offset: vertex.size },
        )
    }

    /// Creates a mesh from vertex bytes and 32-bit indices. Both buffers
    /// are created, the device is asked what each needs, one mappable block
    /// is laid out for both as `mesh_layout` says and allocated, the
    /// vertices and then the indices are stored in it, and the buffers are
    /// bound. More indices than a draw can count are refused before the
    /// device is asked anything. If any step fails, what the earlier steps
    /// made is destroyed.
    pub fn create<D: Device>(gpu: &mut Gpu<D>, vertices: &[u8], indices: &[u32]) -> (created: Result<
        Self,
        Error,
    >)
        requires
            4 * indices@.len() <= usize::MAX,
        ensures
            final(gpu).memory_types == old(gpu).memory_types,
            indices@.len() > u32::MAX <==> created == Err::<Self, Error>(Error::TooLarge),
            indices@.len() > u32::MAX ==> final(gpu).requests() == old(gpu).requests(),
            created matches Err(_) ==> extends(old(gpu).requests(), final(gpu).requests(), 2),
            created matches Ok(mesh) ==> final(gpu).requests() == old(gpu).requests().push(
                Request::Store { memory: mesh.memory.raw_handle(), offset: 0, bytes: vertices@ },
            ).push(
                Request::Store {
                    memory: mesh.memory.raw_handle(),
                    offset: mesh.object.vertex_buffers@[0].requirements->0.size,
                    bytes: word_bytes(indices@),
                },
            ),
            created matches Err(e) ==> e == Error::TooLarge || e == Error::NoCompatibleMemoryType
                || e == Error::MapOutOfRange || e is Vk,
            created matches Ok(mesh) ==> {
                &&& mesh.wf()
                &&& is_mappable(old(gpu).memory_types@, mesh.memory.type_index)
                &&& forall|i: MemoryTypeIndex|
                    #[trigger] MemoryTypeMask(
                        mesh.object.vertex_buffers@[0].requirements->0.memory_type_bits
                            & mesh.object.index_buffer.requirements->0.memory_type_bits,
                    ).contains(i) && is_mappable(old(gpu).memory_types@, i)
                        ==> mesh.memory.type_index.0 <= i.0
                &&& mesh.object.vertex_buffers@[0].info == (BufferInfo {
                    size: vertices@.len() as u64,
                    usage: BUFFER_USAGE_VERTEX_BUFFER,
                })
                &&& mesh.object.index_buffer.info == (BufferInfo {
                    size: (4 * indices@.len()) as u64,
                    usage: BUFFER_USAGE_INDEX_BUFFER,
                })
                &&& vertices@.len() <= mesh.object.vertex_buffers@[0].requirements->0.size
                &&& 4 * indices@.len() <= mesh.object.index_buffer.requirements->0.size
                &&& mesh.object.index_type == INDEX_TYPE_UINT32
                &&& mesh.object.index_count == indices@.len()
            },
            forall|k: ObjectKind| #[trigger]
                final(gpu).live(k) == old(gpu).live(k) + (if created is Ok {
                    Self::footprint(k)
                } else {
                    0
                }),
    {
        if indices.len() > u32::MAX as usize {
            return Err(Error::TooLarge);
        }
        let mut vertex_buffer = BufferObject::create(
            gpu,
            vertices.len() as u64,
            BUFFER_USAGE_VERTEX_BUFFER,
        )?;
        let mut index_buffer = match BufferObject::create(
            gpu,
            (4 * indices.len()) as u64,
            BUFFER_USAGE_INDEX_BUFFER,
        ) {
            Ok(buffer) => buffer,
            Err(e) => {
                vertex_buffer.destroy(gpu);
                return Err(e);
            },
        };
        let vertex_requirements = vertex_buffer.memory_requirements(gpu);
        let index_requirements = index_buffer.memory_requirements(gpu);
        let layout = match mesh_layout(
            vertex_requirements,
            index_requirements,
            vertices.len(),
            4 * indices.len(),
        ) {
            Ok(layout) => layout,
            Err(e) => {
                index_buffer.destroy(gpu);
                vertex_buffer.destroy(gpu);
                return Err(e);
            },
        };
        let merged_size: u64 = layout.size;
        let indices_offset: usize = layout.indices_offset;
        let memory = match Memory::allocate_mappable(gpu, merged_size, layout.memory_types) {
            Ok(memory) => memory,
            Err(e) => {
                index_buffer.destroy(gpu);
                vertex_buffer.destroy(gpu);
                return Err(e);
            },
        };
        let filled = match memory.map(gpu, 0, merged_size as usize) {
            Ok(mut mapping) => {
                fill_mesh_memory(&mut mapping, vertices, indices, indices_offset);
                mapping.unmap(gpu);
                Ok(())
            },
            Err(e) => Err(e),
        };
        let bound = match filled {
            Ok(()) => match vertex_buffer.bind_memory(gpu, memory.as_raw(), 0) {
                Ok(()) => index_buffer.bind_memory(gpu, memory.as_raw(), indices_offset as u64),
                Err(e) => Err(e),
            },
            Err(e) => Err(e),
        };
        match bound {
            Ok(()) => {
                let mut vertex_buffers: Vec<BufferObject> = Vec::new();
                vertex_buffers.push(vertex_buffer);
                Ok(
                    Self {
                        memory,
                        object: MeshObject {
                            vertex_buffers,
                            index_buffer,
                            index_type: INDEX_TYPE_UINT32,
                            index_count: indices.len() as u32,
                        },
                    },
                )
            },
            Err(e) => {
                memory.destroy(gpu);
                index_buffer.destroy(gpu);
                vertex_buffer.destroy(gpu);
                Err(e)
            },
        }
    }

    /// Records the commands that draw the mesh.
    pub fn draw(&self, cmd: &mut CommandBufferRenderPassRecorder)
        requires
            old(cmd).wf(),
            self.object.vertex_buffers@.len() <= u32::MAX,
        ensures
            final(cmd).wf(),
            final(cmd).raw_handle() == old(cmd).raw_handle(),
            final(cmd)@ == old(cmd)@ + self.object.draw_commands(),
    {
        self.object.draw(cmd);
    }

    /// Destroys both buffers and frees the block.
    pub fn destroy<D: Device>(self, gpu: &mut Gpu<D>)
        requires
            self.object.vertex_buffers@.len() == 1,
        ensures
            final(gpu).memory_types == old(gpu).memory_types,
            final(gpu).requests() == old(gpu).requests(),
            forall|k: ObjectKind| #[trigger]
                final(gpu).live(k) == old(gpu).live(k) - Self::footprint(k),
    {
        self.object.destroy(gpu);
        self.memory.destroy(gpu);
    }
}

} // verus!
