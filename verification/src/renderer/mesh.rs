//! Vertex buffers and meshes: what the renderer remembers of the objects it
//! has made in the driver, and the numbers it hands the driver for them.
//!
//! The driver calls themselves are made by the program. It reports the names
//! that the driver generated and is told sizes, counts and what to do next.

use vstd::prelude::*;
use crate::renderer::constants;

verus! {

/// A vertex array object, known by the name the driver gave it.
pub struct Vao {
    pub id: u32,
}

impl Vao {
    /// The record of the vertex array that the driver named `id`.
    pub fn new(id: u32) -> (r: Vao)
        ensures
            r.id == id,
    {
        Vao { id }
    }
}

/// What a buffer holds: vertex attributes or indices.
#[derive(Clone, Copy, Debug, PartialEq, Eq)]
pub enum VboType {
    Vertex,
    Index,
}

impl VboType {
    /// The driver's binding target for buffers of this kind.
    pub open spec fn gl_type_spec(self) -> u32 {
        match self {
            VboType::Vertex => 0x8892,
            VboType::Index => 0x8893,
        }
    }

    /// The driver's binding target for buffers of this kind:
    /// `ARRAY_BUFFER` for vertices, `ELEMENT_ARRAY_BUFFER` for indices.
    pub fn to_gl_type(&self) -> (r: u32)
        ensures
            r == self.gl_type_spec(),
    {
        match self {
            VboType::Vertex => constants::array_buffer(),
            VboType::Index => constants::element_array_buffer(),
        }
    }
}

/// A buffer object: its name, its kind, and how many elements were put in it.
pub struct Vbo {
    pub id: u32,
    pub ty: VboType,
    pub data_count: usize,
}

impl Vbo {
    /// The record of a buffer that the driver named `id` and that holds
    /// nothing yet.
    pub fn new(id: u32, ty: VboType) -> (r: Vbo)
        ensures
            r == (Vbo { id, ty, data_count: 0 }),
    {
        Vbo { id, ty, data_count: 0 }
    }

    /// The record of a buffer named `id` for `count` elements of `elem_size`
    /// bytes each, and the number of bytes to upload into it. With zero bytes
    /// there is nothing to upload, and the buffer need not even be bound.
    pub fn from_data(id: u32, ty: VboType, count: usize, elem_size: usize) -> (r: (Vbo, isize))
        requires
            count * elem_size <= isize::MAX,
        ensures
            r.0 == (Vbo { id, ty, data_count: count }),
            r.1 == count * elem_size,
    {
        let bytes = Self::byte_size(count, elem_size);
        (Vbo { id, ty, data_count: count }, bytes)
    }

    /// The number of bytes with which to overwrite the buffer's contents by
    /// `count` elements of `elem_size` bytes. A buffer is overwritten in
    /// full: `count` is the number of elements it was made for, and not zero.
    pub fn update(&self, count: usize, elem_size: usize) -> (bytes: isize)
        requires
            count == self.data_count,
            count > 0,
            count * elem_size <= isize::MAX,
        ensures
            bytes == self.data_count * elem_size,
    {
        Self::byte_size(self.data_count, elem_size)
    }

    fn byte_size(count: usize, elem_size: usize) -> (bytes: isize)
        requires
            count * elem_size <= isize::MAX,
        ensures
            bytes == count * elem_size,
    {
        assert(count * elem_size <= usize::MAX);
        let bytes: usize = count * elem_size;
        bytes as isize
    }
}

/// The vertex attributes a mesh can carry.
#[derive(Clone, Copy, Debug, PartialEq, Eq)]
pub enum MeshAttrib {
    Position,
    Texcoord,
    Color,
}

impl MeshAttrib {
    /// The attribute's slot: 0 for positions, 1 for texture coordinates, 2 for
    /// colours.
    pub open spec fn index_spec(self) -> int {
        match self {
            MeshAttrib::Position => 0,
            MeshAttrib::Texcoord => 1,
            MeshAttrib::Color => 2,
        }
    }

    /// The number of components per vertex: 3 for positions, 2 for texture
    /// coordinates, 4 for colours.
    pub open spec fn component_count_spec(self) -> int {
        match self {
            MeshAttrib::Position => 3,
            MeshAttrib::Texcoord => 2,
            MeshAttrib::Color => 4,
        }
    }

    /// The attribute's slot, which is also its location in the shaders.
    pub fn index(&self) -> (r: u32)
        ensures
            r == self.index_spec(),
    {
        match self {
            MeshAttrib::Position => 0,
            MeshAttrib::Texcoord => 1,
            MeshAttrib::Color => 2,
        }
    }

    /// The number of components that one vertex has of this attribute.
    pub fn get_component_count(&self) -> (r: i32)
        ensures
            r == self.component_count_spec(),
    {
        match self {
            MeshAttrib::Position => 3,
            MeshAttrib::Texcoord => 2,
            MeshAttrib::Color => 4,
        }
    }
}

/// What is to be done with the data for one attribute of a mesh.
#[derive(Clone, Copy, Debug, PartialEq, Eq)]
pub enum BufferUpdate {
    /// The attribute has a buffer: overwrite it, `bytes` bytes in all.
    Overwrite { vbo: u32, bytes: isize },
    /// The attribute has no buffer yet: make one and attach it.
    Create,
}

/// What is to be drawn for a mesh: the vertex array to bind and the number of
/// indices to draw from it, as triangles.
#[derive(Clone, Copy, Debug, PartialEq, Eq)]
pub struct DrawCall {
    pub vao: u32,
    pub index_count: i32,
}

/// A mesh: a vertex array, one buffer per attribute that it has, and an index
/// buffer.
pub struct Mesh {
    pub vao: Vao,
    pub vbos: [Option<Vbo>; 3],
    pub ibo: Vbo,
    pub vertex_count: i32,
    pub index_count: i32,
}

impl Mesh {
    /// The buffer of `attrib`, if the mesh has one.
    pub open spec fn buffer_spec(self, attrib: MeshAttrib) -> Option<Vbo> {
        self.vbos[attrib.index_spec()]
    }

    /// The mesh made of the given vertex array and buffers. Three position
    /// components make one vertex. The counts go to the driver as 32-bit
    /// signed numbers, and must fit.
    pub fn new(vao: Vao, positions: Vbo, ibo: Vbo, texcoords: Option<Vbo>, colors: Option<Vbo>) -> (r:
        Mesh)
        requires
            positions.data_count <= i32::MAX,
            ibo.data_count <= i32::MAX,
        ensures
            r.vao == vao,
            r.ibo == ibo,
            r.buffer_spec(MeshAttrib::Position) == Some(positions),
            r.buffer_spec(MeshAttrib::Texcoord) == texcoords,
            r.buffer_spec(MeshAttrib::Color) == colors,
            r.vertex_count == positions.data_count / 3,
            r.index_count == ibo.data_count,
    {
        let vertex_count = (positions.data_count / 3) as i32;
        let index_count = ibo.data_count as i32;
        Mesh { vao, vbos: [Some(positions), texcoords, colors], ibo, vertex_count, index_count }
    }

    /// Says what is to be done with `count` new elements, of `elem_size` bytes
    /// each, for `attrib`: overwrite the buffer that the attribute has, or make
    /// one. A buffer that exists is overwritten in full, so `count` must be
    /// the number of elements it holds, and not zero.
    pub fn update_buffer(&self, attrib_idx: MeshAttrib, count: usize, elem_size: usize) -> (r:
        BufferUpdate)
        requires
            self.buffer_spec(attrib_idx) matches Some(vb) ==> count == vb.data_count && count > 0
                && count * elem_size <= isize::MAX,
        ensures
            r == match self.buffer_spec(attrib_idx) {
                Some(vb) => BufferUpdate::Overwrite { vbo: vb.id, bytes: (count * elem_size) as isize },
                None => BufferUpdate::Create,
            },
    {
        let idx = attrib_idx.index() as usize;
        match &self.vbos[idx] {
            Some(vb) => BufferUpdate::Overwrite { vbo: vb.id, bytes: vb.update(count, elem_size) },
            None => BufferUpdate::Create,
        }
    }

    /// Attaches `vbo` as the buffer of `attrib`, in place of what was there.
    pub fn attach_buffer(&mut self, attrib_idx: MeshAttrib, vbo: Vbo)
        ensures
            final(self).buffer_spec(attrib_idx) == Some(vbo),
            forall|other: MeshAttrib|
                other != attrib_idx ==> final(self).buffer_spec(other) == old(self).buffer_spec(
                    other,
                ),
            final(self).vao == old(self).vao,
            final(self).ibo == old(self).ibo,
            final(self).vertex_count == old(self).vertex_count,
            final(self).index_count == old(self).index_count,
    {
        let idx = attrib_idx.index() as usize;
        self.vbos[idx] = Some(vbo);
    }

    /// What to draw: all the indices of the mesh, from its vertex array.
    pub fn render(&self) -> (r: DrawCall)
        ensures
            r == (DrawCall { vao: self.vao.id, index_count: self.index_count }),
    {
        DrawCall { vao: self.vao.id, index_count: self.index_count }
    }
}

} // verus!
