//! Static geometry: vertex records and 16-bit indices, uploaded once.
//!
//! Vertex records are opaque to the core.  It takes them as the bytes that
//! go into the vertex buffer, together with the distance from one record to
//! the next, and counts the records that the bytes hold.

use vstd::prelude::*;
use vstd::slice::slice_to_vec;

verus! {

/// What a buffer is bound as.
#[derive(Clone, Copy, Debug, PartialEq, Eq, Structural)]
pub enum BufferUsage {
    MapRead,
    MapWrite,
    CopySrc,
    CopyDst,
    Index,
    Vertex,
    Uniform,
    Storage,
    Indirect,
}

/// The mathematical content of a [`Buffer`].
pub struct BufferModel {
    pub contents: Seq<u8>,
    pub usage: BufferUsage,
}

/// A device buffer with its initial, and only, contents.
#[derive(Debug, PartialEq, Eq)]
pub struct Buffer {
    contents: Vec<u8>,
    usage: BufferUsage,
}

impl View for Buffer {
    type V = BufferModel;

    closed spec fn view(&self) -> BufferModel {
        BufferModel { contents: self.contents@, usage: self.usage }
    }
}

impl Buffer {
    /// The bytes the buffer is created with.
    pub fn contents(&self) -> (bytes: &Vec<u8>)
        ensures
            bytes@ == self@.contents,
    {
        &self.contents
    }

    /// What the buffer is bound as.
    pub fn usage(&self) -> (usage: BufferUsage)
        ensures
            usage == self@.usage,
    {
        self.usage
    }
}

/// The less significant byte of an index.
pub open spec fn low_byte(index: u16) -> u8 {
    (index % 256) as u8
}

/// The more significant byte of an index.
pub open spec fn high_byte(index: u16) -> u8 {
    (index / 256) as u8
}

/// The indices laid out one after the other, two bytes each, the less
/// significant byte first.
pub open spec fn little_endian(indices: Seq<u16>) -> Seq<u8> {
    Seq::new(
        2 * indices.len(),
        |k: int|
            if k % 2 == 0 {
                low_byte(indices[k / 2])
            } else {
                high_byte(indices[k / 2])
            },
    )
}

/// The indices laid out one after the other, two bytes each, the more
/// significant byte first.
pub open spec fn big_endian(indices: Seq<u16>) -> Seq<u8> {
    Seq::new(
        2 * indices.len(),
        |k: int|
            if k % 2 == 0 {
                high_byte(indices[k / 2])
            } else {
                low_byte(indices[k / 2])
            },
    )
}

/// `bytes` holds `indices` the way some machine keeps them in memory.
pub open spec fn native_encoding(indices: Seq<u16>, bytes: Seq<u8>) -> bool {
    bytes == little_endian(indices) || bytes == big_endian(indices)
}

/// The bytes of a slice of indices as they lie in memory.
///
/// Calls `bytemuck::cast_slice` from `u16` to `u8` and copies what it
/// returns.  The cast reinterprets the slice's memory, so the result depends
/// on the byte order of the machine: it is the little-endian or the
/// big-endian layout of the indices, the same for all of them.  A cast to
/// bytes has no alignment or length condition to fail on.
#[verifier::external_body]
fn index_bytes(indices: &[u16]) -> (bytes: Vec<u8>)
    ensures
        native_encoding(indices@, bytes@),
{
    bytemuck::cast_slice::<u16, u8>(indices).to_vec()
}

/// The number of whole vertex records in `byte_len` bytes that lie
/// `stride` bytes apart; none if the stride is zero.
pub open spec fn spec_vertex_count(byte_len: nat, stride: u64) -> nat {
    if stride == 0 {
        0
    } else {
        byte_len / (stride as nat)
    }
}

/// Every index names one of the first `vertex_count` vertices.
pub open spec fn spec_indices_in_range(indices: Seq<u16>, vertex_count: nat) -> bool {
    forall|i: int| 0 <= i < indices.len() ==> (#[trigger] indices[i] as nat) < vertex_count
}

/// Counts the whole vertex records in a vertex buffer of `byte_len` bytes.
pub fn vertex_count(byte_len: usize, stride: u64) -> (count: u64)
    ensures
        count == spec_vertex_count(byte_len as nat, stride),
{
    if stride == 0 {
        0
    } else {
        (byte_len as u64) / stride
    }
}

/// Tests whether every index names one of the first `vertex_count`
/// vertices, which is what [`upload`] asks of its caller.
pub fn indices_in_range(indices: &[u16], vertex_count: u64) -> (ok: bool)
    ensures
        ok == spec_indices_in_range(indices@, vertex_count as nat),
{
    let mut i: usize = 0;
    while i < indices.len()
        invariant
            i <= indices@.len(),
            spec_indices_in_range(indices@.take(i as int), vertex_count as nat),
        decreases indices@.len() - i,
    {
        if indices[i] as u64 >= vertex_count {
            assert(!((indices@[i as int] as nat) < vertex_count as nat));
            return false;
        }
        assert forall|k: int| 0 <= k < i + 1 implies (#[trigger] indices@.take(i + 1)[k] as nat)
            < vertex_count as nat by {
            if k < i {
                assert(indices@.take(i as int)[k] == indices@[k]);
            }
        }
        i += 1;
    }
    assert(indices@.take(i as int) == indices@);
    true
}

/// The mathematical content of a [`GeometryBufferPair`].
pub struct GeometryModel {
    pub vertex_buffer: BufferModel,
    pub index_buffer: BufferModel,
    /// The number of indices a draw call walks.
    pub index_count: u32,
    /// Bytes from one vertex record to the next.
    pub vertex_stride: u64,
    /// The indices that the index buffer encodes.
    pub indices: Seq<u16>,
}

impl GeometryModel {
    /// The number of vertex records in the vertex buffer.
    pub open spec fn vertex_count(self) -> nat {
        spec_vertex_count(self.vertex_buffer.contents.len(), self.vertex_stride)
    }

    /// The buffers are bound as what they are, the index buffer holds
    /// exactly the counted indices, and each of them names a vertex that the
    /// vertex buffer holds.
    pub open spec fn wf(self) -> bool {
        &&& self.vertex_buffer.usage == BufferUsage::Vertex
        &&& self.index_buffer.usage == BufferUsage::Index
        &&& self.index_count == self.indices.len()
        &&& native_encoding(self.indices, self.index_buffer.contents)
        &&& spec_indices_in_range(self.indices, self.vertex_count())
    }
}

/// The geometry that an upload of `vertices` and `indices` yields, where
/// `index_bytes` is the memory layout of the indices on the machine at hand.
pub open spec fn spec_upload(
    vertices: Seq<u8>,
    vertex_stride: u64,
    indices: Seq<u16>,
    index_bytes: Seq<u8>,
) -> GeometryModel {
    GeometryModel {
        vertex_buffer: BufferModel { contents: vertices, usage: BufferUsage::Vertex },
        index_buffer: BufferModel { contents: index_bytes, usage: BufferUsage::Index },
        index_count: indices.len() as u32,
        vertex_stride,
        indices,
    }
}

/// A vertex buffer, an index buffer over it, and the number of indices.
/// Written once by [`upload`] and never changed.
pub struct GeometryBufferPair {
    vertex_buffer: Buffer,
    index_buffer: Buffer,
    index_count: u32,
    vertex_stride: u64,
    indices: Ghost<Seq<u16>>,
}

impl View for GeometryBufferPair {
    type V = GeometryModel;

    closed spec fn view(&self) -> GeometryModel {
        GeometryModel {
            vertex_buffer: self.vertex_buffer@,
            index_buffer: self.index_buffer@,
            index_count: self.index_count,
            vertex_stride: self.vertex_stride,
            indices: self.indices@,
        }
    }
}

impl GeometryBufferPair {
    #[verifier::type_invariant]
    pub open spec fn inv(self) -> bool {
        self@.wf()
    }

    /// The vertex buffer.
    pub fn vertex_buffer(&self) -> (buffer: &Buffer)
        ensures
            buffer@ == self@.vertex_buffer,
            buffer@.usage == BufferUsage::Vertex,
    {
        proof {
            use_type_invariant(self);
        }
        &self.vertex_buffer
    }

    /// The index buffer.
    pub fn index_buffer(&self) -> (buffer: &Buffer)
        ensures
            buffer@ == self@.index_buffer,
            buffer@.usage == BufferUsage::Index,
            buffer@.contents.len() == 2 * self@.index_count,
    {
        proof {
            use_type_invariant(self);
        }
        &self.index_buffer
    }

    /// The number of indices in the index buffer.
    pub fn index_count(&self) -> (count: u32)
        ensures
            count == self@.index_count,
            count == self@.indices.len(),
    {
        proof {
            use_type_invariant(self);
        }
        self.index_count
    }

    /// Bytes from one vertex record to the next.
    pub fn vertex_stride(&self) -> (stride: u64)
        ensures
            stride == self@.vertex_stride,
    {
        self.vertex_stride
    }

    /// The number of whole vertex records in the vertex buffer.
    pub fn vertex_count(&self) -> (count: u64)
        ensures
            count == self@.vertex_count(),
    {
        vertex_count(self.vertex_buffer.contents.len(), self.vertex_stride)
    }
}

/// Uploads static geometry: `vertices` go into a vertex buffer as they are,
/// `indices` into an index buffer in the machine's byte order, and the
/// number of indices is recorded for the draw call.
///
/// The caller sees to it that every index names a vertex that `vertices`
/// holds ([`indices_in_range`] tests it), and that the number of indices
/// fits the 32 bits a draw call has for it.
pub fn upload(vertices: &[u8], vertex_stride: u64, indices: &[u16]) -> (pair:
    GeometryBufferPair)
    requires
        indices@.len() <= u32::MAX,
        spec_indices_in_range(indices@, spec_vertex_count(vertices@.len(), vertex_stride)),
    ensures
        pair@ == spec_upload(vertices@, vertex_stride, indices@, pair@.index_buffer.contents),
        native_encoding(indices@, pair@.index_buffer.contents),
        pair@.index_count == indices@.len(),
        pair@.wf(),
{
    let vertex_buffer = Buffer { contents: slice_to_vec(vertices), usage: BufferUsage::Vertex };
    let index_buffer = Buffer { contents: index_bytes(indices), usage: BufferUsage::Index };
    GeometryBufferPair {
        vertex_buffer,
        index_buffer,
        index_count: indices.len() as u32,
        vertex_stride,
        indices: Ghost(indices@),
    }
}

/// What goes in comes out: an upload of `indices` records exactly their
/// number, and its index buffer holds two bytes for each.
pub proof fn lemma_upload_records_index_count(
    vertices: Seq<u8>,
    vertex_stride: u64,
    indices: Seq<u16>,
    index_bytes: Seq<u8>,
)
    requires
        indices.len() <= u32::MAX,
        native_encoding(indices, index_bytes),
    ensures
        spec_upload(vertices, vertex_stride, indices, index_bytes).index_count == indices.len(),
        spec_upload(vertices, vertex_stride, indices, index_bytes).indices == indices,
        spec_upload(vertices, vertex_stride, indices, index_bytes).vertex_buffer.contents
            == vertices,
        spec_upload(vertices, vertex_stride, indices, index_bytes).index_buffer.contents.len()
            == 2 * indices.len(),
{
}

/// A draw call over the whole index range reads valid vertices only: each
/// of the first `index_count` indices of a well-formed geometry names a
/// vertex record that the vertex buffer holds in full.
pub proof fn lemma_indexed_vertices_exist(geometry: GeometryModel, i: int)
    requires
        geometry.wf(),
        0 <= i < geometry.index_count,
    ensures
        geometry.vertex_stride > 0,
        (geometry.indices[i] as nat + 1) * (geometry.vertex_stride as nat)
            <= geometry.vertex_buffer.contents.len(),
{
    let stride = geometry.vertex_stride as nat;
    let len = geometry.vertex_buffer.contents.len();
    let index = geometry.indices[i] as nat;
    assert(index < geometry.vertex_count());
    assert(stride > 0);
    assert(index + 1 <= len / stride);
    assert((index + 1) * stride <= len) by (nonlinear_arith)
        requires
            stride > 0,
            index + 1 <= len / stride,
    ;
}

} // verus!
