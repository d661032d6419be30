use vstd::prelude::*;

use crate::bind_group::BindGroup;
use crate::mesh::{index_width, quad_indices, IndexData, IndexFormat, QUAD_VERTEX_COUNT};
use crate::vertex::{vertex_layout, VERTEX_STRIDE};

verus! {

/// Relies on bytemuck::cast_slice from `u16` to `u8`: the in-memory bytes of
/// the slice, two for each element.
#[verifier::external_body]
fn u16_bytes(v: &[u16]) -> (r: Vec<u8>)
    ensures
        r.len() == 2 * v@.len(),
{
    bytemuck::cast_slice::<u16, u8>(v).to_vec()
}

/// Relies on bytemuck::cast_slice from `u32` to `u8`: the in-memory bytes of
/// the slice, four for each element.
#[verifier::external_body]
fn u32_bytes(v: &[u32]) -> (r: Vec<u8>)
    ensures
        r.len() == 4 * v@.len(),
{
    bytemuck::cast_slice::<u32, u8>(v).to_vec()
}

/// Why a buffer could not be built from the data handed to it.
#[derive(Clone, Copy, Debug, PartialEq, Eq, Structural)]
pub enum BufferError {
    /// A record stride of zero bytes.
    ZeroStride,
    /// The contents do not split into whole records.
    PartialRecord,
    /// An index names a vertex that the vertex data does not hold.
    IndexOutOfRange,
}

/// The contents of a device buffer used as vertex input, split into records.
pub struct VertexBuffer {
    pub contents: Vec<u8>,
    pub stride: u64,
    pub record_count: u64,
}

/// A vertex buffer's byte length is its record count times its record stride.
pub proof fn lemma_vertex_buffer_size(b: VertexBuffer)
    requires
        b.wf(),
    ensures
        b.spec_size() == b.record_count * b.stride,
{
}

/// `u16` indices give the 16-bit format and two bytes each; `u32` indices the
/// 32-bit format and four bytes each, whatever their number.
pub proof fn lemma_index_format(indices: IndexData)
    ensures
        indices is U16 ==> indices.spec_format() == IndexFormat::Uint16,
        indices is U32 ==> indices.spec_format() == IndexFormat::Uint32,
        indices is U16 ==> index_width(indices.spec_format()) == 2,
        indices is U32 ==> index_width(indices.spec_format()) == 4,
{
}

impl VertexBuffer {
    /// The byte length of the device buffer.
    pub open spec fn spec_size(&self) -> nat {
        self.contents.len() as nat
    }

    /// The contents hold exactly `record_count` records of `stride` bytes.
    pub open spec fn wf(&self) -> bool {
        &&& self.stride > 0
        &&& self.contents.len() == self.record_count * self.stride
    }

    /// Takes the bytes of a sequence of records of `stride` bytes each.
    pub fn new(contents: Vec<u8>, stride: u64) -> (r: Result<VertexBuffer, BufferError>)
        ensures
            stride == 0 ==> r == Err::<VertexBuffer, BufferError>(BufferError::ZeroStride),
            stride > 0 && (contents.len() as nat) % (stride as nat) != 0 ==> r == Err::<
                VertexBuffer,
                BufferError,
            >(BufferError::PartialRecord),
            stride > 0 && (contents.len() as nat) % (stride as nat) == 0 ==> r is Ok,
            r matches Ok(b) ==> {
                &&& b.wf()
                &&& b.spec_size() == b.record_count * stride
                &&& b.contents@ == contents@
                &&& b.stride == stride
                &&& b.record_count == (contents.len() as nat) / (stride as nat)
            },
    {
        if stride == 0 {
            return Err(BufferError::ZeroStride);
        }
        let len = contents.len() as u64;
        if len % stride != 0 {
            return Err(BufferError::PartialRecord);
        }
        let record_count = len / stride;
        proof {
            vstd::arithmetic::div_mod::lemma_fundamental_div_mod(len as int, stride as int);
            vstd::arithmetic::mul::lemma_mul_is_commutative(stride as int, record_count as int);
        }
        Ok(VertexBuffer { contents, stride, record_count })
    }

    /// The byte length of the device buffer.
    pub fn size(&self) -> (r: u64)
        ensures
            r == self.spec_size(),
    {
        self.contents.len() as u64
    }
}

/// The contents of a device buffer used as index input, with the format that
/// the draw call must declare for it.
pub struct IndexBuffer {
    pub contents: Vec<u8>,
    pub format: IndexFormat,
    pub count: u32,
}

impl IndexBuffer {
    /// The contents hold `count` indices of the width of `format`.
    pub open spec fn wf(&self) -> bool {
        self.contents.len() == self.count * index_width(self.format)
    }

    /// Takes the indices; the format follows from their element type.
    pub fn new(indices: &IndexData) -> (r: IndexBuffer)
        requires
            indices.spec_len() <= u32::MAX,
        ensures
            r.wf(),
            r.format == indices.spec_format(),
            indices is U16 ==> r.format == IndexFormat::Uint16,
            indices is U32 ==> r.format == IndexFormat::Uint32,
            r.count == indices.spec_len(),
            r.contents.len() == indices.spec_len() * index_width(indices.spec_format()),
    {
        let count = indices.len() as u32;
        let contents = match indices {
            IndexData::U16(v) => {
                let b = u16_bytes(v.as_slice());
                assert(b.len() == count * 2);
                b
            },
            IndexData::U32(v) => {
                let b = u32_bytes(v.as_slice());
                assert(b.len() == count * 4);
                b
            },
        };
        IndexBuffer { contents, format: indices.to_index_format(), count }
    }
}

/// `len` bytes split into whole vertex records of the quad's layout.
pub open spec fn whole_records(len: nat) -> bool {
    len % (VERTEX_STRIDE as nat) == 0
}

/// The buffers of the quad: its vertices, its indices, and the bind groups
/// that the pipeline uses.
pub struct Buffers<R> {
    pub vertex: VertexBuffer,
    pub index: IndexBuffer,
    pub bind_groups: Vec<BindGroup<R>>,
}

impl<R> Buffers<R> {
    pub open spec fn wf(&self) -> bool {
        &&& self.vertex.wf()
        &&& self.index.wf()
        &&& forall|i: int| 0 <= i < self.bind_groups.len() ==> (#[trigger] self.bind_groups[i]).wf()
    }

    /// Takes the bytes of the quad's vertex records, laid out as
    /// `vertex_layout` says, and pairs them with the quad's indices.
    pub fn new(vertex_contents: Vec<u8>) -> (r: Result<Self, BufferError>)
        ensures
            !whole_records(vertex_contents.len() as nat) ==> r == Err::<Self, BufferError>(
                BufferError::PartialRecord,
            ),
            whole_records(vertex_contents.len() as nat) && vertex_contents.len() < VERTEX_STRIDE
                * QUAD_VERTEX_COUNT ==> r == Err::<Self, BufferError>(
                BufferError::IndexOutOfRange,
            ),
            whole_records(vertex_contents.len() as nat) && vertex_contents.len() >= VERTEX_STRIDE
                * QUAD_VERTEX_COUNT ==> r is Ok,
            r matches Ok(b) ==> {
                &&& b.wf()
                &&& b.vertex.contents@ == vertex_contents@
                &&& b.vertex.stride == VERTEX_STRIDE
                &&& b.index.format == IndexFormat::Uint16
                &&& b.index.count == 6
                &&& b.bind_groups.len() == 0
            },
    {
        let layout = vertex_layout();
        let vertex = match VertexBuffer::new(vertex_contents, layout.array_stride) {
            Ok(v) => v,
            Err(e) => return Err(e),
        };
        let indices = quad_indices();
        if !indices.in_bounds(vertex.record_count) {
            proof {
                assert(vertex.record_count < QUAD_VERTEX_COUNT);
                assert(indices.value(5) == 3);
            }
            return Err(BufferError::IndexOutOfRange);
        }
        proof {
            assert(indices.value(5) == 3);
            assert(vertex.record_count >= QUAD_VERTEX_COUNT);
        }
        let index = IndexBuffer::new(&indices);
        Ok(Buffers { vertex, index, bind_groups: Vec::new() })
    }

    /// Adds a bind group for the pipeline to use; earlier ones keep their place.
    pub fn bind_group(self, bind_group: BindGroup<R>) -> (r: Self)
        requires
            self.wf(),
            bind_group.wf(),
        ensures
            r.wf(),
            r.vertex == self.vertex,
            r.index == self.index,
            r.bind_groups@ == self.bind_groups@.push(bind_group),
    {
        let mut s = self;
        s.bind_groups.push(bind_group);
        s
    }
}

} // verus!
