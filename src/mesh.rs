use vstd::prelude::*;

verus! {

/// Width of the integers that an index buffer holds, as the draw call must declare it.
#[derive(Clone, Copy, Debug, PartialEq, Eq, Structural)]
pub enum IndexFormat {
    Uint16,
    Uint32,
}

/// Byte width of one index of the given format.
pub open spec fn index_width(f: IndexFormat) -> nat {
    match f {
        IndexFormat::Uint16 => 2,
        IndexFormat::Uint32 => 4,
    }
}

/// The indices of a mesh, in one of the two widths a draw call accepts.
#[derive(Clone, Debug)]
pub enum IndexData {
    U16(Vec<u16>),
    U32(Vec<u32>),
}

impl IndexData {
    pub open spec fn spec_len(&self) -> nat {
        match self {
            IndexData::U16(v) => v.len() as nat,
            IndexData::U32(v) => v.len() as nat,
        }
    }

    /// The format that the element type of the indices stands for.
    pub open spec fn spec_format(&self) -> IndexFormat {
        match self {
            IndexData::U16(_) => IndexFormat::Uint16,
            IndexData::U32(_) => IndexFormat::Uint32,
        }
    }

    /// The `i`-th index, as an integer.
    pub open spec fn value(&self, i: int) -> int {
        match self {
            IndexData::U16(v) => v[i] as int,
            IndexData::U32(v) => v[i] as int,
        }
    }

    /// Every index names one of the first `vertex_count` vertices.
    pub open spec fn spec_in_bounds(&self, vertex_count: nat) -> bool {
        forall|i: int| 0 <= i < self.spec_len() ==> self.value(i) < vertex_count
    }

    pub fn len(&self) -> (r: usize)
        ensures
            r == self.spec_len(),
    {
        match self {
            IndexData::U16(v) => v.len(),
            IndexData::U32(v) => v.len(),
        }
    }

    /// The index format inferred from the element type.
    pub fn to_index_format(&self) -> (r: IndexFormat)
        ensures
            r == self.spec_format(),
    {
        match self {
            IndexData::U16(_) => IndexFormat::Uint16,
            IndexData::U32(_) => IndexFormat::Uint32,
        }
    }

    /// Whether every index is below `vertex_count`.
    pub fn in_bounds(&self, vertex_count: u64) -> (r: bool)
        ensures
            r == self.spec_in_bounds(vertex_count as nat),
    {
        let n = self.len();
        let mut i: usize = 0;
        while i < n
            invariant
                n == self.spec_len(),
                i <= n,
                forall|j: int| 0 <= j < i ==> self.value(j) < vertex_count,
            decreases n - i,
        {
            let below = match self {
                IndexData::U16(v) => (v[i] as u64) < vertex_count,
                IndexData::U32(v) => (v[i] as u64) < vertex_count,
            };
            if !below {
                assert(self.value(i as int) >= vertex_count);
                return false;
            }
            i = i + 1;
        }
        true
    }
}

/// Number of vertices of the quad.
pub const QUAD_VERTEX_COUNT: u64 = 4;

/// The quad's two triangles, counter-clockwise: (0, 1, 2) and (0, 2, 3).
pub open spec fn quad_index_seq() -> Seq<u16> {
    seq![0u16, 1u16, 2u16, 0u16, 2u16, 3u16]
}

/// The indices of the quad mesh.
pub fn quad_indices() -> (r: IndexData)
    ensures
        r matches IndexData::U16(v) && v@ == quad_index_seq(),
        r.spec_len() == 6,
        r.spec_in_bounds(QUAD_VERTEX_COUNT as nat),
{
    let v: Vec<u16> = vec![0, 1, 2, 0, 2, 3];
    assert(v@ == quad_index_seq());
    IndexData::U16(v)
}

} // verus!
