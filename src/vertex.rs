use vstd::prelude::*;

verus! {

/// Numeric format of one vertex attribute as the shader reads it.
#[derive(Clone, Copy, Debug, PartialEq, Eq, Structural)]
pub enum VertexFormat {
    Float32x2,
    Float32x3,
    Float32x4,
}

/// Whether the buffer advances per vertex or per instance.
#[derive(Clone, Copy, Debug, PartialEq, Eq, Structural)]
pub enum VertexStepMode {
    Vertex,
    Instance,
}

/// One shader input: its slot, its format and its byte offset within a record.
#[derive(Clone, Copy, Debug, PartialEq, Eq, Structural)]
pub struct VertexAttribute {
    pub format: VertexFormat,
    pub offset: u64,
    pub shader_location: u32,
}

/// How one record of a vertex buffer maps onto shader inputs.
#[derive(Clone, Debug)]
pub struct VertexLayout {
    pub array_stride: u64,
    pub step_mode: VertexStepMode,
    pub attributes: Vec<VertexAttribute>,
}

/// Byte size of the quad's vertex record.
pub const VERTEX_STRIDE: u64 = 24;

/// Byte size of one attribute of the given format.
pub open spec fn format_size(f: VertexFormat) -> nat {
    match f {
        VertexFormat::Float32x2 => 8,
        VertexFormat::Float32x3 => 12,
        VertexFormat::Float32x4 => 16,
    }
}

/// Total byte size of a sequence of attributes laid out back to back.
pub open spec fn packed_size(fs: Seq<VertexFormat>) -> nat
    decreases fs.len(),
{
    if fs.len() == 0 {
        0
    } else {
        packed_size(fs.drop_last()) + format_size(fs.last())
    }
}

/// The attribute at position `i` of a packed layout of `fs`.
pub open spec fn packed_attribute(fs: Seq<VertexFormat>, i: int) -> VertexAttribute {
    VertexAttribute {
        format: fs[i],
        offset: packed_size(fs.take(i)) as u64,
        shader_location: i as u32,
    }
}

/// The formats of the two inputs of the quad's vertex: position, then color.
pub open spec fn vertex_formats() -> Seq<VertexFormat> {
    seq![VertexFormat::Float32x3, VertexFormat::Float32x3]
}

pub fn format_size_of(f: VertexFormat) -> (r: u64)
    ensures
        r == format_size(f),
{
    match f {
        VertexFormat::Float32x2 => 8,
        VertexFormat::Float32x3 => 12,
        VertexFormat::Float32x4 => 16,
    }
}

proof fn lemma_packed_size_bound(fs: Seq<VertexFormat>)
    ensures
        packed_size(fs) <= 16 * fs.len(),
    decreases fs.len(),
{
    if fs.len() > 0 {
        lemma_packed_size_bound(fs.drop_last());
    }
}

/// Lays the given formats out back to back: slot `i` for the `i`-th format, each
/// at the byte offset where the previous one ends.
pub fn packed_attributes(formats: &Vec<VertexFormat>) -> (r: Vec<VertexAttribute>)
    requires
        formats.len() <= u32::MAX,
    ensures
        r.len() == formats.len(),
        forall|i: int| 0 <= i < r.len() ==> r[i] == packed_attribute(formats@, i),
{
    let mut r: Vec<VertexAttribute> = Vec::new();
    let mut offset: u64 = 0;
    let mut i: usize = 0;
    while i < formats.len()
        invariant
            i <= formats.len() <= u32::MAX,
            r.len() == i,
            offset == packed_size(formats@.take(i as int)),
            forall|j: int| 0 <= j < i ==> r[j] == packed_attribute(formats@, j),
        decreases formats.len() - i,
    {
        proof {
            lemma_packed_size_bound(formats@.take(i as int));
            assert(formats@.take(i as int + 1).drop_last() == formats@.take(i as int));
        }
        r.push(VertexAttribute { format: formats[i], offset, shader_location: i as u32 });
        offset = offset + format_size_of(formats[i]);
        i = i + 1;
    }
    r
}

/// The layout of the quad's vertex record: a position and a color of three
/// 32-bit floats each, packed, one record per vertex.
pub fn vertex_layout() -> (r: VertexLayout)
    ensures
        r.step_mode == VertexStepMode::Vertex,
        r.attributes.len() == 2,
        forall|i: int| 0 <= i < 2 ==> r.attributes[i] == packed_attribute(vertex_formats(), i),
        r.array_stride == packed_size(vertex_formats()),
        r.array_stride == VERTEX_STRIDE,
        r.attributes[0].offset == 0,
        r.attributes[1].offset == 12,
{
    let formats: Vec<VertexFormat> = vec![VertexFormat::Float32x3, VertexFormat::Float32x3];
    assert(formats@ == vertex_formats());
    let attributes = packed_attributes(&formats);
    proof {
        let fs = vertex_formats();
        assert(fs.take(0).len() == 0);
        assert(packed_size(fs.take(0)) == 0);
        assert(fs.take(1).drop_last() == fs.take(0));
        assert(fs.take(1).last() == VertexFormat::Float32x3);
        assert(fs.drop_last() == fs.take(1));
        assert(packed_size(fs.take(1)) == 12);
        assert(packed_size(fs) == 24);
    }
    VertexLayout { array_stride: VERTEX_STRIDE, step_mode: VertexStepMode::Vertex, attributes }
}

} // verus!
