use fluid_euler::buffers::{BufferError, Buffers, IndexBuffer, VertexBuffer};
use fluid_euler::mesh::{quad_indices, IndexData, IndexFormat};
use fluid_euler::vertex::{packed_attributes, vertex_layout, VertexFormat, VertexStepMode};

#[test]
fn vertex_buffer_size_is_count_times_stride() {
    let b = VertexBuffer::new(vec![0u8; 96], 24).unwrap();
    assert_eq!(b.record_count, 4);
    assert_eq!(b.size(), 4 * 24);
    let one = VertexBuffer::new(vec![7u8; 12], 12).unwrap();
    assert_eq!(one.record_count, 1);
    assert_eq!(one.size(), 12);
    assert_eq!(one.contents, vec![7u8; 12]);
}

#[test]
fn vertex_buffer_empty_holds_no_record() {
    let b = VertexBuffer::new(vec![], 24).unwrap();
    assert_eq!(b.record_count, 0);
    assert_eq!(b.size(), 0);
}

#[test]
fn vertex_buffer_rejects_zero_stride() {
    assert_eq!(VertexBuffer::new(vec![0u8; 8], 0).err(), Some(BufferError::ZeroStride));
}

#[test]
fn vertex_buffer_rejects_partial_record() {
    assert_eq!(VertexBuffer::new(vec![0u8; 25], 24).err(), Some(BufferError::PartialRecord));
}

#[test]
fn index_buffer_u16_format() {
    let b = IndexBuffer::new(&IndexData::U16(vec![0, 1, 2]));
    assert_eq!(b.format, IndexFormat::Uint16);
    assert_eq!(b.count, 3);
    assert_eq!(b.contents.len(), 6);
    let single = IndexBuffer::new(&IndexData::U16(vec![0x0102]));
    assert_eq!(single.format, IndexFormat::Uint16);
    assert_eq!(single.count, 1);
    assert_eq!(single.contents, 0x0102u16.to_ne_bytes().to_vec());
}

#[test]
fn index_buffer_u32_format() {
    let b = IndexBuffer::new(&IndexData::U32(vec![0, 1, 2, 3]));
    assert_eq!(b.format, IndexFormat::Uint32);
    assert_eq!(b.count, 4);
    assert_eq!(b.contents.len(), 16);
    let single = IndexBuffer::new(&IndexData::U32(vec![0x01020304]));
    assert_eq!(single.format, IndexFormat::Uint32);
    assert_eq!(single.count, 1);
    assert_eq!(single.contents, 0x01020304u32.to_ne_bytes().to_vec());
}

#[test]
fn index_bounds_check() {
    let d = IndexData::U32(vec![0, 5, 2]);
    assert!(d.in_bounds(6));
    assert!(!d.in_bounds(5));
    assert!(IndexData::U16(vec![]).in_bounds(0));
    assert_eq!(d.len(), 3);
    assert_eq!(d.to_index_format(), IndexFormat::Uint32);
}

#[test]
fn quad_mesh_indices() {
    let q = quad_indices();
    match &q {
        IndexData::U16(v) => assert_eq!(v, &vec![0u16, 1, 2, 0, 2, 3]),
        IndexData::U32(_) => panic!("quad indices are 16-bit"),
    }
    assert!(q.in_bounds(4));
    assert!(!q.in_bounds(3));
}

#[test]
fn quad_buffers() {
    let b: Buffers<u32> = Buffers::new(vec![0u8; 96]).unwrap();
    assert_eq!(b.vertex.record_count, 4);
    assert_eq!(b.vertex.size(), 96);
    assert_eq!(b.index.format, IndexFormat::Uint16);
    assert_eq!(b.index.count, 6);
    assert_eq!(b.index.contents.len(), 12);
    assert!(b.bind_groups.is_empty());
}

#[test]
fn quad_buffers_need_four_vertices() {
    assert_eq!(Buffers::<u32>::new(vec![0u8; 72]).err(), Some(BufferError::IndexOutOfRange));
    assert_eq!(Buffers::<u32>::new(vec![0u8; 100]).err(), Some(BufferError::PartialRecord));
}

#[test]
fn buffers_keep_bind_groups() {
    let b: Buffers<u32> = Buffers::new(vec![0u8; 96]).unwrap();
    let b = b.bind_group(fluid_euler::bind_group::BindGroup::new("first".to_string()));
    let b = b.bind_group(fluid_euler::bind_group::BindGroup::new("second".to_string()));
    assert_eq!(b.bind_groups.len(), 2);
}

#[test]
fn quad_vertex_layout() {
    let l = vertex_layout();
    assert_eq!(l.array_stride, 24);
    assert_eq!(l.step_mode, VertexStepMode::Vertex);
    assert_eq!(l.attributes.len(), 2);
    assert_eq!(l.attributes[0].shader_location, 0);
    assert_eq!(l.attributes[0].offset, 0);
    assert_eq!(l.attributes[0].format, VertexFormat::Float32x3);
    assert_eq!(l.attributes[1].shader_location, 1);
    assert_eq!(l.attributes[1].offset, 12);
    assert_eq!(l.attributes[1].format, VertexFormat::Float32x3);
}

#[test]
fn packed_attribute_offsets() {
    let a = packed_attributes(&vec![VertexFormat::Float32x2, VertexFormat::Float32x4, VertexFormat::Float32x3]);
    let offsets: Vec<u64> = a.iter().map(|x| x.offset).collect();
    let slots: Vec<u32> = a.iter().map(|x| x.shader_location).collect();
    assert_eq!(offsets, vec![0, 8, 24]);
    assert_eq!(slots, vec![0, 1, 2]);
    assert!(packed_attributes(&vec![]).is_empty());
}
