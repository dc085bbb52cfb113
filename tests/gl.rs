use cushy::{
    BufferUsage, ColorVertex, FragmentShader, IndexBuffer, PrimitiveType, Program, Shader, TexFilter, TexFilters,
    UploadKind, Vertex, VertexArray, VertexAttrib, VertexBuffer, VertexShader,
};

#[test]
fn enumerant_values() {
    assert_eq!(PrimitiveType::Triangles.gl_type(), 0x0004);
    assert_eq!(PrimitiveType::TrianglesAdjacency.gl_type(), 0x000C);
    assert_eq!(BufferUsage::Static.gl_usage(), 0x88E4);
    assert_eq!(TexFilter::Linear.gl_filter(), 0x2601);
    assert_eq!(TexFilters::NearestLinear.gl_filters(), (0x2600, 0x2601));
    assert_eq!(TexFilters::LinearNearest.min(), TexFilter::Linear);
    assert_eq!(TexFilters::LinearNearest.mag(), TexFilter::Nearest);
}

#[test]
fn attribute_data() {
    assert_eq!(VertexAttrib::Float3(false).gl_data(), (0x1406, 3, 0, 12));
    assert_eq!(VertexAttrib::Float2(true).gl_data(), (0x1406, 2, 1, 8));
    assert_eq!(VertexAttrib::UByte4.gl_data(), (0x1401, 4, 1, 4));
}

#[test]
fn attribute_layout() {
    let mut va = VertexArray::new(4);
    let attrs = vec![VertexAttrib::Float3(false), VertexAttrib::UByte4, VertexAttrib::Float2(false)];
    let p = va.add_vertex_buffer(&attrs, 24, 0);
    assert_eq!(p.iter().map(|a| (a.index, a.offset)).collect::<Vec<_>>(), vec![(0, 0), (1, 12), (2, 16)]);
    let q = va.add_vertex_buffer(&ColorVertex::attributes(), 4, 1);
    assert_eq!((q[0].index, q[0].offset, q[0].divisor), (3, 0, 1));
}

#[test]
fn quad_indices() {
    let mut ib = IndexBuffer::new(7, BufferUsage::Static);
    ib.auto_quads(2);
    assert_eq!(ib.data(), &vec![0, 1, 2, 2, 1, 3, 4, 5, 6, 6, 5, 7]);
    ib.add_data(&[9]);
    assert_eq!(ib.data().len(), 13);
    ib.set_data(vec![1]);
    assert_eq!(ib.data(), &vec![1]);
    assert_eq!(ib.id(), 7);
}

#[test]
fn vertex_storage_grows_only() {
    let mut vb: VertexBuffer<u32> = VertexBuffer::new(3, BufferUsage::Stream);
    vb.set_data(vec![1, 2, 3]);
    assert_eq!(vb.prepare_upload(), UploadKind::Reallocate);
    assert_eq!(vb.capacity(), 3);
    vb.set_data(vec![1]);
    assert_eq!(vb.prepare_upload(), UploadKind::Update);
    assert_eq!(vb.capacity(), 3);
    vb.add_vertices(&[5, 6]);
    assert_eq!(vb.data(), &vec![1, 5, 6]);
    let mut other = vec![8];
    vb.swap_data(&mut other);
    assert_eq!(other, vec![1, 5, 6]);
    assert_eq!(vb.data(), &vec![8]);
}

#[test]
fn compile_and_link_status() {
    assert_eq!(Shader::from_compile_status(5, 1, String::new()).unwrap().id(), 5);
    assert_eq!(Shader::from_compile_status(5, 0, "bad".to_string()).unwrap_err(), "bad");
    assert_eq!(VertexShader::from_source(2, 1, String::new()).unwrap().0.id(), 2);
    assert!(FragmentShader::from_source(2, 0, "log".to_string()).is_err());
    assert_eq!(VertexShader::kind(), 0x8B31);
    assert_eq!(Program::from_link_status(6, 1, String::new()).unwrap().id(), 6);
    assert_eq!(Program::from_link_status(6, 0, "x".to_string()).unwrap_err(), "x");
}
