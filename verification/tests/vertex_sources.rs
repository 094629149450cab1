use vertex_source::Capabilities;
use vertex_source::EmptyInstanceAttributes;
use vertex_source::EmptyVertexAttributes;
use vertex_source::GridVertex;
use vertex_source::IntoVerticesSource;
use vertex_source::MultiVerticesSource;
use vertex_source::Vertex;
use vertex_source::VertexBuffer;
use vertex_source::VerticesSource;
use vertex_source::format::formats_match;

fn caps_with_instancing() -> Capabilities {
    Capabilities {
        supports_i64_attributes: false,
        supports_f16_attributes: false,
        supports_f64_attributes: false,
        supports_instancing: true,
        supports_transform_feedback: false,
    }
}

fn grid_buffer(id: u64, vertices: usize) -> VertexBuffer {
    VertexBuffer::new(id, vertices, 12, GridVertex::build_bindings())
}

#[test]
fn empty_vertex_attributes_into_marker() {
    let source: VerticesSource = EmptyVertexAttributes { len: 12 }.into();
    match source {
        VerticesSource::Marker { len, per_instance } => {
            assert_eq!(len, 12);
            assert!(!per_instance);
        }
        _ => panic!("expected a marker source"),
    }
}

#[test]
fn empty_instance_attributes_into_marker() {
    let source: VerticesSource = EmptyInstanceAttributes { len: 36 }.into();
    match source {
        VerticesSource::Marker { len, per_instance } => {
            assert_eq!(len, 36);
            assert!(per_instance);
        }
        _ => panic!("expected a marker source"),
    }
}

#[test]
fn buffer_reference_round_trip() {
    let buffer = grid_buffer(5, 3);
    let source = (&buffer).into_vertices_source();
    match source {
        VerticesSource::VertexBuffer(slice, format, per_instance) => {
            // Converting a plain reference leaves per_instance false and
            // every other field unchanged.
            assert!(!per_instance);
            assert_eq!(slice, buffer.buffer);
            assert!(formats_match(format, &buffer.format));
        }
        _ => panic!("expected a buffer-backed source"),
    }
    let wrapped = buffer.per_instance(&caps_with_instancing()).unwrap();
    let source = wrapped.into();
    match source {
        VerticesSource::VertexBuffer(slice, format, per_instance) => {
            // The per-instance wrapper flips only the flag.
            assert!(per_instance);
            assert_eq!(slice, buffer.buffer);
            assert!(formats_match(format, &buffer.format));
        }
        _ => panic!("expected a buffer-backed source"),
    }
}

#[test]
fn per_instance_requires_instancing_support() {
    let buffer = grid_buffer(5, 3);
    let caps = Capabilities { supports_instancing: false, ..caps_with_instancing() };
    assert!(buffer.per_instance(&caps).is_err());
    assert!(buffer.per_instance(&caps_with_instancing()).is_ok());
}

#[test]
fn slice_within_bounds() {
    let buffer = grid_buffer(9, 10);
    let slice = buffer.slice(2, 7).unwrap();
    assert_eq!(slice.slice.buffer_id, 9);
    assert_eq!(slice.slice.first_element, 2);
    assert_eq!(slice.slice.elements_count, 5);
    assert_eq!(slice.slice.bytes_per_element, 12);
    assert_eq!(slice.len(), 5);
}

#[test]
fn slice_out_of_bounds_is_none() {
    let buffer = grid_buffer(9, 10);
    assert!(buffer.slice(4, 11).is_none());
    assert!(buffer.slice(7, 4).is_none());
    assert!(buffer.slice(0, 10).is_some());
    assert!(buffer.slice(10, 10).is_some());
}

#[test]
fn compose_single_equals_unary_tuple() {
    let single = EmptyVertexAttributes { len: 4 }.into_vertices_source();
    let a = single.iter();
    let b = (single,).iter();
    assert_eq!(a.len(), 1);
    assert_eq!(b.len(), 1);
    match (&a[0], &b[0]) {
        (
            VerticesSource::Marker { len: la, per_instance: pa },
            VerticesSource::Marker { len: lb, per_instance: pb },
        ) => {
            assert_eq!(la, lb);
            assert_eq!(pa, pb);
            assert_eq!(*la, 4);
            assert!(!*pa);
        }
        _ => panic!("expected two marker sources"),
    }
}

#[test]
fn compose_tuple_preserves_order() {
    let buffer = grid_buffer(3, 7);
    let composed = (
        EmptyVertexAttributes { len: 1 },
        EmptyInstanceAttributes { len: 2 },
        &buffer,
    )
        .iter();
    assert_eq!(composed.len(), 3);
    match &composed[0] {
        VerticesSource::Marker { len, per_instance } => {
            assert_eq!(*len, 1);
            assert!(!*per_instance);
        }
        _ => panic!("first entry should be the per-vertex marker"),
    }
    match &composed[1] {
        VerticesSource::Marker { len, per_instance } => {
            assert_eq!(*len, 2);
            assert!(*per_instance);
        }
        _ => panic!("second entry should be the per-instance marker"),
    }
    match &composed[2] {
        VerticesSource::VertexBuffer(slice, _, per_instance) => {
            assert_eq!(slice.elements_count, 7);
            assert!(!*per_instance);
        }
        _ => panic!("third entry should be the buffer"),
    }
}

#[test]
fn compose_five_sources_in_order() {
    let composed = (
        EmptyVertexAttributes { len: 10 },
        EmptyVertexAttributes { len: 11 },
        EmptyVertexAttributes { len: 12 },
        EmptyVertexAttributes { len: 13 },
        EmptyVertexAttributes { len: 14 },
    )
        .iter();
    assert_eq!(composed.len(), 5);
    for (i, source) in composed.iter().enumerate() {
        match source {
            VerticesSource::Marker { len, .. } => assert_eq!(*len, 10 + i),
            _ => panic!("expected a marker source"),
        }
    }
}

#[test]
fn compose_seven_sources_in_order() {
    let composed = (
        EmptyVertexAttributes { len: 20 },
        EmptyVertexAttributes { len: 21 },
        EmptyVertexAttributes { len: 22 },
        EmptyVertexAttributes { len: 23 },
        EmptyVertexAttributes { len: 24 },
        EmptyVertexAttributes { len: 25 },
        EmptyVertexAttributes { len: 26 },
    )
        .iter();
    assert_eq!(composed.len(), 7);
    for (i, source) in composed.iter().enumerate() {
        match source {
            VerticesSource::Marker { len, .. } => assert_eq!(*len, 20 + i),
            _ => panic!("expected a marker source"),
        }
    }
}

#[test]
fn source_count_and_flag_queries() {
    let buffer = grid_buffer(1, 3);
    let source = (&buffer).into_vertices_source();
    assert_eq!(source.count(), 3);
    assert!(!source.is_per_instance());
    let marker: VerticesSource = EmptyInstanceAttributes { len: 8 }.into();
    assert_eq!(marker.count(), 8);
    assert!(marker.is_per_instance());
}
