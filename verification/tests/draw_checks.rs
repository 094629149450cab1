use vertex_source::DrawError;
use vertex_source::EmptyInstanceAttributes;
use vertex_source::EmptyVertexAttributes;
use vertex_source::GridVertex;
use vertex_source::MultiVerticesSource;
use vertex_source::Vertex;
use vertex_source::VertexBuffer;
use vertex_source::VerticesSource;
use vertex_source::draw::instances_count;
use vertex_source::draw::validate_vertices_sources;
use vertex_source::draw::vertices_count;

fn grid_buffer(id: u64, vertices: usize) -> VertexBuffer {
    VertexBuffer::new(id, vertices, 12, GridVertex::build_bindings())
}

fn instance_markers(counts: &[usize]) -> Vec<VerticesSource<'static>> {
    let mut sources = Vec::new();
    for &len in counts {
        sources.push(EmptyInstanceAttributes { len }.into());
    }
    sources
}

#[test]
fn matching_instance_counts_succeed() {
    let sources = instance_markers(&[5, 5, 5]);
    assert_eq!(instances_count(&sources), Ok(Some(5)));
    assert_eq!(validate_vertices_sources(&sources, true), Ok(()));
    assert_eq!(validate_vertices_sources(&sources, false), Ok(()));
}

#[test]
fn mismatched_instance_counts_fail() {
    let sources = instance_markers(&[5, 5, 6]);
    assert_eq!(instances_count(&sources), Err(DrawError::InstancesCountMismatch));
    assert_eq!(
        validate_vertices_sources(&sources, false),
        Err(DrawError::InstancesCountMismatch)
    );
    // The instance check runs in all situations, indexed drawing included.
    assert_eq!(
        validate_vertices_sources(&sources, true),
        Err(DrawError::InstancesCountMismatch)
    );
}

#[test]
fn no_per_instance_sources_reports_none() {
    let buffer = grid_buffer(1, 3);
    let sources = (&buffer).iter();
    assert_eq!(instances_count(&sources), Ok(None));
}

#[test]
fn buffer_and_matching_marker_draw_succeeds() {
    let buffer = grid_buffer(1, 3);
    let sources = (&buffer, EmptyVertexAttributes { len: 3 }).iter();
    assert_eq!(vertices_count(&sources), Ok(Some(3)));
    assert_eq!(validate_vertices_sources(&sources, false), Ok(()));
}

#[test]
fn buffer_and_longer_marker_draw_fails() {
    let buffer = grid_buffer(1, 3);
    let sources = (&buffer, EmptyVertexAttributes { len: 5 }).iter();
    assert_eq!(
        vertices_count(&sources),
        Err(DrawError::VerticesSourcesLengthMismatch)
    );
    assert_eq!(
        validate_vertices_sources(&sources, false),
        Err(DrawError::VerticesSourcesLengthMismatch)
    );
}

#[test]
fn vertex_length_check_only_without_indices() {
    let buffer = grid_buffer(1, 3);
    let sources = (&buffer, EmptyVertexAttributes { len: 5 }).iter();
    // With an index buffer the vertex-length check does not apply.
    assert_eq!(validate_vertices_sources(&sources, true), Ok(()));
}

#[test]
fn marker_only_draw_is_legal() {
    let sources = EmptyVertexAttributes { len: 12 }.iter();
    assert_eq!(vertices_count(&sources), Ok(Some(12)));
    assert_eq!(validate_vertices_sources(&sources, false), Ok(()));
}

#[test]
fn empty_source_list_is_consistent() {
    let sources: Vec<VerticesSource> = Vec::new();
    assert_eq!(instances_count(&sources), Ok(None));
    assert_eq!(vertices_count(&sources), Ok(None));
    assert_eq!(validate_vertices_sources(&sources, false), Ok(()));
}

#[test]
fn largest_marker_lengths_agree() {
    let sources = (
        EmptyVertexAttributes { len: usize::MAX },
        EmptyVertexAttributes { len: usize::MAX },
    )
        .iter();
    assert_eq!(vertices_count(&sources), Ok(Some(usize::MAX)));
    assert_eq!(validate_vertices_sources(&sources, false), Ok(()));
}

#[test]
fn mixed_vertex_and_instance_sources() {
    let buffer = grid_buffer(1, 3);
    let sources = (&buffer, EmptyInstanceAttributes { len: 8 }).iter();
    assert_eq!(vertices_count(&sources), Ok(Some(3)));
    assert_eq!(instances_count(&sources), Ok(Some(8)));
    assert_eq!(validate_vertices_sources(&sources, false), Ok(()));
}

#[test]
fn instance_mismatch_reported_before_vertex_mismatch() {
    let mut sources = instance_markers(&[5, 6]);
    sources.push(EmptyVertexAttributes { len: 3 }.into());
    sources.push(EmptyVertexAttributes { len: 4 }.into());
    assert_eq!(
        validate_vertices_sources(&sources, false),
        Err(DrawError::InstancesCountMismatch)
    );
}
