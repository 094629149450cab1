use vertex_source::AttributeBinding;
use vertex_source::AttributeType;
use vertex_source::Capabilities;
use vertex_source::DrawError;
use vertex_source::EmptyVertexAttributes;
use vertex_source::GridVertex;
use vertex_source::MultiVerticesSource;
use vertex_source::Program;
use vertex_source::SessionCreationError;
use vertex_source::TransformFeedbackSession;
use vertex_source::Vertex;
use vertex_source::VertexBuffer;
use vertex_source::draw::validate_draw;
use vertex_source::is_transform_feedback_supported;

fn caps_with_feedback() -> Capabilities {
    Capabilities {
        supports_i64_attributes: false,
        supports_f16_attributes: false,
        supports_f64_attributes: false,
        supports_instancing: false,
        supports_transform_feedback: true,
    }
}

fn grid_buffer(id: u64, vertices: usize) -> VertexBuffer {
    VertexBuffer::new(id, vertices, 12, GridVertex::build_bindings())
}

fn grid_program(id: u64) -> Program {
    Program { id, transform_feedback_varyings: Some(GridVertex::build_bindings()) }
}

#[test]
fn feedback_support_follows_capabilities() {
    assert!(is_transform_feedback_supported(&caps_with_feedback()));
    let caps = Capabilities { supports_transform_feedback: false, ..caps_with_feedback() };
    assert!(!is_transform_feedback_supported(&caps));
}

#[test]
fn session_requires_feedback_support() {
    let caps = Capabilities { supports_transform_feedback: false, ..caps_with_feedback() };
    let buffer = grid_buffer(1, 16);
    let program = grid_program(1);
    match TransformFeedbackSession::new(&caps, &program, &buffer) {
        Err(SessionCreationError::NotSupported) => {}
        _ => panic!("creation should fail without transform feedback support"),
    }
}

#[test]
fn session_requires_matching_varyings() {
    let buffer = grid_buffer(1, 16);
    let mut wrong_format = GridVertex::build_bindings();
    wrong_format[1] = AttributeBinding {
        name: String::from("color"),
        offset: 8,
        ty: AttributeType::F32F32F32F32,
        divisor: 0,
    };
    let program = Program { id: 1, transform_feedback_varyings: Some(wrong_format) };
    match TransformFeedbackSession::new(&caps_with_feedback(), &program, &buffer) {
        Err(SessionCreationError::WrongVaryingsFormat) => {}
        _ => panic!("creation should fail when the varying layout differs"),
    }
}

#[test]
fn session_requires_declared_varyings() {
    let buffer = grid_buffer(1, 16);
    let program = Program { id: 1, transform_feedback_varyings: None };
    match TransformFeedbackSession::new(&caps_with_feedback(), &program, &buffer) {
        Err(SessionCreationError::WrongVaryingsFormat) => {}
        _ => panic!("creation should fail when the program declares no varyings"),
    }
}

#[test]
fn session_creation_succeeds_on_matching_layouts() {
    let buffer = grid_buffer(1, 16);
    let program = grid_program(7);
    let session = TransformFeedbackSession::new(&caps_with_feedback(), &program, &buffer)
        .unwrap();
    assert_eq!(session.program_id(), 7);
}

#[test]
fn draw_with_other_program_fails_with_same_succeeds() {
    let target = grid_buffer(1, 16);
    let program_p = grid_program(1);
    let program_q = grid_program(2);
    let session = TransformFeedbackSession::new(&caps_with_feedback(), &program_p, &target)
        .unwrap();
    let vertices = grid_buffer(2, 3);
    let sources = (&vertices).iter();
    assert_eq!(
        validate_draw(&sources, false, &program_q, Some(&session)),
        Err(DrawError::TransformFeedbackProgramMismatch)
    );
    assert_eq!(validate_draw(&sources, false, &program_p, Some(&session)), Ok(()));
}

#[test]
fn draw_without_session_ignores_program_identity() {
    let vertices = grid_buffer(2, 3);
    let sources = (&vertices).iter();
    assert_eq!(validate_draw(&sources, false, &grid_program(9), None), Ok(()));
}

#[test]
fn count_mismatch_reported_before_program_mismatch() {
    let target = grid_buffer(1, 16);
    let program_p = grid_program(1);
    let program_q = grid_program(2);
    let session = TransformFeedbackSession::new(&caps_with_feedback(), &program_p, &target)
        .unwrap();
    let vertices = grid_buffer(2, 3);
    let sources = (&vertices, EmptyVertexAttributes { len: 5 }).iter();
    assert_eq!(
        validate_draw(&sources, false, &program_q, Some(&session)),
        Err(DrawError::VerticesSourcesLengthMismatch)
    );
}
