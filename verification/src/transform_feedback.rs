//! Transform feedback: capturing the primitives a shader stage emits into
//! a buffer instead of (or in addition to) rasterizing them.
//!
//! A session binds an output buffer to the exact program it was created
//! against. While the session is active, every draw call that references it
//! must use that identical program; the session's target buffer is
//! exclusively the session's for writing, and the caller must not
//! simultaneously use it as a vertex source.

use vstd::prelude::*;

use crate::buffer::BufferAnySlice;
use crate::buffer::VertexBuffer;
use crate::format::AttributeBindingView;
use crate::format::CapabilitiesSource;
use crate::format::formats_match;
use crate::format::layouts_match;
use crate::program::Program;

verus! {

/// Returns true if the backend supports transform feedback.
pub fn is_transform_feedback_supported<C: CapabilitiesSource + ?Sized>(caps: &C) -> (r: bool)
    ensures
        r == caps.spec_capabilities().supports_transform_feedback,
{
    caps.get_capabilities().supports_transform_feedback
}

/// Error that can happen when creating a [`TransformFeedbackSession`].
#[derive(Clone, Copy, Debug, PartialEq, Eq, Structural)]
pub enum SessionCreationError {
    /// Transform feedback is not supported by the backend.
    NotSupported,
    /// The target buffer's element type does not match the varying output
    /// layout declared by the program — or the program declares none.
    WrongVaryingsFormat,
}

/// Whether the layout `layout` is exactly the varying output layout that
/// `program` declares for transform feedback.
pub open spec fn program_varyings_match(program: Program, layout: Seq<AttributeBindingView>) -> bool {
    match program.transform_feedback_varyings {
        Option::Some(varyings) => layouts_match(varyings.deep_view(), layout),
        Option::None => false,
    }
}

/// An active transform-feedback capture: the target buffer records the
/// primitives generated by the session's program during each draw call
/// that references the session. Once the session is dropped, the buffer
/// holds whatever the last draws captured.
pub struct TransformFeedbackSession {
    program_id: u64,
    buffer: BufferAnySlice,
}

impl TransformFeedbackSession {
    /// The identity of the program this session was created with.
    pub closed spec fn spec_program_id(self) -> u64 {
        self.program_id
    }

    /// The target buffer range this session writes to.
    pub closed spec fn spec_buffer(self) -> BufferAnySlice {
        self.buffer
    }

    /// Creates a session that will record into `buffer` the primitives
    /// generated by `program`. Fails when the backend has no transform
    /// feedback, and when the buffer's element type does not match the
    /// varying output layout the program declares.
    pub fn new<C: CapabilitiesSource + ?Sized>(
        caps: &C,
        program: &Program,
        buffer: &VertexBuffer,
    ) -> (r: Result<TransformFeedbackSession, SessionCreationError>)
        ensures
            (r is Ok) <==> (caps.spec_capabilities().supports_transform_feedback
                && program_varyings_match(*program, buffer.format.deep_view())),
            r is Ok ==> r->Ok_0.spec_program_id() == program.id,
            r is Ok ==> r->Ok_0.spec_buffer() == buffer.buffer,
            r == Err::<TransformFeedbackSession, SessionCreationError>(
                SessionCreationError::NotSupported,
            ) <==> !caps.spec_capabilities().supports_transform_feedback,
            r == Err::<TransformFeedbackSession, SessionCreationError>(
                SessionCreationError::WrongVaryingsFormat,
            ) <==> (caps.spec_capabilities().supports_transform_feedback
                && !program_varyings_match(*program, buffer.format.deep_view())),
    {
        if !caps.get_capabilities().supports_transform_feedback {
            return Err(SessionCreationError::NotSupported);
        }
        match &program.transform_feedback_varyings {
            Some(varyings) => {
                if formats_match(varyings, &buffer.format) {
                    Ok(TransformFeedbackSession { program_id: program.id, buffer: buffer.buffer })
                } else {
                    Err(SessionCreationError::WrongVaryingsFormat)
                }
            },
            None => Err(SessionCreationError::WrongVaryingsFormat),
        }
    }

    /// The identity of the program this session was created with.
    pub fn program_id(&self) -> (r: u64)
        ensures
            r == self.spec_program_id(),
    {
        self.program_id
    }
}

} // verus!
