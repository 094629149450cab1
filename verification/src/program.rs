//! The shader program collaborator, as this layer sees it: an opaque
//! identity comparable for equality, plus the transform-feedback varying
//! layout the program declares.

use vstd::prelude::*;

use crate::format::VertexFormat;

verus! {

/// A compiled shader program, reduced to what vertex handling needs: its
/// identity and the layout of the varyings it writes under transform
/// feedback, if it declares any.
pub struct Program {
    /// Identity of the program, comparable for equality.
    pub id: u64,
    /// The element layout of the primitives the program emits under
    /// transform feedback; `None` when the program declares no
    /// transform-feedback varyings.
    pub transform_feedback_varyings: Option<VertexFormat>,
}

} // verus!
