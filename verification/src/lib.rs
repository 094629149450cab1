//! Vertex-attribute abstraction layer of a safe graphics-API wrapper.
//!
//! Typed CPU-side vertex structs are validated against GPU attribute
//! formats, one or many attribute buffers (per-vertex or per-instance) are
//! combined into a single draw-call input, and transform-feedback capture
//! sessions are bound to that input.

pub mod buffer;
pub mod draw;
pub mod format;
pub mod program;
pub mod source;
pub mod transform_feedback;
pub mod vertex;

pub use crate::buffer::BufferAnySlice;
pub use crate::buffer::BufferCreationError;
pub use crate::buffer::InstancingNotSupportedError;
pub use crate::buffer::VertexBuffer;
pub use crate::buffer::VertexBufferSlice;
pub use crate::draw::DrawError;
pub use crate::format::AttributeBinding;
pub use crate::format::AttributeBindingView;
pub use crate::format::AttributeType;
pub use crate::format::Capabilities;
pub use crate::format::CapabilitiesSource;
pub use crate::format::VertexFormat;
pub use crate::program::Program;
pub use crate::source::EmptyInstanceAttributes;
pub use crate::source::EmptyVertexAttributes;
pub use crate::source::IntoVerticesSource;
pub use crate::source::MultiVerticesSource;
pub use crate::source::PerInstance;
pub use crate::source::VerticesSource;
pub use crate::transform_feedback::SessionCreationError;
pub use crate::transform_feedback::TransformFeedbackSession;
pub use crate::transform_feedback::is_transform_feedback_supported;
pub use crate::vertex::Attribute;
pub use crate::vertex::GridVertex;
pub use crate::vertex::InstanceTag;
pub use crate::vertex::Vertex;
