//! Buffer handles: a non-owning view of a range of GPU memory holding
//! vertex data.
//!
//! This layer never allocates or uploads; a [`BufferAnySlice`] only names a
//! range of an externally owned buffer, and keeping that buffer alive for
//! the duration of a draw is the caller's responsibility.

use vstd::prelude::*;

use crate::format::CapabilitiesSource;
use crate::format::VertexFormat;
use crate::format::format_supported;
use crate::source::PerInstance;
use crate::vertex::Vertex;

verus! {

/// The error reported when a vertex buffer cannot be created.
#[derive(Clone, Copy, Debug, PartialEq, Eq, Structural)]
pub enum BufferCreationError {
    /// The vertex type's declared layout holds an attribute the backend
    /// cannot consume; the buffer must not be created.
    FormatNotSupported,
}

/// A non-owning, untyped view of a range of a GPU-resident buffer: the
/// identity of the underlying buffer, the first element of the range, how
/// many elements the range holds, and the byte size of one element.
#[derive(Clone, Copy, Debug, PartialEq, Eq, Structural)]
pub struct BufferAnySlice {
    /// Identity of the underlying buffer, comparable for equality.
    pub buffer_id: u64,
    /// Index of the first element of the range within the buffer.
    pub first_element: usize,
    /// Number of elements in the range.
    pub elements_count: usize,
    /// Byte size of one element.
    pub bytes_per_element: usize,
}

/// The error returned when a buffer is asked to advance per instance but the
/// active context does not support instancing.
#[derive(Clone, Copy, Debug, PartialEq, Eq, Structural)]
pub struct InstancingNotSupportedError;

/// A buffer of vertices: a range of GPU memory together with the layout
/// descriptor that tells how to interpret each element.
pub struct VertexBuffer {
    /// The underlying memory range; one element per vertex.
    pub buffer: BufferAnySlice,
    /// The layout of each vertex.
    pub format: VertexFormat,
}

/// A sub-range of a [`VertexBuffer`], borrowing the buffer's layout.
pub struct VertexBufferSlice<'a> {
    /// The sub-range of the underlying memory.
    pub slice: BufferAnySlice,
    /// The layout of each vertex, borrowed from the buffer.
    pub format: &'a VertexFormat,
}

impl VertexBuffer {
    /// Builds a vertex buffer handle over a whole buffer: `elements_count`
    /// vertices of `bytes_per_element` bytes each, laid out as `format`.
    pub fn new(
        buffer_id: u64,
        elements_count: usize,
        bytes_per_element: usize,
        format: VertexFormat,
    ) -> (r: VertexBuffer)
        ensures
            r.buffer == (BufferAnySlice {
                buffer_id,
                first_element: 0,
                elements_count,
                bytes_per_element,
            }),
            r.format == format,
    {
        VertexBuffer {
            buffer: BufferAnySlice { buffer_id, first_element: 0, elements_count, bytes_per_element },
            format,
        }
    }

    /// Builds a vertex buffer of `elements_count` vertices of type `T`,
    /// validating first that the backend supports every attribute of `T`'s
    /// declared layout. An unsupported layout is a creation-time error:
    /// the buffer is not created.
    pub fn create<T: Vertex, C: CapabilitiesSource + ?Sized>(
        caps: &C,
        buffer_id: u64,
        elements_count: usize,
        bytes_per_element: usize,
    ) -> (r: Result<VertexBuffer, BufferCreationError>)
        ensures
            (r is Ok) <==> format_supported(T::spec_bindings(), caps.spec_capabilities()),
            !(r is Ok) ==> r == Err::<VertexBuffer, BufferCreationError>(
                BufferCreationError::FormatNotSupported,
            ),
            r is Ok ==> r->Ok_0.buffer == (BufferAnySlice {
                buffer_id,
                first_element: 0,
                elements_count,
                bytes_per_element,
            }),
            r is Ok ==> r->Ok_0.format.deep_view() == T::spec_bindings(),
    {
        if !T::is_supported(caps) {
            return Err(BufferCreationError::FormatNotSupported);
        }
        Ok(VertexBuffer::new(buffer_id, elements_count, bytes_per_element, T::build_bindings()))
    }

    /// The number of vertices in the buffer.
    pub fn len(&self) -> (r: usize)
        ensures
            r == self.buffer.elements_count,
    {
        self.buffer.elements_count
    }

    /// Takes the sub-range `start .. end` of the buffer. Returns `None` when
    /// the range does not lie within the buffer, or when the start of the
    /// range cannot be addressed.
    pub fn slice<'a>(&'a self, start: usize, end: usize) -> (r: Option<VertexBufferSlice<'a>>)
        ensures
            (r is Some) <==> (start <= end <= self.buffer.elements_count
                && self.buffer.first_element + start <= usize::MAX),
            r is Some ==> r->0.slice == (BufferAnySlice {
                buffer_id: self.buffer.buffer_id,
                first_element: (self.buffer.first_element + start) as usize,
                elements_count: (end - start) as usize,
                bytes_per_element: self.buffer.bytes_per_element,
            }),
            r is Some ==> r->0.format == self.format,
    {
        if start > end || end > self.buffer.elements_count {
            return None;
        }
        match self.buffer.first_element.checked_add(start) {
            Some(first) => Some(
                VertexBufferSlice {
                    slice: BufferAnySlice {
                        buffer_id: self.buffer.buffer_id,
                        first_element: first,
                        elements_count: end - start,
                        bytes_per_element: self.buffer.bytes_per_element,
                    },
                    format: &self.format,
                },
            ),
            None => None,
        }
    }

    /// Marks the whole buffer as advancing once per instance instead of once
    /// per vertex. Fails when the active context does not support
    /// instancing.
    pub fn per_instance<'a, C: CapabilitiesSource + ?Sized>(&'a self, caps: &C) -> (r: Result<
        PerInstance<'a>,
        InstancingNotSupportedError,
    >)
        ensures
            (r is Ok) <==> caps.spec_capabilities().supports_instancing,
            r is Ok ==> r->Ok_0 == PerInstance(self.buffer, &self.format),
    {
        if caps.get_capabilities().supports_instancing {
            Ok(PerInstance(self.buffer, &self.format))
        } else {
            Err(InstancingNotSupportedError)
        }
    }
}

impl<'a> VertexBufferSlice<'a> {
    /// The number of vertices in the sub-range.
    pub fn len(&self) -> (r: usize)
        ensures
            r == self.slice.elements_count,
    {
        self.slice.elements_count
    }

    /// Marks the sub-range as advancing once per instance instead of once
    /// per vertex. Fails when the active context does not support
    /// instancing.
    pub fn per_instance<C: CapabilitiesSource + ?Sized>(self, caps: &C) -> (r: Result<
        PerInstance<'a>,
        InstancingNotSupportedError,
    >)
        ensures
            (r is Ok) <==> caps.spec_capabilities().supports_instancing,
            r is Ok ==> r->Ok_0 == PerInstance(self.slice, self.format),
    {
        if caps.get_capabilities().supports_instancing {
            Ok(PerInstance(self.slice, self.format))
        } else {
            Err(InstancingNotSupportedError)
        }
    }
}

} // verus!
