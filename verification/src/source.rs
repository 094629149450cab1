//! The vertex source abstraction: everything that can supply vertex data to
//! a draw call, and the composition of several such sources into one
//! ordered sequence.
//!
//! A [`VerticesSource`] is either a buffer range plus the layout to
//! interpret it with, or a phantom marker that only declares a count. One
//! or several sources — a single value or a fixed tuple — compose through
//! [`MultiVerticesSource`] into an ordered sequence, in the order supplied,
//! without reordering or deduplication. No length or consistency check
//! happens at composition time; those belong to draw validation.

use vstd::prelude::*;

use crate::buffer::BufferAnySlice;
use crate::buffer::VertexBuffer;
use crate::buffer::VertexBufferSlice;
use crate::format::VertexFormat;

verus! {

/// Describes the source to use for the vertices when drawing.
#[derive(Clone, Copy)]
pub enum VerticesSource<'a> {
    /// A buffer uploaded in the video memory: the memory range, the layout
    /// to interpret it with, and whether the buffer advances once per
    /// instance (`true`) or once per vertex (`false`).
    ///
    /// The source borrows the underlying buffer; the caller must keep that
    /// buffer alive for the duration of the draw.
    VertexBuffer(BufferAnySlice, &'a VertexFormat, bool),
    /// A marker indicating a "phantom list of attributes": no actual
    /// buffer, only a declared count.
    Marker {
        /// Number of phantom elements.
        len: usize,
        /// Whether the phantom elements advance once per instance (`true`)
        /// or once per vertex (`false`).
        per_instance: bool,
    },
}

impl<'a> VerticesSource<'a> {
    /// The count this source contributes to a draw call: the number of
    /// elements of a buffer-backed source, or the declared length of a
    /// marker.
    pub open spec fn spec_count(self) -> nat {
        match self {
            VerticesSource::VertexBuffer(slice, _, _) => slice.elements_count as nat,
            VerticesSource::Marker { len, .. } => len as nat,
        }
    }

    /// Whether this source advances once per instance rather than once per
    /// vertex.
    pub open spec fn spec_per_instance(self) -> bool {
        match self {
            VerticesSource::VertexBuffer(_, _, per_instance) => per_instance,
            VerticesSource::Marker { per_instance, .. } => per_instance,
        }
    }

    /// The count this source contributes to a draw call.
    pub fn count(&self) -> (r: usize)
        ensures
            r == self.spec_count(),
    {
        match self {
            VerticesSource::VertexBuffer(slice, _, _) => slice.elements_count,
            VerticesSource::Marker { len, .. } => *len,
        }
    }

    /// Whether this source advances once per instance rather than once per
    /// vertex.
    pub fn is_per_instance(&self) -> (r: bool)
        ensures
            r == self.spec_per_instance(),
    {
        match self {
            VerticesSource::VertexBuffer(_, _, per_instance) => *per_instance,
            VerticesSource::Marker { per_instance, .. } => *per_instance,
        }
    }
}

/// Marker that can be passed instead of a buffer to declare a phantom list
/// of per-vertex attributes: no data, only a vertex count.
#[derive(Clone, Copy, Debug, PartialEq, Eq, Structural)]
pub struct EmptyVertexAttributes {
    /// Number of phantom vertices.
    pub len: usize,
}

impl EmptyVertexAttributes {
    /// Turns the marker into a per-vertex [`VerticesSource::Marker`].
    pub fn into<'a>(self) -> (r: VerticesSource<'a>)
        ensures
            r == (VerticesSource::Marker { len: self.len, per_instance: false }),
    {
        VerticesSource::Marker { len: self.len, per_instance: false }
    }
}

/// Marker that can be passed instead of a buffer to declare a phantom list
/// of per-instance attributes: no data, only an instance count.
#[derive(Clone, Copy, Debug, PartialEq, Eq, Structural)]
pub struct EmptyInstanceAttributes {
    /// Number of phantom instances.
    pub len: usize,
}

impl EmptyInstanceAttributes {
    /// Turns the marker into a per-instance [`VerticesSource::Marker`].
    pub fn into<'a>(self) -> (r: VerticesSource<'a>)
        ensures
            r == (VerticesSource::Marker { len: self.len, per_instance: true }),
    {
        VerticesSource::Marker { len: self.len, per_instance: true }
    }
}

/// Marker that instructs the draw call that the wrapped buffer range is to
/// be used per instance.
#[derive(Clone, Copy)]
pub struct PerInstance<'a>(pub BufferAnySlice, pub &'a VertexFormat);

impl<'a> PerInstance<'a> {
    /// Turns the wrapper into a per-instance buffer-backed source.
    pub fn into(self) -> (r: VerticesSource<'a>)
        ensures
            r == VerticesSource::VertexBuffer(self.0, self.1, true),
    {
        VerticesSource::VertexBuffer(self.0, self.1, true)
    }
}

/// Values that convert into a single [`VerticesSource`]. The conversion is
/// structural: no validation happens here.
pub trait IntoVerticesSource<'a>: Sized {
    /// The source this value converts to.
    spec fn spec_into(self) -> VerticesSource<'a>;

    /// Converts this value into a [`VerticesSource`].
    fn into_vertices_source(self) -> (r: VerticesSource<'a>)
        ensures
            r == self.spec_into(),
    ;
}

impl<'a> IntoVerticesSource<'a> for VerticesSource<'a> {
    open spec fn spec_into(self) -> VerticesSource<'a> {
        self
    }

    fn into_vertices_source(self) -> (r: VerticesSource<'a>) {
        self
    }
}

impl<'a> IntoVerticesSource<'a> for EmptyVertexAttributes {
    open spec fn spec_into(self) -> VerticesSource<'a> {
        VerticesSource::Marker { len: self.len, per_instance: false }
    }

    fn into_vertices_source(self) -> (r: VerticesSource<'a>) {
        self.into()
    }
}

impl<'a> IntoVerticesSource<'a> for EmptyInstanceAttributes {
    open spec fn spec_into(self) -> VerticesSource<'a> {
        VerticesSource::Marker { len: self.len, per_instance: true }
    }

    fn into_vertices_source(self) -> (r: VerticesSource<'a>) {
        self.into()
    }
}

impl<'a> IntoVerticesSource<'a> for PerInstance<'a> {
    open spec fn spec_into(self) -> VerticesSource<'a> {
        VerticesSource::VertexBuffer(self.0, self.1, true)
    }

    fn into_vertices_source(self) -> (r: VerticesSource<'a>) {
        self.into()
    }
}

impl<'a> IntoVerticesSource<'a> for &'a VertexBuffer {
    open spec fn spec_into(self) -> VerticesSource<'a> {
        VerticesSource::VertexBuffer(self.buffer, &self.format, false)
    }

    fn into_vertices_source(self) -> (r: VerticesSource<'a>) {
        VerticesSource::VertexBuffer(self.buffer, &self.format, false)
    }
}

impl<'a> IntoVerticesSource<'a> for VertexBufferSlice<'a> {
    open spec fn spec_into(self) -> VerticesSource<'a> {
        VerticesSource::VertexBuffer(self.slice, self.format, false)
    }

    fn into_vertices_source(self) -> (r: VerticesSource<'a>) {
        VerticesSource::VertexBuffer(self.slice, self.format, false)
    }
}

/// Objects that describe one or several vertex sources: a single
/// convertible value, or a fixed-size ordered tuple of convertible values.
pub trait MultiVerticesSource<'a>: Sized {
    /// The ordered sequence of sources this value composes to, in the order
    /// supplied.
    spec fn spec_sources(self) -> Seq<VerticesSource<'a>>;

    /// Enumerates the [`VerticesSource`] values, in the order supplied.
    fn iter(self) -> (r: Vec<VerticesSource<'a>>)
        ensures
            r@ == self.spec_sources(),
    ;
}

impl<'a, T: IntoVerticesSource<'a>> MultiVerticesSource<'a> for T {
    open spec fn spec_sources(self) -> Seq<VerticesSource<'a>> {
        seq![self.spec_into()]
    }

    fn iter(self) -> (r: Vec<VerticesSource<'a>>) {
        let mut v: Vec<VerticesSource<'a>> = Vec::new();
        v.push(self.into_vertices_source());
        proof {
            assert(v@ =~= self.spec_sources());
        }
        v
    }
}

impl<'a, A: IntoVerticesSource<'a>> MultiVerticesSource<'a> for (A,) {
    open spec fn spec_sources(self) -> Seq<VerticesSource<'a>> {
        seq![self.0.spec_into()]
    }

    fn iter(self) -> (r: Vec<VerticesSource<'a>>) {
        let (a,) = self;
        let mut v: Vec<VerticesSource<'a>> = Vec::new();
        v.push(a.into_vertices_source());
        proof {
            assert(v@ =~= self.spec_sources());
        }
        v
    }
}

impl<'a, A: IntoVerticesSource<'a>, B: IntoVerticesSource<'a>> MultiVerticesSource<'a> for (A, B) {
    open spec fn spec_sources(self) -> Seq<VerticesSource<'a>> {
        seq![self.0.spec_into(), self.1.spec_into()]
    }

    fn iter(self) -> (r: Vec<VerticesSource<'a>>) {
        let (a, b) = self;
        let mut v: Vec<VerticesSource<'a>> = Vec::new();
        v.push(a.into_vertices_source());
        v.push(b.into_vertices_source());
        proof {
            assert(v@ =~= self.spec_sources());
        }
        v
    }
}

impl<'a, A: IntoVerticesSource<'a>, B: IntoVerticesSource<'a>, C: IntoVerticesSource<
    'a,
>> MultiVerticesSource<'a> for (A, B, C) {
    open spec fn spec_sources(self) -> Seq<VerticesSource<'a>> {
        seq![self.0.spec_into(), self.1.spec_into(), self.2.spec_into()]
    }

    fn iter(self) -> (r: Vec<VerticesSource<'a>>) {
        let (a, b, c) = self;
        let mut v: Vec<VerticesSource<'a>> = Vec::new();
        v.push(a.into_vertices_source());
        v.push(b.into_vertices_source());
        v.push(c.into_vertices_source());
        proof {
            assert(v@ =~= self.spec_sources());
        }
        v
    }
}

impl<'a, A: IntoVerticesSource<'a>, B: IntoVerticesSource<'a>, C: IntoVerticesSource<'a>,
    D: IntoVerticesSource<'a>> MultiVerticesSource<'a> for (A, B, C, D) {
    open spec fn spec_sources(self) -> Seq<VerticesSource<'a>> {
        seq![self.0.spec_into(), self.1.spec_into(), self.2.spec_into(), self.3.spec_into()]
    }

    fn iter(self) -> (r: Vec<VerticesSource<'a>>) {
        let (a, b, c, d) = self;
        let mut v: Vec<VerticesSource<'a>> = Vec::new();
        v.push(a.into_vertices_source());
        v.push(b.into_vertices_source());
        v.push(c.into_vertices_source());
        v.push(d.into_vertices_source());
        proof {
            assert(v@ =~= self.spec_sources());
        }
        v
    }
}

impl<'a, A: IntoVerticesSource<'a>, B: IntoVerticesSource<'a>, C: IntoVerticesSource<'a>,
    D: IntoVerticesSource<'a>, E: IntoVerticesSource<'a>> MultiVerticesSource<'a> for (
    A,
    B,
    C,
    D,
    E,
) {
    open spec fn spec_sources(self) -> Seq<VerticesSource<'a>> {
        seq![
            self.0.spec_into(),
            self.1.spec_into(),
            self.2.spec_into(),
            self.3.spec_into(),
            self.4.spec_into(),
        ]
    }

    fn iter(self) -> (r: Vec<VerticesSource<'a>>) {
        let (a, b, c, d, e) = self;
        let mut v: Vec<VerticesSource<'a>> = Vec::new();
        v.push(a.into_vertices_source());
        v.push(b.into_vertices_source());
        v.push(c.into_vertices_source());
        v.push(d.into_vertices_source());
        v.push(e.into_vertices_source());
        proof {
            assert(v@ =~= self.spec_sources());
        }
        v
    }
}

impl<'a, A: IntoVerticesSource<'a>, B: IntoVerticesSource<'a>, C: IntoVerticesSource<'a>,
    D: IntoVerticesSource<'a>, E: IntoVerticesSource<'a>, F: IntoVerticesSource<
    'a,
>> MultiVerticesSource<'a> for (A, B, C, D, E, F) {
    open spec fn spec_sources(self) -> Seq<VerticesSource<'a>> {
        seq![
            self.0.spec_into(),
            self.1.spec_into(),
            self.2.spec_into(),
            self.3.spec_into(),
            self.4.spec_into(),
            self.5.spec_into(),
        ]
    }

    fn iter(self) -> (r: Vec<VerticesSource<'a>>) {
        let (a, b, c, d, e, f) = self;
        let mut v: Vec<VerticesSource<'a>> = Vec::new();
        v.push(a.into_vertices_source());
        v.push(b.into_vertices_source());
        v.push(c.into_vertices_source());
        v.push(d.into_vertices_source());
        v.push(e.into_vertices_source());
        v.push(f.into_vertices_source());
        proof {
            assert(v@ =~= self.spec_sources());
        }
        v
    }
}

impl<'a, A: IntoVerticesSource<'a>, B: IntoVerticesSource<'a>, C: IntoVerticesSource<'a>,
    D: IntoVerticesSource<'a>, E: IntoVerticesSource<'a>, F: IntoVerticesSource<'a>,
    G: IntoVerticesSource<'a>> MultiVerticesSource<'a> for (A, B, C, D, E, F, G) {
    open spec fn spec_sources(self) -> Seq<VerticesSource<'a>> {
        seq![
            self.0.spec_into(),
            self.1.spec_into(),
            self.2.spec_into(),
            self.3.spec_into(),
            self.4.spec_into(),
            self.5.spec_into(),
            self.6.spec_into(),
        ]
    }

    fn iter(self) -> (r: Vec<VerticesSource<'a>>) {
        let (a, b, c, d, e, f, g) = self;
        let mut v: Vec<VerticesSource<'a>> = Vec::new();
        v.push(a.into_vertices_source());
        v.push(b.into_vertices_source());
        v.push(c.into_vertices_source());
        v.push(d.into_vertices_source());
        v.push(e.into_vertices_source());
        v.push(f.into_vertices_source());
        v.push(g.into_vertices_source());
        proof {
            assert(v@ =~= self.spec_sources());
        }
        v
    }
}

/// Converting a buffer reference yields a buffer-backed source whose
/// per-instance flag is `false`; wrapping the same buffer as per-instance
/// yields the flag `true`; the buffer range, the format and the count are
/// unchanged either way.
pub proof fn lemma_per_instance_round_trip<'a>(buffer: &'a VertexBuffer)
    ensures
        buffer.spec_into() == VerticesSource::VertexBuffer(buffer.buffer, &buffer.format, false),
        !buffer.spec_into().spec_per_instance(),
        PerInstance(buffer.buffer, &buffer.format).spec_into() == VerticesSource::VertexBuffer(
            buffer.buffer,
            &buffer.format,
            true,
        ),
        PerInstance(buffer.buffer, &buffer.format).spec_into().spec_per_instance(),
        buffer.spec_into().spec_count() == buffer.buffer.elements_count,
        PerInstance(buffer.buffer, &buffer.format).spec_into().spec_count()
            == buffer.buffer.elements_count,
{
}

/// Composing a single source and composing the one-element tuple of the
/// same source produce equal sequences, in order and in content.
pub proof fn lemma_single_source_equals_unary_tuple<'a, T: IntoVerticesSource<'a>>(t: T)
    ensures
        t.spec_sources() == (t,).spec_sources(),
{
    assert(t.spec_sources() =~= (t,).spec_sources());
}

/// Composing a tuple preserves input order exactly: the sequence composed
/// from `(a, b, c)` is `[a, b, c]` — never reordered or interleaved.
pub proof fn lemma_tuple_composition_order<'a, A: IntoVerticesSource<'a>, B: IntoVerticesSource<
    'a,
>, C: IntoVerticesSource<'a>>(a: A, b: B, c: C)
    ensures
        (a, b, c).spec_sources() == seq![a.spec_into(), b.spec_into(), c.spec_into()],
        (a, b, c).spec_sources()[0] == a.spec_into(),
        (a, b, c).spec_sources()[1] == b.spec_into(),
        (a, b, c).spec_sources()[2] == c.spec_into(),
{
}

} // verus!
