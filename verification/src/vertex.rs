//! The `Vertex` and `Attribute` traits: typed CPU-side vertex structs and
//! the attribute-capable value types their fields are made of.

use vstd::prelude::*;

use crate::format::AttributeBinding;
use crate::format::AttributeBindingView;
use crate::format::AttributeType;
use crate::format::CapabilitiesSource;
use crate::format::VertexFormat;
use crate::format::format_supported;
use crate::format::vertex_format_supported;

verus! {

/// Trait for types that can be used as vertex attributes.
pub trait Attribute: Sized {
    /// The GPU element kind this type maps to.
    spec fn spec_type() -> AttributeType;

    /// Gets the type of data.
    fn get_type() -> (r: AttributeType)
        ensures
            r == Self::spec_type(),
    ;

    /// Returns true if the backend supports this type of attribute.
    fn is_supported<C: CapabilitiesSource + ?Sized>(caps: &C) -> (r: bool)
        ensures
            r == Self::spec_type().spec_supported(caps.spec_capabilities()),
    {
        Self::get_type().is_supported(caps)
    }
}

/// Trait for structures that represent a vertex.
///
/// The byte offsets returned by `build_bindings` must be consistent with
/// the actual memory layout of the implementing struct: an implementation
/// with wrong offsets leads to undefined reads at the GPU boundary, so the
/// bindings should come from a construction that guarantees offset
/// correctness.
pub trait Vertex: Copy + Sized {
    /// The layout this vertex type declares, one binding per attribute.
    spec fn spec_bindings() -> Seq<AttributeBindingView>;

    /// Builds the [`VertexFormat`] representing the layout of this element.
    fn build_bindings() -> (r: VertexFormat)
        ensures
            r.deep_view() == Self::spec_bindings(),
    ;

    /// Returns true if the backend supports this vertex format: true iff
    /// every attribute of the declared layout is individually supported.
    fn is_supported<C: CapabilitiesSource + ?Sized>(caps: &C) -> (r: bool)
        ensures
            r == format_supported(Self::spec_bindings(), caps.spec_capabilities()),
    {
        let format = Self::build_bindings();
        vertex_format_supported(&format, caps)
    }
}

impl Attribute for i8 {
    open spec fn spec_type() -> AttributeType {
        AttributeType::I8
    }

    fn get_type() -> (r: AttributeType) {
        AttributeType::I8
    }
}

impl Attribute for u8 {
    open spec fn spec_type() -> AttributeType {
        AttributeType::U8
    }

    fn get_type() -> (r: AttributeType) {
        AttributeType::U8
    }
}

impl Attribute for i16 {
    open spec fn spec_type() -> AttributeType {
        AttributeType::I16
    }

    fn get_type() -> (r: AttributeType) {
        AttributeType::I16
    }
}

impl Attribute for u16 {
    open spec fn spec_type() -> AttributeType {
        AttributeType::U16
    }

    fn get_type() -> (r: AttributeType) {
        AttributeType::U16
    }
}

impl Attribute for i32 {
    open spec fn spec_type() -> AttributeType {
        AttributeType::I32
    }

    fn get_type() -> (r: AttributeType) {
        AttributeType::I32
    }
}

impl Attribute for u32 {
    open spec fn spec_type() -> AttributeType {
        AttributeType::U32
    }

    fn get_type() -> (r: AttributeType) {
        AttributeType::U32
    }
}

impl Attribute for i64 {
    open spec fn spec_type() -> AttributeType {
        AttributeType::I64
    }

    fn get_type() -> (r: AttributeType) {
        AttributeType::I64
    }
}

impl Attribute for u64 {
    open spec fn spec_type() -> AttributeType {
        AttributeType::U64
    }

    fn get_type() -> (r: AttributeType) {
        AttributeType::U64
    }
}

impl Attribute for [i32; 2] {
    open spec fn spec_type() -> AttributeType {
        AttributeType::I32I32
    }

    fn get_type() -> (r: AttributeType) {
        AttributeType::I32I32
    }
}

impl Attribute for [i32; 3] {
    open spec fn spec_type() -> AttributeType {
        AttributeType::I32I32I32
    }

    fn get_type() -> (r: AttributeType) {
        AttributeType::I32I32I32
    }
}

impl Attribute for [i32; 4] {
    open spec fn spec_type() -> AttributeType {
        AttributeType::I32I32I32I32
    }

    fn get_type() -> (r: AttributeType) {
        AttributeType::I32I32I32I32
    }
}

impl Attribute for [u8; 4] {
    open spec fn spec_type() -> AttributeType {
        AttributeType::U8U8U8U8
    }

    fn get_type() -> (r: AttributeType) {
        AttributeType::U8U8U8U8
    }
}

/// A small concrete vertex: a 2-component integer position at offset 0 and
/// a packed 4-byte color at offset 8, both advancing once per vertex.
#[derive(Clone, Copy, Debug)]
pub struct GridVertex {
    /// Cell coordinates of the vertex.
    pub position: [i32; 2],
    /// Packed RGBA color of the vertex.
    pub color: [u8; 4],
}

impl Vertex for GridVertex {
    open spec fn spec_bindings() -> Seq<AttributeBindingView> {
        seq![
            AttributeBindingView {
                name: "position"@,
                offset: 0,
                ty: AttributeType::I32I32,
                divisor: 0,
            },
            AttributeBindingView {
                name: "color"@,
                offset: 8,
                ty: AttributeType::U8U8U8U8,
                divisor: 0,
            },
        ]
    }

    fn build_bindings() -> (r: VertexFormat) {
        let mut format: VertexFormat = Vec::new();
        format.push(
            AttributeBinding {
                name: "position".to_owned(),
                offset: 0,
                ty: AttributeType::I32I32,
                divisor: 0,
            },
        );
        format.push(
            AttributeBinding {
                name: "color".to_owned(),
                offset: 8,
                ty: AttributeType::U8U8U8U8,
                divisor: 0,
            },
        );
        proof {
            assert(format.deep_view() =~= Self::spec_bindings());
        }
        format
    }
}

/// A small concrete per-instance vertex: one 64-bit tag that advances once
/// per drawn instance (divisor 1). Its attribute type is optional, so the
/// layout is supported only where the backend takes 64-bit integer
/// attributes.
#[derive(Clone, Copy, Debug, PartialEq, Eq, Structural)]
pub struct InstanceTag {
    /// Identifying tag of the instance.
    pub tag: u64,
}

impl Vertex for InstanceTag {
    open spec fn spec_bindings() -> Seq<AttributeBindingView> {
        seq![
            AttributeBindingView { name: "tag"@, offset: 0, ty: AttributeType::U64, divisor: 1 },
        ]
    }

    fn build_bindings() -> (r: VertexFormat) {
        let mut format: VertexFormat = Vec::new();
        format.push(
            AttributeBinding { name: "tag".to_owned(), offset: 0, ty: AttributeType::U64, divisor: 1 },
        );
        proof {
            assert(format.deep_view() =~= Self::spec_bindings());
        }
        format
    }
}

} // verus!
