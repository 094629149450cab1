//! The attribute type registry and the vertex layout descriptor.
//!
//! An [`AttributeType`] names one GPU-recognized scalar, vector or matrix
//! element kind. A [`VertexFormat`] is the ordered list of attribute
//! bindings — name, byte offset, type and per-instance divisor — that
//! describes the memory layout of one concrete vertex struct.

use vstd::prelude::*;

verus! {

/// One GPU-recognized element kind for a vertex attribute: a scalar, a
/// 2- to 4-component vector of a scalar kind, or a fixed-size float matrix.
#[derive(Clone, Copy, Debug, PartialEq, Eq, Structural)]
pub enum AttributeType {
    I8,
    I8I8,
    I8I8I8,
    I8I8I8I8,
    U8,
    U8U8,
    U8U8U8,
    U8U8U8U8,
    I16,
    I16I16,
    I16I16I16,
    I16I16I16I16,
    U16,
    U16U16,
    U16U16U16,
    U16U16U16U16,
    I32,
    I32I32,
    I32I32I32,
    I32I32I32I32,
    U32,
    U32U32,
    U32U32U32,
    U32U32U32U32,
    I64,
    I64I64,
    I64I64I64,
    I64I64I64I64,
    U64,
    U64U64,
    U64U64U64,
    U64U64U64U64,
    F16,
    F16F16,
    F16F16F16,
    F16F16F16F16,
    F32,
    F32F32,
    F32F32F32,
    F32F32F32F32,
    F64,
    F64F64,
    F64F64F64,
    F64F64F64F64,
    F32x2x2,
    F32x3x3,
    F32x4x4,
    F64x2x2,
    F64x3x3,
    F64x4x4,
}

/// The set of features and attribute kinds that the active graphics context
/// and driver are confirmed to support. 8/16/32-bit integer attributes and
/// 32-bit float attributes are part of every supported baseline; the fields
/// record the optional capabilities.
#[derive(Clone, Copy, Debug, PartialEq, Eq, Structural)]
pub struct Capabilities {
    /// Whether 64-bit integer vertex attributes can be consumed.
    pub supports_i64_attributes: bool,
    /// Whether 16-bit half-float vertex attributes can be consumed.
    pub supports_f16_attributes: bool,
    /// Whether 64-bit double vertex attributes (scalars, vectors and
    /// matrices) can be consumed.
    pub supports_f64_attributes: bool,
    /// Whether per-instance attribute buffers (instancing) are available.
    pub supports_instancing: bool,
    /// Whether transform feedback is available.
    pub supports_transform_feedback: bool,
}

/// A queryable source of the active context's [`Capabilities`].
pub trait CapabilitiesSource {
    /// The capability set this source reports.
    spec fn spec_capabilities(&self) -> Capabilities;

    /// Returns the capability set of the active context.
    fn get_capabilities(&self) -> (c: &Capabilities)
        ensures
            *c == self.spec_capabilities(),
    ;
}

impl CapabilitiesSource for Capabilities {
    open spec fn spec_capabilities(&self) -> Capabilities {
        *self
    }

    fn get_capabilities(&self) -> (c: &Capabilities) {
        self
    }
}

impl AttributeType {
    /// Whether the capability set `c` can consume this attribute type.
    pub open spec fn spec_supported(self, c: Capabilities) -> bool {
        match self {
            AttributeType::I64
            | AttributeType::I64I64
            | AttributeType::I64I64I64
            | AttributeType::I64I64I64I64
            | AttributeType::U64
            | AttributeType::U64U64
            | AttributeType::U64U64U64
            | AttributeType::U64U64U64U64 => c.supports_i64_attributes,
            AttributeType::F16
            | AttributeType::F16F16
            | AttributeType::F16F16F16
            | AttributeType::F16F16F16F16 => c.supports_f16_attributes,
            AttributeType::F64
            | AttributeType::F64F64
            | AttributeType::F64F64F64
            | AttributeType::F64F64F64F64
            | AttributeType::F64x2x2
            | AttributeType::F64x3x3
            | AttributeType::F64x4x4 => c.supports_f64_attributes,
            _ => true,
        }
    }

    /// Returns true if the backend can consume this type of attribute.
    pub fn is_supported<C: CapabilitiesSource + ?Sized>(&self, caps: &C) -> (r: bool)
        ensures
            r == self.spec_supported(caps.spec_capabilities()),
    {
        let c = caps.get_capabilities();
        match *self {
            AttributeType::I64
            | AttributeType::I64I64
            | AttributeType::I64I64I64
            | AttributeType::I64I64I64I64
            | AttributeType::U64
            | AttributeType::U64U64
            | AttributeType::U64U64U64
            | AttributeType::U64U64U64U64 => c.supports_i64_attributes,
            AttributeType::F16
            | AttributeType::F16F16
            | AttributeType::F16F16F16
            | AttributeType::F16F16F16F16 => c.supports_f16_attributes,
            AttributeType::F64
            | AttributeType::F64F64
            | AttributeType::F64F64F64
            | AttributeType::F64F64F64F64
            | AttributeType::F64x2x2
            | AttributeType::F64x3x3
            | AttributeType::F64x4x4 => c.supports_f64_attributes,
            _ => true,
        }
    }
}

/// The mathematical abstraction of one attribute binding: the name as a
/// character sequence, the byte offset, the element type and the
/// per-instance divisor.
pub struct AttributeBindingView {
    /// The attribute's name, as bound in the shader.
    pub name: Seq<char>,
    /// Byte offset of the attribute within one vertex struct.
    pub offset: nat,
    /// Element type of the attribute.
    pub ty: AttributeType,
    /// Per-instance divisor; 0 means the attribute advances once per vertex.
    pub divisor: nat,
}

/// One attribute binding of a vertex layout: the attribute's name, its byte
/// offset within the vertex struct, its element type and its per-instance
/// divisor.
pub struct AttributeBinding {
    /// The attribute's name, as bound in the shader.
    pub name: String,
    /// Byte offset of the attribute within one vertex struct.
    pub offset: usize,
    /// Element type of the attribute.
    pub ty: AttributeType,
    /// Per-instance divisor; 0 means the attribute advances once per vertex.
    pub divisor: usize,
}

impl View for AttributeBinding {
    type V = AttributeBindingView;

    open spec fn view(&self) -> AttributeBindingView {
        AttributeBindingView {
            name: self.name@,
            offset: self.offset as nat,
            ty: self.ty,
            divisor: self.divisor as nat,
        }
    }
}

impl DeepView for AttributeBinding {
    type V = AttributeBindingView;

    open spec fn deep_view(&self) -> AttributeBindingView {
        self@
    }
}

/// Describes the layout of each vertex: the ordered list of its attribute
/// bindings. Byte offsets must be consistent with the memory layout of the
/// struct the format describes; constructing a format with wrong offsets
/// leads to undefined reads at the GPU boundary.
pub type VertexFormat = Vec<AttributeBinding>;

/// Whether every attribute of the layout `format` is individually supported
/// by the capability set `c`.
pub open spec fn format_supported(format: Seq<AttributeBindingView>, c: Capabilities) -> bool {
    forall|i: int| 0 <= i < format.len() ==> (#[trigger] format[i]).ty.spec_supported(c)
}

/// Returns true iff every attribute of `format` is individually supported by
/// the backend: one unsupported attribute makes the whole layout unsupported.
pub fn vertex_format_supported<C: CapabilitiesSource + ?Sized>(
    format: &VertexFormat,
    caps: &C,
) -> (r: bool)
    ensures
        r == format_supported(format.deep_view(), caps.spec_capabilities()),
{
    let mut i: usize = 0;
    while i < format.len()
        invariant
            0 <= i <= format@.len(),
            forall|j: int|
                0 <= j < i ==> (#[trigger] format.deep_view()[j]).ty.spec_supported(
                    caps.spec_capabilities(),
                ),
        decreases format@.len() - i,
    {
        if !format[i].ty.is_supported(caps) {
            assert(!format.deep_view()[i as int].ty.spec_supported(caps.spec_capabilities()));
            return false;
        }
        i = i + 1;
    }
    true
}

/// Whether two attribute bindings agree in every field: name, byte offset,
/// element type and per-instance divisor.
pub open spec fn bindings_match(a: AttributeBindingView, b: AttributeBindingView) -> bool {
    a.name == b.name && a.offset == b.offset && a.ty == b.ty && a.divisor == b.divisor
}

/// Whether two layouts describe the same element type: same number of
/// bindings, and binding for binding the same name, offset, type and
/// divisor.
pub open spec fn layouts_match(
    a: Seq<AttributeBindingView>,
    b: Seq<AttributeBindingView>,
) -> bool {
    a.len() == b.len() && forall|i: int|
        0 <= i < a.len() ==> bindings_match(#[trigger] a[i], b[i])
}

/// Returns true iff the two layouts describe the same element type,
/// binding for binding.
pub fn formats_match(a: &VertexFormat, b: &VertexFormat) -> (r: bool)
    ensures
        r == layouts_match(a.deep_view(), b.deep_view()),
{
    if a.len() != b.len() {
        return false;
    }
    let mut i: usize = 0;
    while i < a.len()
        invariant
            a@.len() == b@.len(),
            0 <= i <= a@.len(),
            forall|j: int| 0 <= j < i ==> bindings_match(#[trigger] a.deep_view()[j], b.deep_view()[j]),
        decreases a@.len() - i,
    {
        let xa = &a[i];
        let xb = &b[i];
        if !(xa.name == xb.name && xa.offset == xb.offset && xa.ty == xb.ty && xa.divisor
            == xb.divisor) {
            assert(!bindings_match(a.deep_view()[i as int], b.deep_view()[i as int]));
            return false;
        }
        i = i + 1;
    }
    true
}

/// One unsupported attribute disqualifies the whole layout: if any binding's
/// type is not supported by `c`, the layout is not supported — there is no
/// partial credit.
pub proof fn lemma_no_partial_support(format: Seq<AttributeBindingView>, c: Capabilities, i: int)
    requires
        0 <= i < format.len(),
        !format[i].ty.spec_supported(c),
    ensures
        !format_supported(format, c),
{
}

} // verus!
