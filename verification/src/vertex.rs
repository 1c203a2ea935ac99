//! The vertex-input layout: one tightly packed binding of interleaved
//! position, color, and texture coordinates, consumed per vertex.

use vstd::prelude::*;

verus! {

/// Whether attribute data advances per vertex or per instance.
#[derive(Clone, Copy, Debug, PartialEq, Eq, Structural)]
pub enum VertexInputRate {
    Vertex,
    Instance,
}

/// Attribute component layouts used by the vertex format.
#[derive(Clone, Copy, Debug, PartialEq, Eq, Structural)]
pub enum AttributeFormat {
    R32G32Sfloat,
    R32G32B32Sfloat,
}

/// The single vertex-buffer binding.
#[derive(Clone, Copy, Debug, PartialEq, Eq, Structural)]
pub struct VertexBindingDescription {
    pub binding: u32,
    pub stride: u32,
    pub input_rate: VertexInputRate,
}

/// One vertex attribute: where a shader input comes from inside the binding.
#[derive(Clone, Copy, Debug, PartialEq, Eq, Structural)]
pub struct VertexAttributeDescription {
    pub location: u32,
    pub binding: u32,
    pub format: AttributeFormat,
    pub offset: u32,
}

/// Bytes of one four-byte float.
pub const FLOAT_BYTES: u32 = 4;

/// Float components of the position attribute.
pub const POSITION_COMPONENTS: u32 = 3;

/// Float components of the color attribute.
pub const COLOR_COMPONENTS: u32 = 3;

/// Float components of the texture-coordinate attribute.
pub const TEXTURE_UV_COMPONENTS: u32 = 2;

/// Binding 0, advancing per vertex, with the stride of one packed vertex:
/// position, color and texture coordinates back to back.
pub fn vertex_binding_description() -> (r: VertexBindingDescription)
    ensures
        r.binding == 0,
        r.stride == ((POSITION_COMPONENTS + COLOR_COMPONENTS + TEXTURE_UV_COMPONENTS) * FLOAT_BYTES) as u32,
        r.input_rate == VertexInputRate::Vertex,
{
    VertexBindingDescription {
        binding: 0,
        stride: (POSITION_COMPONENTS + COLOR_COMPONENTS + TEXTURE_UV_COMPONENTS) * FLOAT_BYTES,
        input_rate: VertexInputRate::Vertex,
    }
}

/// The three attributes of a vertex, at their packed offsets: position at 0,
/// color after it, texture coordinates last.
pub fn vertex_attribute_descriptions() -> (r: Vec<VertexAttributeDescription>)
    ensures
        r@ == seq![
            VertexAttributeDescription {
                location: 0,
                binding: 0,
                format: AttributeFormat::R32G32B32Sfloat,
                offset: 0,
            },
            VertexAttributeDescription {
                location: 1,
                binding: 0,
                format: AttributeFormat::R32G32B32Sfloat,
                offset: (POSITION_COMPONENTS * FLOAT_BYTES) as u32,
            },
            VertexAttributeDescription {
                location: 2,
                binding: 0,
                format: AttributeFormat::R32G32Sfloat,
                offset: ((POSITION_COMPONENTS + COLOR_COMPONENTS) * FLOAT_BYTES) as u32,
            },
        ],
{
    let mut v: Vec<VertexAttributeDescription> = Vec::new();
    v.push(
        VertexAttributeDescription {
            location: 0,
            binding: 0,
            format: AttributeFormat::R32G32B32Sfloat,
            offset: 0,
        },
    );
    v.push(
        VertexAttributeDescription {
            location: 1,
            binding: 0,
            format: AttributeFormat::R32G32B32Sfloat,
            offset: POSITION_COMPONENTS * FLOAT_BYTES,
        },
    );
    v.push(
        VertexAttributeDescription {
            location: 2,
            binding: 0,
            format: AttributeFormat::R32G32Sfloat,
            offset: (POSITION_COMPONENTS + COLOR_COMPONENTS) * FLOAT_BYTES,
        },
    );
    proof {
        assert(v@ =~= seq![
            VertexAttributeDescription {
                location: 0,
                binding: 0,
                format: AttributeFormat::R32G32B32Sfloat,
                offset: 0,
            },
            VertexAttributeDescription {
                location: 1,
                binding: 0,
                format: AttributeFormat::R32G32B32Sfloat,
                offset: (POSITION_COMPONENTS * FLOAT_BYTES) as u32,
            },
            VertexAttributeDescription {
                location: 2,
                binding: 0,
                format: AttributeFormat::R32G32Sfloat,
                offset: ((POSITION_COMPONENTS + COLOR_COMPONENTS) * FLOAT_BYTES) as u32,
            },
        ]);
    }
    v
}

} // verus!
