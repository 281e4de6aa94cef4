//! The shader types that stand for vertex and texture formats.

use vstd::prelude::*;
use crate::ir::{ScalarKind, TypeInner, VectorSize};
use crate::types::{TextureFormat, VertexFormat};
use crate::validation::subtype::{is_sub_type, sub_type};

verus! {

/// The type of `components` numbers of one kind and width: a scalar for
/// one, a vector for two to four.
pub open spec fn numeric_type(components: nat, kind: ScalarKind, width: u8) -> TypeInner {
    if components == 2 {
        TypeInner::Vector { size: VectorSize::Bi, kind, width }
    } else if components == 3 {
        TypeInner::Vector { size: VectorSize::Tri, kind, width }
    } else if components == 4 {
        TypeInner::Vector { size: VectorSize::Quad, kind, width }
    } else {
        TypeInner::Scalar { kind, width }
    }
}

/// How many numbers a vertex attribute of this format holds.
pub open spec fn vertex_format_components(format: VertexFormat) -> nat {
    match format {
        VertexFormat::Float | VertexFormat::Uint | VertexFormat::Int => 1,
        VertexFormat::Uchar2
        | VertexFormat::Char2
        | VertexFormat::Uchar2Norm
        | VertexFormat::Char2Norm
        | VertexFormat::Ushort2
        | VertexFormat::Short2
        | VertexFormat::Ushort2Norm
        | VertexFormat::Short2Norm
        | VertexFormat::Half2
        | VertexFormat::Float2
        | VertexFormat::Uint2
        | VertexFormat::Int2 => 2,
        VertexFormat::Float3 | VertexFormat::Uint3 | VertexFormat::Int3 => 3,
        _ => 4,
    }
}

/// The kind of number that a shader reads from a vertex attribute of this
/// format: normalized and half formats are read as floats.
pub open spec fn vertex_format_kind(format: VertexFormat) -> ScalarKind {
    match format {
        VertexFormat::Uchar2
        | VertexFormat::Uchar4
        | VertexFormat::Ushort2
        | VertexFormat::Ushort4
        | VertexFormat::Uint
        | VertexFormat::Uint2
        | VertexFormat::Uint3
        | VertexFormat::Uint4 => ScalarKind::Uint,
        VertexFormat::Char2
        | VertexFormat::Char4
        | VertexFormat::Short2
        | VertexFormat::Short4
        | VertexFormat::Int
        | VertexFormat::Int2
        | VertexFormat::Int3
        | VertexFormat::Int4 => ScalarKind::Sint,
        _ => ScalarKind::Float,
    }
}

/// The bit width of each number of a vertex attribute of this format.
pub open spec fn vertex_format_width(format: VertexFormat) -> u8 {
    match format {
        VertexFormat::Uchar2
        | VertexFormat::Uchar4
        | VertexFormat::Char2
        | VertexFormat::Char4
        | VertexFormat::Uchar2Norm
        | VertexFormat::Uchar4Norm
        | VertexFormat::Char2Norm
        | VertexFormat::Char4Norm => 8,
        VertexFormat::Ushort2
        | VertexFormat::Ushort4
        | VertexFormat::Short2
        | VertexFormat::Short4
        | VertexFormat::Ushort2Norm
        | VertexFormat::Ushort4Norm
        | VertexFormat::Short2Norm
        | VertexFormat::Short4Norm
        | VertexFormat::Half2
        | VertexFormat::Half4 => 16,
        _ => 32,
    }
}

/// The shader type that a vertex attribute of this format provides.
pub open spec fn vertex_format_type(format: VertexFormat) -> TypeInner {
    numeric_type(
        vertex_format_components(format),
        vertex_format_kind(format),
        vertex_format_width(format),
    )
}

/// The shader type that a vertex attribute of the given format provides to
/// the vertex stage.
pub fn map_vertex_format(format: VertexFormat) -> (ty: TypeInner)
    ensures
        ty == vertex_format_type(format),
{
    match format {
        VertexFormat::Uchar2 => TypeInner::Vector {
            size: VectorSize::Bi,
            kind: ScalarKind::Uint,
            width: 8,
        },
        VertexFormat::Uchar4 => TypeInner::Vector {
            size: VectorSize::Quad,
            kind: ScalarKind::Uint,
            width: 8,
        },
        VertexFormat::Char2 => TypeInner::Vector {
            size: VectorSize::Bi,
            kind: ScalarKind::Sint,
            width: 8,
        },
        VertexFormat::Char4 => TypeInner::Vector {
            size: VectorSize::Quad,
            kind: ScalarKind::Sint,
            width: 8,
        },
        VertexFormat::Uchar2Norm => TypeInner::Vector {
            size: VectorSize::Bi,
            kind: ScalarKind::Float,
            width: 8,
        },
        VertexFormat::Uchar4Norm => TypeInner::Vector {
            size: VectorSize::Quad,
            kind: ScalarKind::Float,
            width: 8,
        },
        VertexFormat::Char2Norm => TypeInner::Vector {
            size: VectorSize::Bi,
            kind: ScalarKind::Float,
            width: 8,
        },
        VertexFormat::Char4Norm => TypeInner::Vector {
            size: VectorSize::Quad,
            kind: ScalarKind::Float,
            width: 8,
        },
        VertexFormat::Ushort2 => TypeInner::Vector {
            size: VectorSize::Bi,
            kind: ScalarKind::Uint,
            width: 16,
        },
        VertexFormat::Ushort4 => TypeInner::Vector {
            size: VectorSize::Quad,
            kind: ScalarKind::Uint,
            width: 16,
        },
        VertexFormat::Short2 => TypeInner::Vector {
            size: VectorSize::Bi,
            kind: ScalarKind::Sint,
            width: 16,
        },
        VertexFormat::Short4 => TypeInner::Vector {
            size: VectorSize::Quad,
            kind: ScalarKind::Sint,
            width: 16,
        },
        VertexFormat::Ushort2Norm | VertexFormat::Short2Norm | VertexFormat::Half2 => {
            TypeInner::Vector { size: VectorSize::Bi, kind: ScalarKind::Float, width: 16 }
        },
        VertexFormat::Ushort4Norm | VertexFormat::Short4Norm | VertexFormat::Half4 => {
            TypeInner::Vector { size: VectorSize::Quad, kind: ScalarKind::Float, width: 16 }
        },
        VertexFormat::Float => TypeInner::Scalar { kind: ScalarKind::Float, width: 32 },
        VertexFormat::Float2 => TypeInner::Vector {
            size: VectorSize::Bi,
            kind: ScalarKind::Float,
            width: 32,
        },
        VertexFormat::Float3 => TypeInner::Vector {
            size: VectorSize::Tri,
            kind: ScalarKind::Float,
            width: 32,
        },
        VertexFormat::Float4 => TypeInner::Vector {
            size: VectorSize::Quad,
            kind: ScalarKind::Float,
            width: 32,
        },
        VertexFormat::Uint => TypeInner::Scalar { kind: ScalarKind::Uint, width: 32 },
        VertexFormat::Uint2 => TypeInner::Vector {
            size: VectorSize::Bi,
            kind: ScalarKind::Uint,
            width: 32,
        },
        VertexFormat::Uint3 => TypeInner::Vector {
            size: VectorSize::Tri,
            kind: ScalarKind::Uint,
            width: 32,
        },
        VertexFormat::Uint4 => TypeInner::Vector {
            size: VectorSize::Quad,
            kind: ScalarKind::Uint,
            width: 32,
        },
        VertexFormat::Int => TypeInner::Scalar { kind: ScalarKind::Sint, width: 32 },
        VertexFormat::Int2 => TypeInner::Vector {
            size: VectorSize::Bi,
            kind: ScalarKind::Sint,
            width: 32,
        },
        VertexFormat::Int3 => TypeInner::Vector {
            size: VectorSize::Tri,
            kind: ScalarKind::Sint,
            width: 32,
        },
        VertexFormat::Int4 => TypeInner::Vector {
            size: VectorSize::Quad,
            kind: ScalarKind::Sint,
            width: 32,
        },
    }
}

/// How many channels a texel of a color format holds.
pub open spec fn texture_format_components(format: TextureFormat) -> nat {
    match format {
        TextureFormat::R8Unorm
        | TextureFormat::R8Snorm
        | TextureFormat::R8Uint
        | TextureFormat::R8Sint
        | TextureFormat::R16Uint
        | TextureFormat::R16Sint
        | TextureFormat::R16Float
        | TextureFormat::R32Uint
        | TextureFormat::R32Sint
        | TextureFormat::R32Float => 1,
        TextureFormat::Rg8Unorm
        | TextureFormat::Rg8Snorm
        | TextureFormat::Rg8Uint
        | TextureFormat::Rg8Sint
        | TextureFormat::Rg16Uint
        | TextureFormat::Rg16Sint
        | TextureFormat::Rg16Float
        | TextureFormat::Rg32Uint
        | TextureFormat::Rg32Sint
        | TextureFormat::Rg32Float => 2,
        TextureFormat::Rg11b10Float => 3,
        _ => 4,
    }
}

/// The kind of number that a shader writes to a texel of a color format:
/// normalized formats are written as floats.
pub open spec fn texture_format_kind(format: TextureFormat) -> ScalarKind {
    match format {
        TextureFormat::R8Uint
        | TextureFormat::R16Uint
        | TextureFormat::Rg8Uint
        | TextureFormat::R32Uint
        | TextureFormat::Rg16Uint
        | TextureFormat::Rgba8Uint
        | TextureFormat::Rg32Uint
        | TextureFormat::Rgba16Uint
        | TextureFormat::Rgba32Uint => ScalarKind::Uint,
        TextureFormat::R8Sint
        | TextureFormat::R16Sint
        | TextureFormat::Rg8Sint
        | TextureFormat::R32Sint
        | TextureFormat::Rg16Sint
        | TextureFormat::Rgba8Sint
        | TextureFormat::Rg32Sint
        | TextureFormat::Rgba16Sint
        | TextureFormat::Rgba32Sint => ScalarKind::Sint,
        _ => ScalarKind::Float,
    }
}

/// The bit width of the first channel of a texel of a color format.
pub open spec fn texture_format_width(format: TextureFormat) -> u8 {
    match format {
        TextureFormat::R8Unorm
        | TextureFormat::R8Snorm
        | TextureFormat::R8Uint
        | TextureFormat::R8Sint
        | TextureFormat::Rg8Unorm
        | TextureFormat::Rg8Snorm
        | TextureFormat::Rg8Uint
        | TextureFormat::Rg8Sint
        | TextureFormat::Rgba8Unorm
        | TextureFormat::Rgba8UnormSrgb
        | TextureFormat::Rgba8Snorm
        | TextureFormat::Rgba8Uint
        | TextureFormat::Rgba8Sint
        | TextureFormat::Bgra8Unorm
        | TextureFormat::Bgra8UnormSrgb => 8,
        TextureFormat::Rgb10a2Unorm => 10,
        TextureFormat::Rg11b10Float => 11,
        TextureFormat::R16Uint
        | TextureFormat::R16Sint
        | TextureFormat::R16Float
        | TextureFormat::Rg16Uint
        | TextureFormat::Rg16Sint
        | TextureFormat::Rg16Float
        | TextureFormat::Rgba16Uint
        | TextureFormat::Rgba16Sint
        | TextureFormat::Rgba16Float => 16,
        _ => 32,
    }
}

/// The shader type that a fragment stage has to write to cover a color
/// target of this format. It says nothing of depth formats.
pub open spec fn texture_format_type(format: TextureFormat) -> TypeInner {
    numeric_type(
        texture_format_components(format),
        texture_format_kind(format),
        texture_format_width(format),
    )
}

/// The shader type that covers a color target of the given format. Depth
/// formats are no color targets.
pub fn map_texture_format(format: TextureFormat) -> (ty: TypeInner)
    requires
        !format.is_depth(),
    ensures
        ty == texture_format_type(format),
{
    match format {
        TextureFormat::R8Unorm | TextureFormat::R8Snorm => TypeInner::Scalar {
            kind: ScalarKind::Float,
            width: 8,
        },
        TextureFormat::R8Uint => TypeInner::Scalar { kind: ScalarKind::Uint, width: 8 },
        TextureFormat::R8Sint => TypeInner::Scalar { kind: ScalarKind::Sint, width: 8 },
        TextureFormat::R16Uint => TypeInner::Scalar { kind: ScalarKind::Uint, width: 16 },
        TextureFormat::R16Sint => TypeInner::Scalar { kind: ScalarKind::Sint, width: 16 },
        TextureFormat::R16Float => TypeInner::Scalar { kind: ScalarKind::Float, width: 16 },
        TextureFormat::Rg8Unorm | TextureFormat::Rg8Snorm => TypeInner::Vector {
            size: VectorSize::Bi,
            kind: ScalarKind::Float,
            width: 8,
        },
        TextureFormat::Rg8Uint => TypeInner::Vector {
            size: VectorSize::Bi,
            kind: ScalarKind::Uint,
            width: 8,
        },
        TextureFormat::Rg8Sint => TypeInner::Vector {
            size: VectorSize::Bi,
            kind: ScalarKind::Sint,
            width: 8,
        },
        TextureFormat::R32Uint => TypeInner::Scalar { kind: ScalarKind::Uint, width: 32 },
        TextureFormat::R32Sint => TypeInner::Scalar { kind: ScalarKind::Sint, width: 32 },
        TextureFormat::R32Float => TypeInner::Scalar { kind: ScalarKind::Float, width: 32 },
        TextureFormat::Rg16Uint => TypeInner::Vector {
            size: VectorSize::Bi,
            kind: ScalarKind::Uint,
            width: 16,
        },
        TextureFormat::Rg16Sint => TypeInner::Vector {
            size: VectorSize::Bi,
            kind: ScalarKind::Sint,
            width: 16,
        },
        TextureFormat::Rg16Float => TypeInner::Vector {
            size: VectorSize::Bi,
            kind: ScalarKind::Float,
            width: 16,
        },
        TextureFormat::Rgba8Unorm
        | TextureFormat::Rgba8UnormSrgb
        | TextureFormat::Rgba8Snorm
        | TextureFormat::Bgra8Unorm
        | TextureFormat::Bgra8UnormSrgb => TypeInner::Vector {
            size: VectorSize::Quad,
            kind: ScalarKind::Float,
            width: 8,
        },
        TextureFormat::Rgba8Uint => TypeInner::Vector {
            size: VectorSize::Quad,
            kind: ScalarKind::Uint,
            width: 8,
        },
        TextureFormat::Rgba8Sint => TypeInner::Vector {
            size: VectorSize::Quad,
            kind: ScalarKind::Sint,
            width: 8,
        },
        TextureFormat::Rgb10a2Unorm => TypeInner::Vector {
            size: VectorSize::Quad,
            kind: ScalarKind::Float,
            width: 10,
        },
        TextureFormat::Rg11b10Float => TypeInner::Vector {
            size: VectorSize::Tri,
            kind: ScalarKind::Float,
            width: 11,
        },
        TextureFormat::Rg32Uint => TypeInner::Vector {
            size: VectorSize::Bi,
            kind: ScalarKind::Uint,
            width: 32,
        },
        TextureFormat::Rg32Sint => TypeInner::Vector {
            size: VectorSize::Bi,
            kind: ScalarKind::Sint,
            width: 32,
        },
        TextureFormat::Rg32Float => TypeInner::Vector {
            size: VectorSize::Bi,
            kind: ScalarKind::Float,
            width: 32,
        },
        TextureFormat::Rgba16Uint => TypeInner::Vector {
            size: VectorSize::Quad,
            kind: ScalarKind::Uint,
            width: 16,
        },
        TextureFormat::Rgba16Sint => TypeInner::Vector {
            size: VectorSize::Quad,
            kind: ScalarKind::Sint,
            width: 16,
        },
        TextureFormat::Rgba16Float => TypeInner::Vector {
            size: VectorSize::Quad,
            kind: ScalarKind::Float,
            width: 16,
        },
        TextureFormat::Rgba32Uint => TypeInner::Vector {
            size: VectorSize::Quad,
            kind: ScalarKind::Uint,
            width: 32,
        },
        TextureFormat::Rgba32Sint => TypeInner::Vector {
            size: VectorSize::Quad,
            kind: ScalarKind::Sint,
            width: 32,
        },
        TextureFormat::Rgba32Float => TypeInner::Vector {
            size: VectorSize::Quad,
            kind: ScalarKind::Float,
            width: 32,
        },
        TextureFormat::Depth32Float
        | TextureFormat::Depth24Plus
        | TextureFormat::Depth24PlusStencil8 => {
            proof {
                assert(false);
            }
            TypeInner::Scalar { kind: ScalarKind::Float, width: 32 }
        },
    }
}

/// Whether a color target of the given format is covered by what the
/// fragment stage writes, `output`.
pub fn check_texture_format(format: TextureFormat, output: &TypeInner) -> (covered: bool)
    requires
        !format.is_depth(),
    ensures
        covered == sub_type(texture_format_type(format), *output),
{
    let required = map_texture_format(format);
    is_sub_type(&required, output)
}

} // verus!
