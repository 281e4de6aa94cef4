//! What the caller declares: binding layout entries, resource usages,
//! and the vertex and texture formats.

use vstd::prelude::*;

verus! {

/// Offset or size within a buffer, in bytes.
pub type BufferAddress = u64;

/// Location of a varying in a shader interface.
pub type ShaderLocation = u32;

/// Offset added to a dynamic buffer binding when a bind group is set.
pub type DynamicOffset = u32;

/// The required alignment of bound uniform and storage buffer offsets.
pub const BIND_BUFFER_ALIGNMENT: BufferAddress = 256;

/// Reads `wgpu_types::BIND_BUFFER_ALIGNMENT`. That crate declares the
/// constant as 256, and the contract claims no more than this value.
#[verifier::external_body]
pub(crate) fn bind_buffer_alignment() -> (alignment: BufferAddress)
    ensures
        alignment == BIND_BUFFER_ALIGNMENT,
{
    wgpu_types::BIND_BUFFER_ALIGNMENT
}

/// Set of shader stages that a binding is visible from.
#[derive(Clone, Copy, Debug, PartialEq, Eq, Hash, Structural)]
pub struct ShaderStage {
    pub bits: u32,
}

impl ShaderStage {
    /// Visible from no stage.
    pub const NONE: u32 = 0;

    /// Visible from the vertex stage.
    pub const VERTEX: u32 = 1;

    /// Visible from the fragment stage.
    pub const FRAGMENT: u32 = 2;

    /// Visible from the compute stage.
    pub const COMPUTE: u32 = 4;

    /// Whether every stage of `other` is in `self`.
    pub open spec fn spec_contains(self, other: ShaderStage) -> bool {
        self.bits & other.bits == other.bits
    }

    pub fn none() -> (stages: ShaderStage)
        ensures
            stages.bits == ShaderStage::NONE,
    {
        ShaderStage { bits: ShaderStage::NONE }
    }

    pub fn vertex() -> (stages: ShaderStage)
        ensures
            stages.bits == ShaderStage::VERTEX,
    {
        ShaderStage { bits: ShaderStage::VERTEX }
    }

    pub fn fragment() -> (stages: ShaderStage)
        ensures
            stages.bits == ShaderStage::FRAGMENT,
    {
        ShaderStage { bits: ShaderStage::FRAGMENT }
    }

    pub fn compute() -> (stages: ShaderStage)
        ensures
            stages.bits == ShaderStage::COMPUTE,
    {
        ShaderStage { bits: ShaderStage::COMPUTE }
    }

    #[verifier::when_used_as_spec(spec_contains)]
    pub fn contains(self, other: ShaderStage) -> (r: bool)
        ensures
            r == self.spec_contains(other),
    {
        self.bits & other.bits == other.bits
    }
}

/// Set of ways in which a buffer may be used.
#[derive(Clone, Copy, Debug, PartialEq, Eq, Hash, Structural)]
pub struct BufferUsage {
    pub bits: u32,
}

impl BufferUsage {
    pub const MAP_READ: u32 = 1;

    pub const MAP_WRITE: u32 = 2;

    pub const COPY_SRC: u32 = 4;

    pub const COPY_DST: u32 = 8;

    pub const INDEX: u32 = 16;

    pub const VERTEX: u32 = 32;

    pub const UNIFORM: u32 = 64;

    pub const STORAGE: u32 = 128;

    pub const INDIRECT: u32 = 256;

    /// Whether every usage of `other` is in `self`.
    pub open spec fn spec_contains(self, other: BufferUsage) -> bool {
        self.bits & other.bits == other.bits
    }

    #[verifier::when_used_as_spec(spec_contains)]
    pub fn contains(self, other: BufferUsage) -> (r: bool)
        ensures
            r == self.spec_contains(other),
    {
        self.bits & other.bits == other.bits
    }
}

/// Set of ways in which a texture may be used.
#[derive(Clone, Copy, Debug, PartialEq, Eq, Hash, Structural)]
pub struct TextureUsage {
    pub bits: u32,
}

impl TextureUsage {
    pub const COPY_SRC: u32 = 1;

    pub const COPY_DST: u32 = 2;

    pub const SAMPLED: u32 = 4;

    pub const STORAGE: u32 = 8;

    pub const OUTPUT_ATTACHMENT: u32 = 16;

    /// Whether every usage of `other` is in `self`.
    pub open spec fn spec_contains(self, other: TextureUsage) -> bool {
        self.bits & other.bits == other.bits
    }

    #[verifier::when_used_as_spec(spec_contains)]
    pub fn contains(self, other: TextureUsage) -> (r: bool)
        ensures
            r == self.spec_contains(other),
    {
        self.bits & other.bits == other.bits
    }
}

/// Set of optional device features.
#[derive(Clone, Copy, Debug, PartialEq, Eq, Hash, Structural)]
pub struct Features {
    pub bits: u64,
}

/// Dimensions of a texture view.
#[derive(Clone, Copy, Debug, PartialEq, Eq, Hash, Structural)]
pub enum TextureViewDimension {
    D1,
    D2,
    D2Array,
    Cube,
    CubeArray,
    D3,
}

/// Kind of the values that a shader reads from a sampled texture.
#[derive(Clone, Copy, Debug, PartialEq, Eq, Hash, Structural)]
pub enum TextureComponentType {
    Float,
    Sint,
    Uint,
}

/// Format of the texels of a texture.
#[derive(Clone, Copy, Debug, PartialEq, Eq, Hash, Structural)]
pub enum TextureFormat {
    R8Unorm,
    R8Snorm,
    R8Uint,
    R8Sint,
    R16Uint,
    R16Sint,
    R16Float,
    Rg8Unorm,
    Rg8Snorm,
    Rg8Uint,
    Rg8Sint,
    R32Uint,
    R32Sint,
    R32Float,
    Rg16Uint,
    Rg16Sint,
    Rg16Float,
    Rgba8Unorm,
    Rgba8UnormSrgb,
    Rgba8Snorm,
    Rgba8Uint,
    Rgba8Sint,
    Bgra8Unorm,
    Bgra8UnormSrgb,
    Rgb10a2Unorm,
    Rg11b10Float,
    Rg32Uint,
    Rg32Sint,
    Rg32Float,
    Rgba16Uint,
    Rgba16Sint,
    Rgba16Float,
    Rgba32Uint,
    Rgba32Sint,
    Rgba32Float,
    Depth32Float,
    Depth24Plus,
    Depth24PlusStencil8,
}

impl TextureFormat {
    /// Whether the format holds depth, with or without stencil.
    pub open spec fn spec_is_depth(self) -> bool {
        self == TextureFormat::Depth32Float || self == TextureFormat::Depth24Plus || self
            == TextureFormat::Depth24PlusStencil8
    }

    #[verifier::when_used_as_spec(spec_is_depth)]
    pub fn is_depth(self) -> (r: bool)
        ensures
            r == self.spec_is_depth(),
    {
        match self {
            TextureFormat::Depth32Float
            | TextureFormat::Depth24Plus
            | TextureFormat::Depth24PlusStencil8 => true,
            _ => false,
        }
    }
}

/// Format of one vertex attribute.
#[derive(Clone, Copy, Debug, PartialEq, Eq, Hash, Structural)]
pub enum VertexFormat {
    Uchar2,
    Uchar4,
    Char2,
    Char4,
    Uchar2Norm,
    Uchar4Norm,
    Char2Norm,
    Char4Norm,
    Ushort2,
    Ushort4,
    Short2,
    Short4,
    Ushort2Norm,
    Ushort4Norm,
    Short2Norm,
    Short4Norm,
    Half2,
    Half4,
    Float,
    Float2,
    Float3,
    Float4,
    Uint,
    Uint2,
    Uint3,
    Uint4,
    Int,
    Int2,
    Int3,
    Int4,
}

/// What kind of resource a binding holds.
#[derive(Clone, Copy, Debug, PartialEq, Eq, Hash, Structural)]
pub enum BindingType {
    /// A buffer for uniform values.
    UniformBuffer { dynamic: bool, min_binding_size: Option<BufferAddress> },
    /// A storage buffer.
    StorageBuffer { dynamic: bool, min_binding_size: Option<BufferAddress>, readonly: bool },
    /// A sampler.
    Sampler { comparison: bool },
    /// A texture that is read through a sampler.
    SampledTexture {
        dimension: TextureViewDimension,
        component_type: TextureComponentType,
        multisampled: bool,
    },
    /// A storage texture.
    StorageTexture { dimension: TextureViewDimension, format: TextureFormat, readonly: bool },
}

/// One binding of a bind group layout.
#[derive(Clone, Copy, Debug, PartialEq, Eq, Hash, Structural)]
pub struct BindGroupLayoutEntry {
    /// Index of the binding within its group.
    pub binding: u32,
    /// The stages that may use the binding.
    pub visibility: ShaderStage,
    /// The kind of resource.
    pub ty: BindingType,
    /// For an array of bindings, its length.
    pub count: Option<u32>,
}

} // verus!
