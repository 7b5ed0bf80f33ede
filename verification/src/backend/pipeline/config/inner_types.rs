//! The parts of a bind group layout entry, in the shape in which a
//! configuration describes them.

use vstd::prelude::*;

verus! {

/// The shader stages that can see a binding.
#[derive(Copy, Clone, Debug, PartialEq, Eq)]
pub struct ShaderStages {
    pub vertex: bool,
    pub fragment: bool,
    pub compute: bool,
}

/// The flags of the vertex, the fragment and the compute stage, as bits.
///
/// Trusted: the body reads the constants `VERTEX`, `FRAGMENT` and `COMPUTE`
/// of `wgpu::ShaderStages` with its `bits` method. The contract states the
/// values that `wgpu-types` declares: `1 << 0`, `1 << 1` and `1 << 2`.
#[verifier::external_body]
fn stage_flag_bits() -> (bits: (u32, u32, u32))
    ensures
        bits == (1u32, 2u32, 4u32),
{
    (
        wgpu::ShaderStages::VERTEX.bits(),
        wgpu::ShaderStages::FRAGMENT.bits(),
        wgpu::ShaderStages::COMPUTE.bits(),
    )
}

impl ShaderStages {
    /// The stage set as the bits of the device API: bit 0 for the vertex
    /// stage, bit 1 for the fragment stage and bit 2 for the compute stage.
    pub open spec fn stage_bits(self) -> u32 {
        (if self.vertex {
            1u32
        } else {
            0u32
        }) | (if self.fragment {
            2u32
        } else {
            0u32
        }) | (if self.compute {
            4u32
        } else {
            0u32
        })
    }

    /// The stage set as the bits of the device API. No bit is set but
    /// those of the three stages, so the device API knows every one of them.
    pub fn bits(&self) -> (bits: u32)
        ensures
            bits == self.stage_bits(),
            bits & !7u32 == 0,
    {
        let flags: (u32, u32, u32) = stage_flag_bits();
        let vertex: u32 = if self.vertex {
            flags.0
        } else {
            0
        };
        let fragment: u32 = if self.fragment {
            flags.1
        } else {
            0
        };
        let compute: u32 = if self.compute {
            flags.2
        } else {
            0
        };
        let bits: u32 = vertex | fragment | compute;
        assert(bits & !7u32 == 0) by (bit_vector)
            requires
                bits == vertex | fragment | compute,
                vertex == 0 || vertex == 1,
                fragment == 0 || fragment == 2,
                compute == 0 || compute == 4,
        ;
        bits
    }
}

/// The kind of value that sampling a texture gives.
#[derive(Copy, Clone, Debug, PartialEq, Eq)]
pub enum TextureSampleType {
    Sint,
    Uint,
    Depth,
    Float { filterable: bool },
}

/// The way a sampler is bound.
#[derive(Copy, Clone, Debug, PartialEq, Eq)]
pub enum SamplerBindingType {
    Filtering,
    NonFiltering,
    Comparison,
}

/// The way a buffer is bound.
#[derive(Copy, Clone, Debug, PartialEq, Eq)]
pub enum BufferBindingType {
    Storage { read_only: bool },
    Uniform,
}

/// The dimensions of a view of a texture.
#[derive(Copy, Clone, Debug, PartialEq, Eq)]
pub enum TextureViewDimension {
    D1,
    D2,
    D3,
    D2Array,
    Cube,
    CubeArray,
}

/// What a shader may do with a storage texture.
#[derive(Copy, Clone, Debug, PartialEq, Eq)]
pub enum StorageTextureAccess {
    ReadOnly,
    WriteOnly,
    ReadWrite,
}

/// The format of the texels of a texture.
#[derive(Copy, Clone, Debug, PartialEq, Eq)]
pub enum TextureFormat {
    R8Unorm,
    R8Snorm,
    R8Uint,
    R8Sint,
    R16Uint,
    R16Sint,
    R16Unorm,
    R16Snorm,
    R16Float,
    Rg8Unorm,
    Rg8Snorm,
    Rg8Uint,
    Rg8Sint,
    R32Uint,
    R32Sint,
    R32Float,
    Rg16Uint,
    Rg16Sint,
    Rg16Unorm,
    Rg16Snorm,
    Rg16Float,
    Rgba8Unorm,
    Rgba8UnormSrgb,
    Rgba8Snorm,
    Rgba8Uint,
    Rgba8Sint,
    Bgra8Unorm,
    Bgra8UnormSrgb,
    Rgb9e5Ufloat,
    Rgb10a2Unorm,
    Rg11b10Float,
    Rg32Uint,
    Rg32Sint,
    Rg32Float,
    Rgba16Uint,
    Rgba16Sint,
    Rgba16Unorm,
    Rgba16Snorm,
    Rgba16Float,
    Rgba32Uint,
    Rgba32Sint,
    Rgba32Float,
    Stencil8,
    Depth16Unorm,
    Depth24Plus,
    Depth24PlusStencil8,
    Depth32Float,
    Depth32FloatStencil8,
    Bc1RgbaUnorm,
    Bc1RgbaUnormSrgb,
    Bc2RgbaUnorm,
    Bc2RgbaUnormSrgb,
    Bc3RgbaUnorm,
    Bc3RgbaUnormSrgb,
    Bc4RUnorm,
    Bc4RSnorm,
    Bc5RgUnorm,
    Bc5RgSnorm,
    Bc6hRgbUfloat,
    Bc6hRgbSfloat,
    Bc7RgbaUnorm,
    Bc7RgbaUnormSrgb,
    Etc2Rgb8Unorm,
    Etc2Rgb8UnormSrgb,
    Etc2Rgb8A1Unorm,
    Etc2Rgb8A1UnormSrgb,
    Etc2Rgba8Unorm,
    Etc2Rgba8UnormSrgb,
    EacR11Unorm,
    EacR11Snorm,
    EacRg11Unorm,
    EacRg11Snorm,
}

/// What is bound at a binding, with what each kind of binding needs to be
/// told about it.
#[derive(Copy, Clone, Debug, PartialEq, Eq)]
pub enum BindingType {
    Buffer { ty: BufferBindingType, has_dynamic_offset: bool, min_binding_size: Option<u64> },
    Sampler(SamplerBindingType),
    Texture {
        sample_type: TextureSampleType,
        view_dimension: TextureViewDimension,
        multisampled: bool,
    },
    StorageTexture {
        access: StorageTextureAccess,
        format: TextureFormat,
        view_dimension: TextureViewDimension,
    },
}

impl BindingType {
    /// Whether the binding is in order: a least size of a buffer binding, if
    /// one is given, is not zero.
    pub open spec fn valid(self) -> bool {
        self matches BindingType::Buffer { min_binding_size, .. } ==> min_binding_size != Some(
            0u64,
        )
    }

    /// Tells whether the binding is in order.
    pub fn is_valid(&self) -> (r: bool)
        ensures
            r == self.valid(),
    {
        match self {
            BindingType::Buffer { min_binding_size: Some(size), .. } => *size != 0,
            _ => true,
        }
    }
}

/// One entry of a bind group layout: the index of the binding, the stages
/// that see it, what is bound, and the length of the array if it is one.
#[derive(Copy, Clone, Debug, PartialEq, Eq)]
pub struct BindGroupLayoutEntry {
    pub binding: u32,
    pub visibility: ShaderStages,
    pub ty: BindingType,
    pub count: Option<u32>,
}

impl BindGroupLayoutEntry {
    /// Whether the entry is in order: its binding is, and the length of the
    /// array, if one is given, is not zero.
    pub open spec fn valid(self) -> bool {
        self.ty.valid() && self.count != Some(0u32)
    }

    /// Tells whether the entry is in order.
    pub fn is_valid(&self) -> (r: bool)
        ensures
            r == self.valid(),
    {
        let count_given: bool = match self.count {
            Some(count) => count != 0,
            None => true,
        };
        self.ty.is_valid() && count_given
    }
}

} // verus!
