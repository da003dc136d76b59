//! Texture descriptions handed to the rendering backend.
use vstd::prelude::*;

verus! {

/// The size of a texture region in texels.
#[derive(Clone, Copy, Debug, PartialEq, Eq, Structural)]
pub struct Extent3d {
    pub width: u32,
    pub height: u32,
    pub depth: u32,
}

/// A texel position.
#[derive(Clone, Copy, Debug, PartialEq, Eq, Structural)]
pub struct Origin3d {
    pub x: u32,
    pub y: u32,
    pub z: u32,
}

/// The number of dimensions of a texture.
#[derive(Clone, Copy, Debug, Hash, PartialEq, Eq, Structural)]
pub enum TextureDimension {
    /// 1D texture
    D1,
    /// 2D texture
    D2,
    /// 3D texture
    D3,
}

/// The texel format of a texture.
#[derive(Clone, Copy, Debug, Hash, PartialEq, Eq, Structural)]
pub enum TextureFormat {
    R8Unorm,
    R8Snorm,
    R8Uint,
    R8Sint,
    R16Uint,
    R16Sint,
    R16Float,
    Rg8Unorm,
    Rg8Snorm,
    Rg8Uint,
    Rg8Sint,
    R32Uint,
    R32Sint,
    R32Float,
    Rg16Uint,
    Rg16Sint,
    Rg16Float,
    Rgba8Unorm,
    Rgba8UnormSrgb,
    Rgba8Snorm,
    Rgba8Uint,
    Rgba8Sint,
    Bgra8Unorm,
    Bgra8UnormSrgb,
    Rgb10a2Unorm,
    Rg11b10Float,
    Rg32Uint,
    Rg32Sint,
    Rg32Float,
    Rgba16Uint,
    Rgba16Sint,
    Rgba16Float,
    Rgba32Uint,
    Rgba32Sint,
    Rgba32Float,
    Depth32Float,
    Depth24Plus,
    Depth24PlusStencil8,
    Bc1RgbaUnorm,
    Bc1RgbaUnormSrgb,
    Bc2RgbaUnorm,
    Bc2RgbaUnormSrgb,
    Bc3RgbaUnorm,
    Bc3RgbaUnormSrgb,
    Bc4RUnorm,
    Bc4RSnorm,
    Bc5RgUnorm,
    Bc5RgSnorm,
    Bc6hRgbUfloat,
    Bc6hRgbSfloat,
    Bc7RgbaUnorm,
    Bc7RgbaUnormSrgb,
}

/// The highest bit pattern that a set of texture usages can have.
pub const TEXTURE_USAGE_ALL: u32 = 31;

/// A set of texture usages, one bit each.
#[derive(Clone, Copy, Debug, PartialEq, Eq, Structural)]
pub struct TextureUsage {
    bits: u32,
}

impl View for TextureUsage {
    type V = u32;

    closed spec fn view(&self) -> u32 {
        self.bits
    }
}

impl TextureUsage {
    pub const COPY_SRC: u32 = 1;
    pub const COPY_DST: u32 = 2;
    pub const SAMPLED: u32 = 4;
    pub const STORAGE: u32 = 8;
    pub const OUTPUT_ATTACHMENT: u32 = 16;

    /// The set whose bits are `bits`, or `None` when a bit names no usage.
    pub fn from_bits(bits: u32) -> (r: Option<TextureUsage>)
        ensures
            r is Some <==> bits <= TEXTURE_USAGE_ALL,
            r matches Some(u) ==> u@ == bits,
    {
        if bits <= TEXTURE_USAGE_ALL {
            Some(TextureUsage { bits })
        } else {
            None
        }
    }

    /// The bits of the set.
    pub fn bits(&self) -> (r: u32)
        ensures
            r == self@,
    {
        self.bits
    }
}

/// How to create a texture.
pub struct TextureDescriptor<'a> {
    pub label: Option<&'a str>,
    pub size: Extent3d,
    pub mip_level_count: u32,
    pub sample_count: u32,
    pub dimension: TextureDimension,
    pub format: TextureFormat,
    pub usage: TextureUsage,
}

/// How texel data is laid out in a linear byte buffer.
#[derive(Clone, Copy, Debug, PartialEq, Eq, Structural)]
pub struct TextureDataLayout {
    /// Offset of the first texel.
    pub offset: u64,
    /// Bytes per row of texels.
    pub bytes_per_row: u32,
    /// Rows that make up one layer of a 3D image.
    pub rows_per_image: u32,
}

/// A region of one mip level of a texture.
pub struct TextureCopyView<'a> {
    pub texture: &'a Texture,
    pub mip_level: u32,
    pub origin: Origin3d,
}

/// A texture of the active backend.
#[non_exhaustive]
pub enum Texture {
    /// A texture of the headless backend, which keeps no texel data.
    Headless { size: Extent3d },
}

impl Texture {
    /// The size the texture was created with.
    pub fn size(&self) -> (r: Extent3d)
        ensures
            self matches Texture::Headless { size } && r == size,
    {
        match self {
            Texture::Headless { size } => *size,
        }
    }
}

} // verus!
