use vstd::prelude::*;

verus! {

/// wgpu's texture dimension: a plain enum of the three axis counts, declared
/// so that contracts can name its variants directly.
#[verifier::external_type_specification]
pub struct ExTextureDimension(wgpu::TextureDimension);

/// wgpu's texture-view dimension, declared for the same reason.
#[verifier::external_type_specification]
pub struct ExTextureViewDimension(wgpu::TextureViewDimension);

/// Block size of wgpu's ASTC formats; only declared because the texture
/// format below carries it.
#[verifier::external_type_specification]
pub struct ExAstcBlock(wgpu::AstcBlock);

/// Channel kind of wgpu's ASTC formats; declared for the same reason.
#[verifier::external_type_specification]
pub struct ExAstcChannel(wgpu::AstcChannel);

/// wgpu's texture format, a plain enum, declared so that a texture
/// description can hold it and contracts can name its variants.
#[verifier::external_type_specification]
pub struct ExTextureFormat(wgpu::TextureFormat);

/// wgpu's texture-usage flags. They hide their bits behind the bitflags
/// machinery, so the type stays opaque and its values are reached through
/// their bits.
#[verifier::external_type_specification]
#[verifier::external_body]
pub struct ExTextureUsages(wgpu::TextureUsages);

/// The wgpu texture-usage flags value that carries exactly the given bits.
pub uninterp spec fn wgpu_usages_of(bits: u32) -> wgpu::TextureUsages;

/// Relies on wgpu::TextureUsages::from_bits_retain, which builds the flags
/// value holding exactly the given bits; the result depends on the bits alone.
#[verifier::external_body]
fn usages_from_bits(bits: u32) -> (r: wgpu::TextureUsages)
    ensures
        r == wgpu_usages_of(bits),
{
    wgpu::TextureUsages::from_bits_retain(bits)
}

/// Specifies how the texture will be used for optimizations.
///
/// A set of usage flags, one bit each: `destination`, `source`,
/// `texture_bind`, `storage_bind` and `render`.
#[derive(Clone, Copy, PartialEq, Eq, Structural, Debug)]
pub struct TextureUsage {
    bits: u32,
}

impl TextureUsage {
    pub closed spec fn spec_bits(&self) -> u32 {
        self.bits
    }

    pub fn bits(&self) -> (r: u32)
        ensures
            r == self.spec_bits(),
    {
        self.bits
    }

    pub fn empty() -> (r: TextureUsage)
        ensures
            r.spec_bits() == 0,
    {
        TextureUsage { bits: 0 }
    }

    /// The texture can be the destination of a copy or write.
    pub fn destination() -> (r: TextureUsage)
        ensures
            r.spec_bits() == 1,
    {
        TextureUsage { bits: 1 }
    }

    /// The texture can be the source of a copy.
    pub fn source() -> (r: TextureUsage)
        ensures
            r.spec_bits() == 2,
    {
        TextureUsage { bits: 2 }
    }

    /// The texture can be bound to a shader as a sampled texture.
    pub fn texture_bind() -> (r: TextureUsage)
        ensures
            r.spec_bits() == 4,
    {
        TextureUsage { bits: 4 }
    }

    /// The texture can be bound to a shader as a storage texture.
    pub fn storage_bind() -> (r: TextureUsage)
        ensures
            r.spec_bits() == 8,
    {
        TextureUsage { bits: 8 }
    }

    /// The texture can be a render-pass attachment.
    pub fn render() -> (r: TextureUsage)
        ensures
            r.spec_bits() == 16,
    {
        TextureUsage { bits: 16 }
    }

    pub open spec fn spec_contains(&self, other: TextureUsage) -> bool {
        self.spec_bits() & other.spec_bits() == other.spec_bits()
    }

    pub fn contains(&self, other: TextureUsage) -> (r: bool)
        ensures
            r == self.spec_contains(other),
    {
        self.bits & other.bits == other.bits
    }

    pub fn union(self, other: TextureUsage) -> (r: TextureUsage)
        ensures
            r.spec_bits() == self.spec_bits() | other.spec_bits(),
    {
        TextureUsage { bits: self.bits | other.bits }
    }

    /// The same set of usages, written in the bits that wgpu's own
    /// texture-usage flags give them.
    pub open spec fn spec_wgpu_bits(&self) -> u32 {
        (if self.spec_bits() & 1u32 == 1u32 {
            2u32
        } else {
            0u32
        }) | (if self.spec_bits() & 2u32 == 2u32 {
            1u32
        } else {
            0u32
        }) | (if self.spec_bits() & 4u32 == 4u32 {
            4u32
        } else {
            0u32
        }) | (if self.spec_bits() & 8u32 == 8u32 {
            8u32
        } else {
            0u32
        }) | (if self.spec_bits() & 16u32 == 16u32 {
            16u32
        } else {
            0u32
        })
    }

    /// Translate these usages into wgpu's flags: `destination` allows copies
    /// into the texture, `source` copies out of it, `texture_bind` and
    /// `storage_bind` the two kinds of shader binding, and `render` use as a
    /// render-pass attachment.
    pub fn get_wgpu_usages(&self) -> (r: wgpu::TextureUsages)
        ensures
            r == wgpu_usages_of(self.spec_wgpu_bits()),
    {
        let bits: u32 = (if self.contains(TextureUsage::destination()) {
            2u32
        } else {
            0u32
        }) | (if self.contains(TextureUsage::source()) {
            1u32
        } else {
            0u32
        }) | (if self.contains(TextureUsage::texture_bind()) {
            4u32
        } else {
            0u32
        }) | (if self.contains(TextureUsage::storage_bind()) {
            8u32
        } else {
            0u32
        }) | (if self.contains(TextureUsage::render()) {
            16u32
        } else {
            0u32
        });
        usages_from_bits(bits)
    }
}

/// A texture extent: one texel deep and high for a one-dimensional texture,
/// one texel deep for a two-dimensional one.
#[derive(Clone, Copy, PartialEq, Eq, Structural, Debug)]
pub struct Extent3 {
    pub width: u32,
    pub height: u32,
    pub depth: u32,
}

/// The size of a texture, in one, two or three dimensions.
#[derive(Clone, Copy, PartialEq, Eq, Structural, Debug)]
pub enum TextureSize {
    D1(u32),
    D2(u32, u32),
    D3(u32, u32, u32),
}

impl TextureSize {
    /// The extent of the texture: missing dimensions count one texel.
    pub open spec fn spec_size(&self) -> Extent3 {
        match self {
            TextureSize::D1(x) => Extent3 { width: *x, height: 1, depth: 1 },
            TextureSize::D2(x, y) => Extent3 { width: *x, height: *y, depth: 1 },
            TextureSize::D3(x, y, z) => Extent3 { width: *x, height: *y, depth: *z },
        }
    }

    pub fn get_size(&self) -> (r: Extent3)
        ensures
            r == self.spec_size(),
    {
        match self {
            TextureSize::D1(x) => Extent3 { width: *x, height: 1, depth: 1 },
            TextureSize::D2(x, y) => Extent3 { width: *x, height: *y, depth: 1 },
            TextureSize::D3(x, y, z) => Extent3 { width: *x, height: *y, depth: *z },
        }
    }

    /// The wgpu texture dimension with the same number of axes.
    pub open spec fn spec_wgpu_dimension(&self) -> wgpu::TextureDimension {
        match self {
            TextureSize::D1(_) => wgpu::TextureDimension::D1,
            TextureSize::D2(_, _) => wgpu::TextureDimension::D2,
            TextureSize::D3(_, _, _) => wgpu::TextureDimension::D3,
        }
    }

    pub fn get_wgpu_dimension(&self) -> (r: wgpu::TextureDimension)
        ensures
            r == self.spec_wgpu_dimension(),
    {
        match self {
            TextureSize::D1(_) => wgpu::TextureDimension::D1,
            TextureSize::D2(_, _) => wgpu::TextureDimension::D2,
            TextureSize::D3(_, _, _) => wgpu::TextureDimension::D3,
        }
    }

    /// The wgpu texture-view dimension with the same number of axes.
    pub open spec fn spec_wgpu_view_dimension(&self) -> wgpu::TextureViewDimension {
        match self {
            TextureSize::D1(_) => wgpu::TextureViewDimension::D1,
            TextureSize::D2(_, _) => wgpu::TextureViewDimension::D2,
            TextureSize::D3(_, _, _) => wgpu::TextureViewDimension::D3,
        }
    }

    pub fn get_wgpu_view_dimension(&self) -> (r: wgpu::TextureViewDimension)
        ensures
            r == self.spec_wgpu_view_dimension(),
    {
        match self {
            TextureSize::D1(_) => wgpu::TextureViewDimension::D1,
            TextureSize::D2(_, _) => wgpu::TextureViewDimension::D2,
            TextureSize::D3(_, _, _) => wgpu::TextureViewDimension::D3,
        }
    }
}

/// Everything a texture is created from: its size, its usages and its format.
#[derive(Clone, Copy, PartialEq, Eq, Debug)]
pub struct TextureDesc {
    pub size: TextureSize,
    pub usage: TextureUsage,
    pub format: wgpu::TextureFormat,
}

/// How the bytes of one full write into a texture are laid out: tightly
/// packed rows of four-byte RGBA texels, starting at the first byte.
#[derive(Clone, Copy, PartialEq, Eq, Structural, Debug)]
pub struct DataLayout {
    pub offset: u64,
    pub bytes_per_row: u32,
    pub rows_per_image: u32,
}

impl TextureDesc {
    /// The description every image loaded from disk gets: a two-dimensional
    /// RGBA texture of the image's size that shaders can sample and pixel
    /// writes can fill.
    pub fn for_rgba_image(width: u32, height: u32) -> (d: TextureDesc)
        ensures
            d.size == TextureSize::D2(width, height),
            d.usage.spec_bits() == 5,
            d.format == wgpu::TextureFormat::Rgba8UnormSrgb,
    {
        proof {
            assert(4u32 | 1u32 == 5u32) by (bit_vector);
        }
        TextureDesc {
            size: TextureSize::D2(width, height),
            usage: TextureUsage::texture_bind().union(TextureUsage::destination()),
            format: wgpu::TextureFormat::Rgba8UnormSrgb,
        }
    }

    /// The description of the one-texel placeholder texture.
    pub fn placeholder() -> (d: TextureDesc)
        ensures
            d.size == TextureSize::D2(1, 1),
            d.usage.spec_bits() == 5,
            d.format == wgpu::TextureFormat::Rgba8UnormSrgb,
    {
        TextureDesc::for_rgba_image(1, 1)
    }

    pub fn get_wgpu_usage(&self) -> (r: wgpu::TextureUsages)
        ensures
            r == wgpu_usages_of(self.usage.spec_wgpu_bits()),
    {
        self.usage.get_wgpu_usages()
    }

    /// The layout of the bytes handed to a pixel write that covers the whole
    /// texture: no leading offset, rows of `width` four-byte texels, and
    /// `height` rows to an image.
    pub fn pixel_data_layout(&self) -> (r: DataLayout)
        requires
            self.size.spec_size().width * 4 <= u32::MAX,
        ensures
            r.offset == 0,
            r.bytes_per_row == self.size.spec_size().width * 4,
            r.rows_per_image == self.size.spec_size().height,
    {
        let size = self.size.get_size();
        DataLayout { offset: 0, bytes_per_row: size.width * 4, rows_per_image: size.height }
    }
}

} // verus!
