use vstd::prelude::*;
use vstd::arithmetic::div_mod::{lemma_div_by_multiple, lemma_fundamental_div_mod};
use vstd::arithmetic::mul::lemma_mul_upper_bound;

verus! {

// Texture formats and the size of their texels.
//
// A texel's size need not be a whole number of bytes: block-compressed
// formats store a block of texels in a fixed number of bytes, so the size per
// texel is the block's bytes over the block's texel count. Sizes are
// therefore kept as a pair (bytes, texels): `bytes / texels` bytes per texel,
// exact, with no rounding until a whole buffer or row is measured.

/// The texel block layout of an ASTC-compressed format: the block's width
/// and height in texels. Every ASTC block takes 16 bytes.
#[derive(Clone, Copy, PartialEq, Eq, Structural, Debug)]
pub enum AstcBlock {
    B4x4,
    B5x4,
    B5x5,
    B6x5,
    B6x6,
    B8x5,
    B8x6,
    B8x8,
    B10x5,
    B10x6,
    B10x8,
    B10x10,
    B12x10,
    B12x12,
}

/// A texture format, as far as the buffer-size logic reads it. The variants
/// name the backing formats the renderer distinguishes; `Other` stands for
/// any remaining format and is given one byte per texel.
#[derive(Clone, Copy, PartialEq, Eq, Structural, Debug)]
pub enum TexelFormat {
    R8Unorm,
    R8Snorm,
    R8Uint,
    R8Sint,
    Stencil8,
    R16Uint,
    R16Sint,
    R16Float,
    R16Unorm,
    R16Snorm,
    Rg8Unorm,
    Rg8Snorm,
    Rg8Uint,
    Rg8Sint,
    Rgb9e5Ufloat,
    Depth16Unorm,
    R32Uint,
    R32Sint,
    R32Float,
    Rg16Uint,
    Rg16Sint,
    Rg16Float,
    Rg16Unorm,
    Rg16Snorm,
    Rgba8Unorm,
    Rgba8UnormSrgb,
    Rgba8Snorm,
    Rgba8Uint,
    Rgba8Sint,
    Bgra8Unorm,
    Bgra8UnormSrgb,
    Rgb10a2Unorm,
    Rg11b10Float,
    Depth32Float,
    Depth24Plus,
    Depth24PlusStencil8,
    Rg32Uint,
    Rg32Sint,
    Rg32Float,
    Rgba16Uint,
    Rgba16Sint,
    Rgba16Float,
    Rgba16Unorm,
    Rgba16Snorm,
    Depth32FloatStencil8,
    Rgba32Uint,
    Rgba32Sint,
    Rgba32Float,
    Bc1RgbaUnorm,
    Bc1RgbaUnormSrgb,
    Bc4RUnorm,
    Bc4RSnorm,
    Etc2Rgb8Unorm,
    Etc2Rgb8UnormSrgb,
    Etc2Rgb8A1Unorm,
    Etc2Rgb8A1UnormSrgb,
    EacR11Unorm,
    EacR11Snorm,
    Astc { block: AstcBlock },
    Other,
}

/// Bytes taken by one block of the format: the numerator of the bytes per
/// texel. For uncompressed formats a block is one texel.
pub open spec fn spec_texel_bytes(f: TexelFormat) -> int {
    match f {
        TexelFormat::R8Unorm => 1,
        TexelFormat::R8Snorm => 1,
        TexelFormat::R8Uint => 1,
        TexelFormat::R8Sint => 1,
        TexelFormat::Stencil8 => 1,
        TexelFormat::R16Uint => 2,
        TexelFormat::R16Sint => 2,
        TexelFormat::R16Float => 2,
        TexelFormat::R16Unorm => 2,
        TexelFormat::R16Snorm => 2,
        TexelFormat::Rg8Unorm => 2,
        TexelFormat::Rg8Snorm => 2,
        TexelFormat::Rg8Uint => 2,
        TexelFormat::Rg8Sint => 2,
        TexelFormat::Rgb9e5Ufloat => 2,
        TexelFormat::Depth16Unorm => 2,
        TexelFormat::R32Uint => 4,
        TexelFormat::R32Sint => 4,
        TexelFormat::R32Float => 4,
        TexelFormat::Rg16Uint => 4,
        TexelFormat::Rg16Sint => 4,
        TexelFormat::Rg16Float => 4,
        TexelFormat::Rg16Unorm => 4,
        TexelFormat::Rg16Snorm => 4,
        TexelFormat::Rgba8Unorm => 4,
        TexelFormat::Rgba8UnormSrgb => 4,
        TexelFormat::Rgba8Snorm => 4,
        TexelFormat::Rgba8Uint => 4,
        TexelFormat::Rgba8Sint => 4,
        TexelFormat::Bgra8Unorm => 4,
        TexelFormat::Bgra8UnormSrgb => 4,
        TexelFormat::Rgb10a2Unorm => 4,
        TexelFormat::Rg11b10Float => 4,
        TexelFormat::Depth32Float => 4,
        TexelFormat::Depth24Plus => 4,
        TexelFormat::Depth24PlusStencil8 => 4,
        TexelFormat::Rg32Uint => 8,
        TexelFormat::Rg32Sint => 8,
        TexelFormat::Rg32Float => 8,
        TexelFormat::Rgba16Uint => 8,
        TexelFormat::Rgba16Sint => 8,
        TexelFormat::Rgba16Float => 8,
        TexelFormat::Rgba16Unorm => 8,
        TexelFormat::Rgba16Snorm => 8,
        TexelFormat::Depth32FloatStencil8 => 8,
        TexelFormat::Rgba32Uint => 16,
        TexelFormat::Rgba32Sint => 16,
        TexelFormat::Rgba32Float => 16,
        TexelFormat::Bc1RgbaUnorm => 8,
        TexelFormat::Bc1RgbaUnormSrgb => 8,
        TexelFormat::Bc4RUnorm => 8,
        TexelFormat::Bc4RSnorm => 8,
        TexelFormat::Etc2Rgb8Unorm => 8,
        TexelFormat::Etc2Rgb8UnormSrgb => 8,
        TexelFormat::Etc2Rgb8A1Unorm => 8,
        TexelFormat::Etc2Rgb8A1UnormSrgb => 8,
        TexelFormat::EacR11Unorm => 8,
        TexelFormat::EacR11Snorm => 8,
        TexelFormat::Astc { block } => 16,
        TexelFormat::Other => 1,
    }
}

/// Texels covered by one block of the format: the denominator of the bytes
/// per texel. One for every uncompressed format, the block's area for the
/// compressed ones.
pub open spec fn spec_texel_divisor(f: TexelFormat) -> int {
    match f {
        TexelFormat::Bc1RgbaUnorm => 16,
        TexelFormat::Bc1RgbaUnormSrgb => 16,
        TexelFormat::Bc4RUnorm => 16,
        TexelFormat::Bc4RSnorm => 16,
        TexelFormat::Etc2Rgb8Unorm => 16,
        TexelFormat::Etc2Rgb8UnormSrgb => 16,
        TexelFormat::Etc2Rgb8A1Unorm => 16,
        TexelFormat::Etc2Rgb8A1UnormSrgb => 16,
        TexelFormat::EacR11Unorm => 16,
        TexelFormat::EacR11Snorm => 16,
        TexelFormat::Astc { block } => spec_astc_texels(block),
        _ => 1,
    }
}

/// Texels in one ASTC block: the block's width times its height.
pub open spec fn spec_astc_texels(b: AstcBlock) -> int {
    match b {
        AstcBlock::B4x4 => 16,
        AstcBlock::B5x4 => 20,
        AstcBlock::B5x5 => 25,
        AstcBlock::B6x5 => 30,
        AstcBlock::B6x6 => 36,
        AstcBlock::B8x5 => 40,
        AstcBlock::B8x6 => 48,
        AstcBlock::B8x8 => 64,
        AstcBlock::B10x5 => 50,
        AstcBlock::B10x6 => 60,
        AstcBlock::B10x8 => 80,
        AstcBlock::B10x10 => 100,
        AstcBlock::B12x10 => 120,
        AstcBlock::B12x12 => 144,
    }
}

/// Byte length of a pixel buffer of `w` by `h` texels: the texel count times
/// the bytes per texel, taken to the floor.
pub open spec fn spec_buffer_len(w: int, h: int, f: TexelFormat) -> int {
    (w * h * spec_texel_bytes(f)) / spec_texel_divisor(f)
}

/// Byte length of one row of `w` texels: the row's texel count times the
/// bytes per texel, taken to the floor. This is the stride handed to a
/// full-texture upload.
pub open spec fn spec_bytes_per_row(w: int, f: TexelFormat) -> int {
    (w * spec_texel_bytes(f)) / spec_texel_divisor(f)
}

/// The size of the format's texel as the exact pair (bytes, texels): one
/// texel takes `bytes / texels` bytes. Uncompressed formats map to their
/// whole byte widths over one; block-compressed formats map to the block's
/// bytes over the block's texel count.
pub fn texture_format_size(texture_format: TexelFormat) -> (r: (u32, u32))
    ensures
        r.0 == spec_texel_bytes(texture_format),
        r.1 == spec_texel_divisor(texture_format),
        1 <= r.0 <= 16,
        1 <= r.1 <= 144,
{
    let bytes: u32 = match texture_format {
        TexelFormat::R8Unorm => 1,
        TexelFormat::R8Snorm => 1,
        TexelFormat::R8Uint => 1,
        TexelFormat::R8Sint => 1,
        TexelFormat::Stencil8 => 1,
        TexelFormat::R16Uint => 2,
        TexelFormat::R16Sint => 2,
        TexelFormat::R16Float => 2,
        TexelFormat::R16Unorm => 2,
        TexelFormat::R16Snorm => 2,
        TexelFormat::Rg8Unorm => 2,
        TexelFormat::Rg8Snorm => 2,
        TexelFormat::Rg8Uint => 2,
        TexelFormat::Rg8Sint => 2,
        TexelFormat::Rgb9e5Ufloat => 2,
        TexelFormat::Depth16Unorm => 2,
        TexelFormat::R32Uint => 4,
        TexelFormat::R32Sint => 4,
        TexelFormat::R32Float => 4,
        TexelFormat::Rg16Uint => 4,
        TexelFormat::Rg16Sint => 4,
        TexelFormat::Rg16Float => 4,
        TexelFormat::Rg16Unorm => 4,
        TexelFormat::Rg16Snorm => 4,
        TexelFormat::Rgba8Unorm => 4,
        TexelFormat::Rgba8UnormSrgb => 4,
        TexelFormat::Rgba8Snorm => 4,
        TexelFormat::Rgba8Uint => 4,
        TexelFormat::Rgba8Sint => 4,
        TexelFormat::Bgra8Unorm => 4,
        TexelFormat::Bgra8UnormSrgb => 4,
        TexelFormat::Rgb10a2Unorm => 4,
        TexelFormat::Rg11b10Float => 4,
        TexelFormat::Depth32Float => 4,
        TexelFormat::Depth24Plus => 4,
        TexelFormat::Depth24PlusStencil8 => 4,
        TexelFormat::Rg32Uint => 8,
        TexelFormat::Rg32Sint => 8,
        TexelFormat::Rg32Float => 8,
        TexelFormat::Rgba16Uint => 8,
        TexelFormat::Rgba16Sint => 8,
        TexelFormat::Rgba16Float => 8,
        TexelFormat::Rgba16Unorm => 8,
        TexelFormat::Rgba16Snorm => 8,
        TexelFormat::Depth32FloatStencil8 => 8,
        TexelFormat::Rgba32Uint => 16,
        TexelFormat::Rgba32Sint => 16,
        TexelFormat::Rgba32Float => 16,
        TexelFormat::Bc1RgbaUnorm => 8,
        TexelFormat::Bc1RgbaUnormSrgb => 8,
        TexelFormat::Bc4RUnorm => 8,
        TexelFormat::Bc4RSnorm => 8,
        TexelFormat::Etc2Rgb8Unorm => 8,
        TexelFormat::Etc2Rgb8UnormSrgb => 8,
        TexelFormat::Etc2Rgb8A1Unorm => 8,
        TexelFormat::Etc2Rgb8A1UnormSrgb => 8,
        TexelFormat::EacR11Unorm => 8,
        TexelFormat::EacR11Snorm => 8,
        TexelFormat::Astc { block: _ } => 16,
        TexelFormat::Other => 1,
    };
    let texels: u32 = match texture_format {
        TexelFormat::Bc1RgbaUnorm => 16,
        TexelFormat::Bc1RgbaUnormSrgb => 16,
        TexelFormat::Bc4RUnorm => 16,
        TexelFormat::Bc4RSnorm => 16,
        TexelFormat::Etc2Rgb8Unorm => 16,
        TexelFormat::Etc2Rgb8UnormSrgb => 16,
        TexelFormat::Etc2Rgb8A1Unorm => 16,
        TexelFormat::Etc2Rgb8A1UnormSrgb => 16,
        TexelFormat::EacR11Unorm => 16,
        TexelFormat::EacR11Snorm => 16,
        TexelFormat::Astc { block } => match block {
            AstcBlock::B4x4 => 16,
            AstcBlock::B5x4 => 20,
            AstcBlock::B5x5 => 25,
            AstcBlock::B6x5 => 30,
            AstcBlock::B6x6 => 36,
            AstcBlock::B8x5 => 40,
            AstcBlock::B8x6 => 48,
            AstcBlock::B8x8 => 64,
            AstcBlock::B10x5 => 50,
            AstcBlock::B10x6 => 60,
            AstcBlock::B10x8 => 80,
            AstcBlock::B10x10 => 100,
            AstcBlock::B12x10 => 120,
            AstcBlock::B12x12 => 144,
        },
        _ => 1,
    };
    (bytes, texels)
}

/// Byte length of the pixel buffer backing a `width` by `height` texture.
/// The length must fit the machine's address space; a caller allocating the
/// buffer needs that anyway.
pub fn pixel_buffer_len(width: u32, height: u32, format: TexelFormat) -> (r: usize)
    requires
        spec_buffer_len(width as int, height as int, format) <= usize::MAX,
    ensures
        r == spec_buffer_len(width as int, height as int, format),
{
    let (bytes, texels) = texture_format_size(format);
    proof {
        lemma_mul_upper_bound(width as int, 0xffff_ffff, height as int, 0xffff_ffff);
        lemma_mul_upper_bound(
            (width as int) * (height as int),
            (0xffff_ffff as int) * (0xffff_ffff as int),
            bytes as int,
            16,
        );
    }
    let total: u128 = (width as u128) * (height as u128) * (bytes as u128) / (texels as u128);
    total as usize
}

/// Byte stride of one texel row, as handed to a full-texture upload.
pub fn bytes_per_row(width: u32, format: TexelFormat) -> (r: u64)
    ensures
        r == spec_bytes_per_row(width as int, format),
{
    let (bytes, texels) = texture_format_size(format);
    proof {
        lemma_mul_upper_bound(width as int, 0xffff_ffff, bytes as int, 16);
    }
    ((width as u64) * (bytes as u64)) / (texels as u64)
}

/// The stride computation and the buffer-length computation agree: whenever a
/// row is a whole number of bytes — always, for the uncompressed formats —
/// the buffer's length is exactly the row stride times the number of rows, so
/// an upload using `spec_bytes_per_row` walks exactly the buffer that
/// `spec_buffer_len` allocated, with no shear.
pub proof fn lemma_buffer_len_is_rows_times_stride(w: int, h: int, f: TexelFormat)
    requires
        w >= 0,
        h >= 0,
        (w * spec_texel_bytes(f)) % spec_texel_divisor(f) == 0,
    ensures
        spec_buffer_len(w, h, f) == spec_bytes_per_row(w, f) * h,
{
    let b = spec_texel_bytes(f);
    let d = spec_texel_divisor(f);
    let q = (w * b) / d;
    lemma_fundamental_div_mod(w * b, d);
    assert(w * b == d * q);
    assert(w * h * b == (d * q) * h) by (nonlinear_arith)
        requires
            w * b == d * q,
    ;
    assert((d * q) * h == (q * h) * d) by (nonlinear_arith);
    lemma_div_by_multiple(q * h, d);
    assert(((q * h) * d) / d == q * h);
}

} // verus!
