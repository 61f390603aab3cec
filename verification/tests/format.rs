use chroma::format::{
    bytes_per_row, pixel_buffer_len, texture_format_size, AstcBlock, TexelFormat,
};

#[test]
fn whole_byte_formats() {
    assert_eq!(texture_format_size(TexelFormat::R8Unorm), (1, 1));
    assert_eq!(texture_format_size(TexelFormat::Stencil8), (1, 1));
    assert_eq!(texture_format_size(TexelFormat::Rg8Snorm), (2, 1));
    assert_eq!(texture_format_size(TexelFormat::Depth16Unorm), (2, 1));
    assert_eq!(texture_format_size(TexelFormat::Rgba8UnormSrgb), (4, 1));
    assert_eq!(texture_format_size(TexelFormat::Bgra8Unorm), (4, 1));
    assert_eq!(texture_format_size(TexelFormat::Depth24PlusStencil8), (4, 1));
    assert_eq!(texture_format_size(TexelFormat::Rgba16Float), (8, 1));
    assert_eq!(texture_format_size(TexelFormat::Depth32FloatStencil8), (8, 1));
    assert_eq!(texture_format_size(TexelFormat::Rgba32Float), (16, 1));
    assert_eq!(texture_format_size(TexelFormat::Other), (1, 1));
}

#[test]
fn block_compressed_formats() {
    // 4-by-4 blocks of 8 bytes: half a byte per texel
    assert_eq!(texture_format_size(TexelFormat::Bc1RgbaUnorm), (8, 16));
    assert_eq!(texture_format_size(TexelFormat::EacR11Snorm), (8, 16));
    // ASTC blocks take 16 bytes over the block's area
    assert_eq!(
        texture_format_size(TexelFormat::Astc { block: AstcBlock::B4x4 }),
        (16, 16)
    );
    assert_eq!(
        texture_format_size(TexelFormat::Astc { block: AstcBlock::B5x4 }),
        (16, 20)
    );
    assert_eq!(
        texture_format_size(TexelFormat::Astc { block: AstcBlock::B12x12 }),
        (16, 144)
    );
}

#[test]
fn buffer_length_common_format() {
    // four bytes per texel
    assert_eq!(pixel_buffer_len(320, 240, TexelFormat::Rgba8UnormSrgb), 307200);
    assert_eq!(pixel_buffer_len(1, 1, TexelFormat::Rgba8UnormSrgb), 4);
    assert_eq!(pixel_buffer_len(128, 112, TexelFormat::Rgba8UnormSrgb), 57344);
}

#[test]
fn buffer_length_fractional_format() {
    // half a byte per texel, floored over the whole buffer
    assert_eq!(pixel_buffer_len(10, 10, TexelFormat::Bc1RgbaUnorm), 50);
    assert_eq!(pixel_buffer_len(3, 3, TexelFormat::Bc1RgbaUnorm), 4);
    // 16 bytes per 20 texels
    assert_eq!(
        pixel_buffer_len(10, 10, TexelFormat::Astc { block: AstcBlock::B5x4 }),
        80
    );
}

#[test]
fn row_stride_matches_buffer() {
    // for whole-byte formats the buffer is exactly rows times stride
    let w: u32 = 320;
    let h: u32 = 240;
    let stride = bytes_per_row(w, TexelFormat::Rgba8UnormSrgb);
    assert_eq!(stride, 1280);
    assert_eq!(
        stride * (h as u64),
        pixel_buffer_len(w, h, TexelFormat::Rgba8UnormSrgb) as u64
    );
    let stride16 = bytes_per_row(w, TexelFormat::Rgba32Float);
    assert_eq!(stride16, 320 * 16);
    assert_eq!(
        stride16 * (h as u64),
        pixel_buffer_len(w, h, TexelFormat::Rgba32Float) as u64
    );
}
