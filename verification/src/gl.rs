use vstd::prelude::*;
use crate::gfx::TextureFormat;

verus! {

/// GL constants, as the GLES2 headers fix them.
pub const BGRA_EXT: u32 = 0x80E1;

pub const RGBA: u32 = 0x1908;

pub const LUMINANCE: u32 = 0x1909;

pub const UNSIGNED_BYTE: u32 = 0x1401;

pub const TEXTURE_2D: u32 = 0x0DE1;

pub const TEXTURE_MIN_FILTER: u32 = 0x2801;

pub const TEXTURE_MAG_FILTER: u32 = 0x2800;

pub const NEAREST: u32 = 0x2600;

pub const UNPACK_ALIGNMENT: u32 = 0x0CF5;

/// How one texture format uploads: the GL internal format, client format and
/// type, and the texel block size in bytes. The block size also drives the
/// unpack alignment, which avoids row-tilting artifacts on upload.
#[derive(Debug, Clone, Copy, PartialEq, Eq, Structural)]
pub struct TextureFormatDescriptor {
    pub internal_format: i32,
    pub format: u32,
    pub ty: u32,
    pub block_size: i32,
}

/// The upload descriptor of each supported texture format.
pub fn describe_texture_format(format: TextureFormat) -> (r: TextureFormatDescriptor)
    ensures
        format is Bgra8Unorm ==> r == (TextureFormatDescriptor {
            internal_format: BGRA_EXT as i32,
            format: BGRA_EXT,
            ty: UNSIGNED_BYTE,
            block_size: 4i32,
        }),
        format is Rgba8Unorm ==> r == (TextureFormatDescriptor {
            internal_format: RGBA as i32,
            format: RGBA,
            ty: UNSIGNED_BYTE,
            block_size: 4i32,
        }),
        format is R8Unorm ==> r == (TextureFormatDescriptor {
            internal_format: LUMINANCE as i32,
            format: LUMINANCE,
            ty: UNSIGNED_BYTE,
            block_size: 1i32,
        }),
{
    match format {
        TextureFormat::Bgra8Unorm => TextureFormatDescriptor {
            internal_format: BGRA_EXT as i32,
            format: BGRA_EXT,
            ty: UNSIGNED_BYTE,
            block_size: 4,
        },
        TextureFormat::Rgba8Unorm => TextureFormatDescriptor {
            internal_format: RGBA as i32,
            format: RGBA,
            ty: UNSIGNED_BYTE,
            block_size: 4,
        },
        TextureFormat::R8Unorm => TextureFormatDescriptor {
            internal_format: LUMINANCE as i32,
            format: LUMINANCE,
            ty: UNSIGNED_BYTE,
            block_size: 1,
        },
    }
}

/// Everything a two-dimensional texture allocation sets, in order: bind to
/// `TEXTURE_2D`, nearest/nearest filtering, unpack alignment equal to the
/// format's block size, then the upload with the format descriptor's
/// parameters and exactly the given width and height.
#[derive(Debug, Clone, Copy, PartialEq, Eq, Structural)]
pub struct TextureSetupPlan {
    pub target: u32,
    pub min_filter: u32,
    pub mag_filter: u32,
    pub unpack_alignment: i32,
    pub descriptor: TextureFormatDescriptor,
    pub width: u32,
    pub height: u32,
}

/// Plans a texture allocation of exactly the given size and format.
pub fn plan_texture_setup(width: u32, height: u32, format: TextureFormat) -> (r: TextureSetupPlan)
    ensures
        r.target == TEXTURE_2D,
        r.min_filter == NEAREST,
        r.mag_filter == NEAREST,
        format is Bgra8Unorm || format is Rgba8Unorm ==> r.unpack_alignment == 4,
        format is R8Unorm ==> r.unpack_alignment == 1,
        format is Bgra8Unorm ==> r.descriptor.format == BGRA_EXT,
        format is Rgba8Unorm ==> r.descriptor.format == RGBA,
        format is R8Unorm ==> r.descriptor.format == LUMINANCE,
        r.descriptor.ty == UNSIGNED_BYTE,
        r.width == width,
        r.height == height,
{
    let descriptor = describe_texture_format(format);
    TextureSetupPlan {
        target: TEXTURE_2D,
        min_filter: NEAREST,
        mag_filter: NEAREST,
        unpack_alignment: descriptor.block_size,
        descriptor,
        width,
        height,
    }
}

/// Mirrors a read rectangle vertically within a view: screen coordinates run
/// top-down while the framebuffer a readback addresses runs bottom-up.
pub fn flip_read_rect(rect: crate::gfx::Recti, view_height: i64) -> (r: crate::gfx::Recti)
    requires
        -0x4000_0000_0000 <= rect.min.y <= 0x4000_0000_0000,
        -0x4000_0000_0000 <= rect.max.y <= 0x4000_0000_0000,
        0 <= view_height <= 0x4000_0000_0000,
    ensures
        r.min.x == rect.min.x,
        r.min.y == view_height - rect.max.y,
        r.max.x == rect.max.x,
        r.max.y == view_height - rect.min.y,
{
    crate::gfx::Recti {
        min: crate::gfx::Vec2i { x: rect.min.x, y: view_height - rect.max.y },
        max: crate::gfx::Vec2i { x: rect.max.x, y: view_height - rect.min.y },
    }
}

/// Where a byte of a vertically flipped pixel buffer comes from: the same
/// column of the mirror-image row.
pub open spec fn flipped_index(i: int, len: int, stride: int) -> int
    recommends
        stride > 0,
{
    let row = i / stride;
    let col = i % stride;
    let rows = len / stride;
    (rows - 1 - row) * stride + col
}

/// Flips a tightly packed pixel buffer upside down: row `i` of the result is
/// row `rows - 1 - i` of the input. A framebuffer readback arrives bottom-up
/// while screen coordinates run top-down.
pub fn flip_rows(pixels: &Vec<u8>, stride: usize) -> (r: Vec<u8>)
    requires
        stride > 0,
        (pixels@.len() as int) % (stride as int) == 0,
    ensures
        r@.len() == pixels@.len(),
        forall|i: int|
            0 <= i < r@.len() ==> #[trigger] r@[i] == pixels@[flipped_index(
                i,
                pixels@.len() as int,
                stride as int,
            )],
{
    let total = pixels.len();
    let rows = total / stride;
    proof {
        vstd::arithmetic::div_mod::lemma_fundamental_div_mod(total as int, stride as int);
    }
    let mut out: Vec<u8> = Vec::new();
    let mut out_row: usize = 0;
    while out_row < rows
        invariant
            stride > 0,
            total == pixels@.len(),
            rows == total as int / stride as int,
            total as int % stride as int == 0,
            (rows as int) * (stride as int) == total,
            out_row <= rows,
            out@.len() == (out_row as int) * (stride as int),
            forall|i: int|
                0 <= i < out@.len() ==> #[trigger] out@[i] == pixels@[flipped_index(
                    i,
                    total as int,
                    stride as int,
                )],
        decreases rows - out_row,
    {
        let src_row = rows - 1 - out_row;
        proof {
            assert((src_row as int) * (stride as int) + (stride as int) <= total
                && (out_row as int) * (stride as int) + (stride as int) <= total)
                by (nonlinear_arith)
                requires
                    src_row as int == rows as int - 1 - out_row as int,
                    out_row < rows,
                    (rows as int) * (stride as int) == total,
                    stride > 0,
            ;
        }
        let mut col: usize = 0;
        while col < stride
            invariant
                stride > 0,
                total == pixels@.len(),
                rows == total as int / stride as int,
                (rows as int) * (stride as int) == total,
                out_row < rows,
                src_row as int == rows as int - 1 - out_row as int,
                (src_row as int) * (stride as int) + (stride as int) <= total,
                (out_row as int) * (stride as int) + (stride as int) <= total,
                col <= stride,
                out@.len() == (out_row as int) * (stride as int) + col,
                forall|i: int|
                    0 <= i < out@.len() ==> #[trigger] out@[i] == pixels@[flipped_index(
                        i,
                        total as int,
                        stride as int,
                    )],
            decreases stride - col,
        {
            let src_index = src_row * stride + col;
            out.push(pixels[src_index]);
            proof {
                let i = (out_row as int) * (stride as int) + col;
                vstd::arithmetic::div_mod::lemma_fundamental_div_mod_converse(
                    i,
                    stride as int,
                    out_row as int,
                    col as int,
                );
                assert(flipped_index(i, total as int, stride as int) == src_index);
            }
            col += 1;
        }
        proof {
            assert((out_row as int + 1) * (stride as int) == (out_row as int) * (stride as int) + (
            stride as int)) by (nonlinear_arith);
        }
        out_row += 1;
    }
    proof {
        assert((rows as int) * (stride as int) == total);
    }
    out
}

} // verus!
