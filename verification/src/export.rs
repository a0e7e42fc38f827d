use vstd::prelude::*;
use crate::gfx::Size;

verus! {

/// The PNG encoding of an RGBA8 image of the given dimensions: a fixed
/// function of the pixel bytes, width, and height alone.
pub uninterp spec fn png_rgba8_encoding(pixels: Seq<u8>, width: u32, height: u32) -> Seq<u8>;

/// Relies on png::Encoder and png::Writer (crate png): configured for 8-bit
/// RGBA with fast compression and writing into a plain byte vector, the
/// encoder performs no I/O and its output depends on the pixels and
/// dimensions alone. It reports an error rather than panic on dimension or
/// length mismatches.
#[verifier::external_body]
fn encode_png_rgba8(pixels: &Vec<u8>, width: u32, height: u32) -> (r: Result<Vec<u8>, ()>)
    ensures
        r matches Ok(v) ==> v@ == png_rgba8_encoding(pixels@, width, height),
{
    let mut data: Vec<u8> = Vec::new();
    let mut encoder = png::Encoder::new(&mut data, width, height);
    encoder.set_color(png::ColorType::Rgba);
    encoder.set_depth(png::BitDepth::Eight);
    encoder.set_compression(png::Compression::Fast);
    let written = encoder.write_header().and_then(|mut writer| writer.write_image_data(pixels));
    match written {
        Ok(()) => Ok(data),
        Err(_) => Err(()),
    }
}

/// Encodes a readback as a PNG ready to be offered to a collaborator. The
/// pixels must be tightly packed RGBA8 rows of exactly the given size; an
/// empty dimension or a length mismatch yields nothing, as does a refusal by
/// the encoder.
pub fn export_capture_png(pixels: &Vec<u8>, size: Size) -> (r: Option<Vec<u8>>)
    ensures
        size.width == 0 || size.height == 0 || pixels@.len() != 4 * size.width * size.height
            ==> r is None,
        r matches Some(v) ==> v@ == png_rgba8_encoding(pixels@, size.width, size.height)
            && size.width > 0 && size.height > 0 && pixels@.len() == 4 * size.width * size.height,
{
    if size.width == 0 || size.height == 0 {
        return None;
    }
    proof {
        assert((size.width as int) * (size.height as int) <= 0xFFFF_FFFF_FFFF_FFFF)
            by (nonlinear_arith)
            requires
                size.width <= 0xFFFF_FFFF,
                size.height <= 0xFFFF_FFFF,
        ;
    }
    let expected: u64 = (size.width as u64) * (size.height as u64);
    proof {
        assert(4 * (size.width as int) * (size.height as int) == ((size.width as int) * (
        size.height as int)) * 4) by (nonlinear_arith);
    }
    let actual_len: usize = pixels.len();
    if expected > u64::MAX / 4 {
        proof {
            assert(actual_len < 4 * size.width * size.height);
        }
        return None;
    }
    if (actual_len as u64) != expected * 4 {
        return None;
    }
    match encode_png_rgba8(pixels, size.width, size.height) {
        Ok(data) => Some(data),
        Err(_) => None,
    }
}

} // verus!
