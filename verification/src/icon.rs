//! The tray icon as a PNG image, encoded from the pixels of the window
//! icon.

use vstd::prelude::*;

verus! {

/// Why the encoder refused.
#[verifier::external_type_specification]
#[verifier::external_body]
pub struct ExEncodingError(png::EncodingError);

/// The PNG file that `png::Encoder` writes for an image of `width` by
/// `height` pixels of four eight-bit samples each, red, green, blue and
/// alpha, with the encoder's default options.
pub uninterp spec fn png_rgba8(rgba: Seq<u8>, width: u32, height: u32) -> Seq<u8>;

/// Runs `png::Encoder` on a buffer in memory: `Encoder::new`, `set_color`
/// with `Rgba`, `set_depth` with `Eight`, `write_header`, and
/// `Writer::write_image_data`; the writer is dropped, which ends the file.
/// The contract claims that the encoder does not refuse and that the bytes
/// written are a function of the pixels and the dimensions. The encoder
/// refuses a width or height of zero and a pixel buffer of another size
/// than it computes, which are left out; its other errors are those of
/// the writer, and writing to a buffer in memory does not fail.
#[verifier::external_body]
fn encode_rgba8(rgba: &[u8], width: u32, height: u32) -> (encoded: Result<
    Vec<u8>,
    png::EncodingError,
>)
    requires
        width > 0,
        height > 0,
        rgba@.len() == width * height * 4,
    ensures
        (encoded is Ok),
        encoded->Ok_0@ == png_rgba8(rgba@, width, height),
{
    let mut out = Vec::new();
    {
        let mut encoder = png::Encoder::new(&mut out, width, height);
        encoder.set_color(png::ColorType::Rgba);
        encoder.set_depth(png::BitDepth::Eight);
        let mut writer = encoder.write_header()?;
        writer.write_image_data(rgba)?;
    }
    Ok(out)
}

/// Why an icon could not be encoded.
#[derive(Clone, Copy, Debug, PartialEq, Eq, Structural)]
pub enum IconError {
    /// The icon has no pixels: its width or its height is zero.
    Empty,
    /// The pixel buffer does not hold four bytes for each pixel.
    BufferSize,
    /// The encoder refused.
    Encoder,
}

/// The number of bytes that hold an image of four bytes a pixel.
pub open spec fn rgba_len(width: u32, height: u32) -> int {
    width * height * 4
}

/// The error that the dimensions and the buffer's length call for, if any.
pub open spec fn icon_fault(len: int, width: u32, height: u32) -> Option<IconError> {
    if width == 0 || height == 0 {
        Some(IconError::Empty)
    } else if len != rgba_len(width, height) {
        Some(IconError::BufferSize)
    } else {
        None
    }
}

/// Encodes the pixels of the icon as a PNG file. An icon without pixels
/// and a buffer of the wrong size are refused; every other icon is
/// encoded.
pub fn get_tray_icon(rgba: &[u8], width: u32, height: u32) -> (icon: Result<Vec<u8>, IconError>)
    ensures
        match icon_fault(rgba@.len() as int, width, height) {
            Some(fault) => icon == Err::<Vec<u8>, IconError>(fault),
            None => (icon is Ok) && icon->Ok_0@ == png_rgba8(rgba@, width, height),
        },
{
    if width == 0 || height == 0 {
        return Err(IconError::Empty);
    }
    assert(width * height <= 0xffff_ffff * 0xffff_ffff) by (nonlinear_arith)
        requires
            0 <= width <= 0xffff_ffff,
            0 <= height <= 0xffff_ffff,
    ;
    let expected: u128 = (width as u128) * (height as u128) * 4;
    if rgba.len() as u128 != expected {
        return Err(IconError::BufferSize);
    }
    icon_result(encode_rgba8(rgba, width, height))
}

/// What the encoder's answer means for the icon: its file, or the report
/// that it refused.
pub fn icon_result(encoded: Result<Vec<u8>, png::EncodingError>) -> (icon: Result<
    Vec<u8>,
    IconError,
>)
    ensures
        match encoded {
            Ok(bytes) => icon == Ok::<Vec<u8>, IconError>(bytes),
            Err(_) => icon == Err::<Vec<u8>, IconError>(IconError::Encoder),
        },
{
    match encoded {
        Ok(bytes) => Ok(bytes),
        Err(_) => Err(IconError::Encoder),
    }
}

} // verus!
