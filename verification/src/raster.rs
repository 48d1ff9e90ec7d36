//! From the vector image of a chart to the bitmap that is stored.
//!
//! The conversion is the work of `charts_rs`. What comes back is accepted only
//! if its header is that of a PNG image of the expected size.

use vstd::prelude::*;
use crate::chart::{HEIGHT, WIDTH};
use crate::error::PlotError;

verus! {

/// The error type of `charts_rs`.
#[verifier::external_type_specification]
#[verifier::external_body]
pub struct ExChartsError(charts_rs::Error);

/// `charts_rs::svg_to_png` parses the vector image and encodes its rendering.
/// The rendering depends on the fonts that the machine offers, so nothing is
/// claimed of the bytes.
#[verifier::external_body]
fn svg_to_png(svg: &str) -> (r: Result<Vec<u8>, charts_rs::Error>) {
    charts_rs::svg_to_png(svg)
}

/// The eight bytes that open every PNG stream.
pub open spec fn png_signature() -> Seq<u8> {
    seq![137u8, 80u8, 78u8, 71u8, 13u8, 10u8, 26u8, 10u8]
}

/// The four bytes that name the header chunk.
pub open spec fn header_tag() -> Seq<u8> {
    seq![73u8, 72u8, 68u8, 82u8]
}

/// The big-endian number in the four bytes of `bytes` that start at `at`.
pub open spec fn big_endian_at(bytes: Seq<u8>, at: int) -> int {
    bytes[at] as int * 16777216 + bytes[at + 1] as int * 65536 + bytes[at + 2] as int * 256
        + bytes[at + 3] as int
}

/// The width and height that the header of a PNG stream declares, or `None`
/// where `bytes` do not begin as a PNG stream does: with the signature and a
/// header chunk of thirteen bytes.
pub open spec fn png_size(bytes: Seq<u8>) -> Option<(int, int)> {
    if bytes.len() >= 24 && bytes.subrange(0, 8) == png_signature() && big_endian_at(bytes, 8)
        == 13 && bytes.subrange(12, 16) == header_tag() {
        Some((big_endian_at(bytes, 16), big_endian_at(bytes, 20)))
    } else {
        None
    }
}

/// `bytes` begin as a PNG image of the size of a chart does.
pub open spec fn is_chart_image(bytes: Seq<u8>) -> bool {
    png_size(bytes) == Some((WIDTH as int, HEIGHT as int))
}

/// Reads the big-endian number in the four bytes that start at `at`.
fn read_big_endian(bytes: &Vec<u8>, at: usize) -> (n: u32)
    requires
        at + 4 <= bytes.len(),
    ensures
        n as int == big_endian_at(bytes@, at as int),
{
    let b0: u32 = bytes[at] as u32;
    let b1: u32 = bytes[at + 1] as u32;
    let b2: u32 = bytes[at + 2] as u32;
    let b3: u32 = bytes[at + 3] as u32;
    b0 * 16777216 + b1 * 65536 + b2 * 256 + b3
}

/// The width and height that the header of a PNG stream declares.
pub fn png_dimensions(bytes: &Vec<u8>) -> (size: Option<(u32, u32)>)
    ensures
        match size {
            Some((width, height)) => png_size(bytes@) == Some((width as int, height as int)),
            None => png_size(bytes@) is None,
        },
{
    if bytes.len() < 24 {
        return None;
    }
    let signed = bytes[0] == 137 && bytes[1] == 80 && bytes[2] == 78 && bytes[3] == 71 && bytes[4]
        == 13 && bytes[5] == 10 && bytes[6] == 26 && bytes[7] == 10;
    let tagged = bytes[12] == 73 && bytes[13] == 72 && bytes[14] == 68 && bytes[15] == 82;
    proof {
        let head = bytes@.subrange(0, 8);
        let tag = bytes@.subrange(12, 16);
        if signed {
            assert(head =~= png_signature());
        } else {
            assert(head[0] == bytes[0] && head[1] == bytes[1] && head[2] == bytes[2] && head[3]
                == bytes[3] && head[4] == bytes[4] && head[5] == bytes[5] && head[6] == bytes[6]
                && head[7] == bytes[7]);
        }
        if tagged {
            assert(tag =~= header_tag());
        } else {
            assert(tag[0] == bytes[12] && tag[1] == bytes[13] && tag[2] == bytes[14] && tag[3]
                == bytes[15]);
        }
    }
    if !signed || !tagged || read_big_endian(bytes, 8) != 13 {
        return None;
    }
    Some((read_big_endian(bytes, 16), read_big_endian(bytes, 20)))
}

/// Lets an image pass if it begins as a PNG image of the size of a chart, and
/// fails with [`PlotError::Rasterization`] if it does not.
pub fn accept_image(image: Vec<u8>) -> (r: Result<Vec<u8>, PlotError>)
    ensures
        is_chart_image(image@) ==> r == Ok::<Vec<u8>, PlotError>(image),
        !is_chart_image(image@) ==> r == Err::<Vec<u8>, PlotError>(PlotError::Rasterization),
{
    match png_dimensions(&image) {
        Some((width, height)) => {
            if width == WIDTH && height == HEIGHT {
                Ok(image)
            } else {
                Err(PlotError::Rasterization)
            }
        },
        None => Err(PlotError::Rasterization),
    }
}

/// Turns the vector image `svg` into the bytes of a PNG image.
///
/// Whether the conversion succeeds is for `charts_rs` to say. Whatever it
/// returns, an image comes out of here only if it begins as a PNG image of the
/// size of a chart does; every failure is [`PlotError::Rasterization`].
pub fn rasterize(svg: &str) -> (r: Result<Vec<u8>, PlotError>)
    ensures
        r matches Ok(image) ==> is_chart_image(image@),
        r matches Err(e) ==> e == PlotError::Rasterization,
{
    match svg_to_png(svg) {
        Ok(image) => accept_image(image),
        Err(_) => Err(PlotError::Rasterization),
    }
}

} // verus!
