//! Frames as the encoder takes them: pixels of the `rgb` crate in an image
//! of the `imgref` crate.

use crate::frame::{image_bytes, image_size, RgbaImage};
use vstd::prelude::*;

verus! {

/// The image of the `imgref` crate, held as a value without a look inside.
#[verifier::external_type_specification]
#[verifier::external_body]
#[verifier::reject_recursive_types(Container)]
pub struct ExImg<Container>(imgref::Img<Container>);

/// The pixel of the `rgb` crate with red, green, blue and alpha.
#[verifier::external_type_specification]
#[verifier::external_body]
#[verifier::reject_recursive_types(T)]
#[verifier::reject_recursive_types(A)]
pub struct ExRgba<T, A>(rgb::Rgba<T, A>);

/// The four channels that a pixel holds: red, green, blue, alpha.
pub uninterp spec fn pixel_channels(p: rgb::Rgba<u8, u8>) -> (u8, u8, u8, u8);

/// The pixels that an image holds, row after row.
pub uninterp spec fn img_pixels(img: imgref::Img<Vec<rgb::Rgba<u8, u8>>>) -> Seq<rgb::Rgba<u8, u8>>;

/// The width and height that an image was made with.
pub uninterp spec fn img_size(img: imgref::Img<Vec<rgb::Rgba<u8, u8>>>) -> (usize, usize);

/// `rgb::RGBA8::new`: the pixel with the given four channels.
#[verifier::external_body]
fn rgba8(r: u8, g: u8, b: u8, a: u8) -> (p: rgb::Rgba<u8, u8>)
    ensures
        pixel_channels(p) == (r, g, b, a),
{
    rgb::RGBA8::new(r, g, b, a)
}

/// `imgref::ImgVec::new`: the image of the given pixels, with rows of `width`
/// pixels. The crate refuses a width of zero and sizes that are no `u32`.
#[verifier::external_body]
fn imgvec_new(pixels: Vec<rgb::Rgba<u8, u8>>, width: usize, height: usize) -> (img: imgref::Img<
    Vec<rgb::Rgba<u8, u8>>,
>)
    requires
        1 <= width <= u32::MAX,
        height <= u32::MAX,
    ensures
        img_pixels(img) == pixels@,
        img_size(img) == (width, height),
{
    imgref::ImgVec::new(pixels, width, height)
}

/// The channels of the pixels of a run of bytes, four bytes to a pixel; bytes
/// past the last whole pixel are left out.
pub open spec fn grouped(bytes: Seq<u8>) -> Seq<(u8, u8, u8, u8)> {
    Seq::new(
        (bytes.len() / 4) as nat,
        |i: int| (bytes[4 * i], bytes[4 * i + 1], bytes[4 * i + 2], bytes[4 * i + 3]),
    )
}

/// The channels of each pixel of a list.
pub open spec fn channels(pixels: Seq<rgb::Rgba<u8, u8>>) -> Seq<(u8, u8, u8, u8)> {
    Seq::new(pixels.len(), |i: int| pixel_channels(pixels[i]))
}

/// The pixels of a run of bytes, four bytes to a pixel.
pub fn group_pixels(bytes: &Vec<u8>) -> (pixels: Vec<rgb::Rgba<u8, u8>>)
    ensures
        channels(pixels@) == grouped(bytes@),
{
    let len: usize = bytes.len();
    let count: usize = len / 4;
    let mut pixels: Vec<rgb::Rgba<u8, u8>> = Vec::new();
    let mut i: usize = 0;
    while i < count
        invariant
            i <= count,
            len == bytes@.len(),
            count == len / 4,
            pixels@.len() == i,
            forall|k: int|
                0 <= k < i ==> pixel_channels(#[trigger] pixels@[k]) == (
                    bytes@[4 * k],
                    bytes@[4 * k + 1],
                    bytes@[4 * k + 2],
                    bytes@[4 * k + 3],
                ),
        decreases count - i,
    {
        let p = rgba8(bytes[4 * i], bytes[4 * i + 1], bytes[4 * i + 2], bytes[4 * i + 3]);
        pixels.push(p);
        i = i + 1;
    }
    assert(channels(pixels@) =~= grouped(bytes@));
    pixels
}

/// An image as the encoder takes it: the same size, and for each four bytes
/// of the image one pixel with those channels, in the same order.
pub fn rgba_image_to_imgvec(img: RgbaImage) -> (out: imgref::Img<Vec<rgb::Rgba<u8, u8>>>)
    requires
        image_size(img).0 >= 1,
    ensures
        img_size(out) == (image_size(img).0 as usize, image_size(img).1 as usize),
        channels(img_pixels(out)) == grouped(image_bytes(img)),
{
    let (width, height) = img.dimensions();
    let raw = img.into_raw();
    let pixels = group_pixels(&raw);
    imgvec_new(pixels, width as usize, height as usize)
}

/// The same for any image: none for an image without columns, which the
/// encoder's image type cannot hold.
pub fn try_rgba_image_to_imgvec(img: RgbaImage) -> (out: Option<imgref::Img<Vec<rgb::Rgba<u8, u8>>>>)
    ensures
        out.is_some() == (image_size(img).0 >= 1),
        out.is_some() ==> img_size(out.unwrap()) == (
            image_size(img).0 as usize,
            image_size(img).1 as usize,
        ) && channels(img_pixels(out.unwrap())) == grouped(image_bytes(img)),
{
    let (width, _) = img.dimensions();
    if width >= 1 {
        Some(rgba_image_to_imgvec(img))
    } else {
        None
    }
}

} // verus!
