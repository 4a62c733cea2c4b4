//! Bringing a raw frame to the canonical layout: three bytes per pixel, red
//! first, no alpha.

use vstd::prelude::*;
use crate::format::FrameError;
use crate::format::TextureFormat;
use crate::frame::fits;
use crate::frame::Frame;
use crate::frame::FrameView;

verus! {

/// The canonical bytes of the first `pixels` pixels of `samples`, read in
/// layout `format`: byte `i` is channel `i % 3` of pixel `i / 3`, taken from
/// where that layout stores it. Alpha is left out, no value is changed.
pub open spec fn canonical_bytes(format: TextureFormat, pixels: nat, samples: Seq<u8>) -> Seq<u8> {
    Seq::new(
        pixels * 3,
        |i: int| samples[(i / 3) * format.spec_channel_count() + format.channel_offset(i % 3)],
    )
}

/// Red, green and blue of the pixel in column `x` of row `y`, for an image
/// `width` pixels wide whose bytes are `samples` in layout `format`.
pub open spec fn pixel_at(format: TextureFormat, samples: Seq<u8>, width: nat, x: int, y: int) -> (
    u8,
    u8,
    u8,
) {
    let base = (y * width + x) * format.spec_channel_count();
    (
        samples[base + format.channel_offset(0)],
        samples[base + format.channel_offset(1)],
        samples[base + format.channel_offset(2)],
    )
}

/// Whether the image crate takes a buffer of `len` bytes for an image of the
/// given size with `channels` bytes per pixel: the channel count times the
/// width, and that times the height, must each be countable in `usize`, and
/// the buffer must hold at least as much.
pub open spec fn image_takes(channels: nat, width: u32, height: u32, len: nat) -> bool {
    &&& channels * width <= usize::MAX
    &&& channels * width * height <= len
}

/// `image::ImageBuffer::from_raw` for RGB pixels, then
/// `image::DynamicImage::into_rgb8` and `ImageBuffer::into_vec`. The buffer is
/// taken as [`image_takes`] says. An image that is RGB already
/// comes back as it went in.
#[verifier::external_body]
fn rgb_into_rgb(width: u32, height: u32, samples: Vec<u8>) -> (out: Option<Vec<u8>>)
    ensures
        out is Some <==> image_takes(3, width, height, samples@.len()),
        out matches Some(bytes) ==> bytes@ == samples@,
{
    let picture = image::ImageBuffer::<image::Rgb<u8>, Vec<u8>>::from_raw(width, height, samples)?;
    Some(image::DynamicImage::ImageRgb8(picture).into_rgb8().into_vec())
}

/// `image::ImageBuffer::from_raw` for RGBA pixels, then
/// `image::DynamicImage::into_rgb8` and `ImageBuffer::into_vec`. The buffer is
/// taken as [`image_takes`] says. Each pixel of the result has
/// the first three channels of the pixel it came from.
#[verifier::external_body]
fn rgba_into_rgb(width: u32, height: u32, samples: Vec<u8>) -> (out: Option<Vec<u8>>)
    ensures
        out is Some <==> image_takes(4, width, height, samples@.len()),
        out matches Some(bytes) ==> bytes@ == canonical_bytes(
            TextureFormat::RGBAU8,
            (width * height) as nat,
            samples@,
        ),
{
    let picture = image::ImageBuffer::<image::Rgba<u8>, Vec<u8>>::from_raw(width, height, samples)?;
    Some(image::DynamicImage::ImageRgba8(picture).into_rgb8().into_vec())
}

/// `image::ImageBuffer::from_raw` for BGR pixels, then
/// `image::DynamicImage::into_rgb8` and `ImageBuffer::into_vec`. The buffer is
/// taken as [`image_takes`] says. Each pixel of the result has
/// the three channels of the pixel it came from in reverse order.
#[verifier::external_body]
fn bgr_into_rgb(width: u32, height: u32, samples: Vec<u8>) -> (out: Option<Vec<u8>>)
    ensures
        out is Some <==> image_takes(3, width, height, samples@.len()),
        out matches Some(bytes) ==> bytes@ == canonical_bytes(
            TextureFormat::BGRU8,
            (width * height) as nat,
            samples@,
        ),
{
    let picture = image::ImageBuffer::<image::Bgr<u8>, Vec<u8>>::from_raw(width, height, samples)?;
    Some(image::DynamicImage::ImageBgr8(picture).into_rgb8().into_vec())
}

/// `image::ImageBuffer::from_raw` for BGRA pixels, then
/// `image::DynamicImage::into_rgb8` and `ImageBuffer::into_vec`. The buffer is
/// taken as [`image_takes`] says. Each pixel of the result has
/// the first three channels of the pixel it came from in reverse order.
#[verifier::external_body]
fn bgra_into_rgb(width: u32, height: u32, samples: Vec<u8>) -> (out: Option<Vec<u8>>)
    ensures
        out is Some <==> image_takes(4, width, height, samples@.len()),
        out matches Some(bytes) ==> bytes@ == canonical_bytes(
            TextureFormat::BGRAU8,
            (width * height) as nat,
            samples@,
        ),
{
    let picture = image::ImageBuffer::<image::Bgra<u8>, Vec<u8>>::from_raw(width, height, samples)?;
    Some(image::DynamicImage::ImageBgra8(picture).into_rgb8().into_vec())
}

/// Bytes that are RGB already are their own canonical form.
pub proof fn lemma_rgb_is_canonical(pixels: nat, samples: Seq<u8>)
    requires
        samples.len() == pixels * 3,
    ensures
        canonical_bytes(TextureFormat::RGBU8, pixels, samples) == samples,
{
    assert(canonical_bytes(TextureFormat::RGBU8, pixels, samples) =~= samples);
}

/// Brings a raw frame of `width` by `height` pixels in layout `format` to the
/// canonical layout. The frame is refused as malformed unless `samples` holds
/// exactly the bytes of that many pixels.
pub fn normalize(format: TextureFormat, width: u32, height: u32, samples: Vec<u8>) -> (r: Result<
    Frame,
    FrameError,
>)
    ensures
        r is Ok <==> samples@.len() == width * height * format.spec_channel_count(),
        r matches Ok(frame) ==> frame@ == (FrameView {
            width: width as nat,
            height: height as nat,
            data: canonical_bytes(format, (width * height) as nat, samples@),
        }) && frame@.well_formed(),
        r matches Err(e) ==> e == FrameError::MalformedFrame,
{
    if !fits(width, height, format.channel_count(), samples.len()) {
        return Err(FrameError::MalformedFrame);
    }
    let converted = match format {
        TextureFormat::RGBU8 => {
            proof {
                lemma_rgb_is_canonical((width * height) as nat, samples@);
            }
            rgb_into_rgb(width, height, samples)
        },
        TextureFormat::RGBAU8 => rgba_into_rgb(width, height, samples),
        TextureFormat::BGRU8 => bgr_into_rgb(width, height, samples),
        TextureFormat::BGRAU8 => bgra_into_rgb(width, height, samples),
    };
    match converted {
        Some(bytes) => Frame::new(width, height, bytes),
        None => {
            // Only an image without rows, too wide for its row length to be
            // counted, is turned away with the right byte count: it is empty.
            proof {
                let channels = format.spec_channel_count();
                assert(channels * width * height == width * height * channels)
                    by (nonlinear_arith);
                assert(height == 0) by (nonlinear_arith)
                    requires
                        channels * width > samples@.len(),
                        samples@.len() == width * height * channels,
                        0 <= height,
                        0 <= width,
                        0 < channels,
                ;
                assert(canonical_bytes(format, (width * height) as nat, samples@)
                    =~= Seq::<u8>::empty());
            }
            Frame::new(width, height, Vec::new())
        },
    }
}

/// Normalizing changes no pixel: at every coordinate the canonical bytes hold
/// the red, green and blue that the raw bytes held there in their own layout.
pub proof fn lemma_normalize_keeps_pixels(
    format: TextureFormat,
    width: nat,
    height: nat,
    samples: Seq<u8>,
    x: int,
    y: int,
)
    requires
        samples.len() == width * height * format.spec_channel_count(),
        0 <= x < width,
        0 <= y < height,
    ensures
        canonical_bytes(format, width * height, samples).len() == width * height * 3,
        pixel_at(
            TextureFormat::RGBU8,
            canonical_bytes(format, width * height, samples),
            width,
            x,
            y,
        ) == pixel_at(format, samples, width, x, y),
{
    let p = y * width + x;
    assert(0 <= p < width * height) by (nonlinear_arith)
        requires
            p == y * width + x,
            0 <= x < width,
            0 <= y < height,
    ;
    assert(p * 3 + 2 < width * height * 3);
}

} // verus!
