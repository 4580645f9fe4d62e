//! Preparation of the request that carries a capture to the analysis proxy:
//! the capture becomes RGBA, then a PNG, then Base64 text beside the prompt.

use vstd::prelude::*;
use base64::Engine;
use image::{ImageBuffer, ImageError, ImageFormat, Rgba};
use crate::overlay::{capture_complete, CaptureView, CapturedImage, EncodeFailure};
use crate::pixels::{bgra_to_rgba, red_blue_swapped};

verus! {

/// An RGBA picture of the `image` crate (`ImageBuffer<Rgba<u8>, Vec<u8>>`),
/// held opaquely. Its samples are named by `rgba_samples` and its width and
/// height by `rgba_dimensions`.
#[verifier::external_body]
pub struct RgbaImage {
    buffer: ImageBuffer<Rgba<u8>, Vec<u8>>,
}

#[verifier::external_type_specification]
#[verifier::external_body]
pub struct ExImageError(ImageError);

/// The bytes an RGBA image buffer holds, four per pixel, row by row.
pub uninterp spec fn rgba_samples(image: RgbaImage) -> Seq<u8>;

/// The width and height an RGBA image buffer was made with.
pub uninterp spec fn rgba_dimensions(image: RgbaImage) -> (u32, u32);

/// The PNG file that the `image` crate writes for a `width` by `height`
/// RGBA picture with the given samples, or `None` where it reports an error.
pub uninterp spec fn png_encoding(width: u32, height: u32, rgba: Seq<u8>) -> Option<Seq<u8>>;

/// The standard Base64 text (RFC 4648 alphabet, with padding) of `bytes`.
pub uninterp spec fn base64_standard(bytes: Seq<u8>) -> Seq<char>;

/// Number of samples of a `width` by `height` RGBA picture.
pub open spec fn rgba_len(width: u32, height: u32) -> int {
    4 * width * height
}

/// Whether `ImageBuffer::from_raw` accepts `len` samples for a `width` by
/// `height` RGBA picture: the sample count must be computable in `usize`
/// (first `4 * width`, then times `height`) and no larger than `len`.
pub open spec fn rgba_fits(width: u32, height: u32, len: int) -> bool {
    &&& 4 * width <= usize::MAX
    &&& rgba_len(width, height) <= usize::MAX
    &&& rgba_len(width, height) <= len
}

/// Length of the padded standard Base64 text of `n` bytes.
pub open spec fn base64_len(n: int) -> int {
    4 * ((n + 2) / 3)
}

/// Calls `image::ImageBuffer::<Rgba<u8>, Vec<u8>>::from_raw`. Its source
/// returns a buffer exactly when the sample count `4 * width * height`,
/// computed by `usize` multiplications that report overflow, fits in `samples`; the
/// buffer then keeps the samples and the dimensions as given.
#[verifier::external_body]
fn rgba_image_from_raw(width: u32, height: u32, samples: Vec<u8>) -> (image: Option<RgbaImage>)
    ensures
        image is Some <==> rgba_fits(width, height, samples@.len() as int),
        image matches Some(buffer) ==> {
            &&& rgba_samples(buffer) == samples@
            &&& rgba_dimensions(buffer) == (width, height)
        },
{
    match ImageBuffer::from_raw(width, height, samples) {
        Some(buffer) => Some(RgbaImage { buffer }),
        None => None,
    }
}

/// Calls `image::ImageBuffer::write_to` with `ImageFormat::Png` into an
/// in-memory `Cursor<Vec<u8>>` and hands back the bytes written. Its source
/// encodes the first `4 * width * height` samples; the outcome is named by
/// `png_encoding`. The bytes come in a `Vec`, which std never lets exceed
/// `isize::MAX` bytes.
#[verifier::external_body]
fn encode_png(image: &RgbaImage) -> (png: Result<Vec<u8>, ImageError>)
    ensures
        png is Ok <==> png_encoding(
            rgba_dimensions(*image).0,
            rgba_dimensions(*image).1,
            rgba_samples(*image).take(rgba_len(rgba_dimensions(*image).0, rgba_dimensions(*image).1)),
        ) is Some,
        png matches Ok(bytes) ==> {
            &&& Some(bytes@) == png_encoding(
                rgba_dimensions(*image).0,
                rgba_dimensions(*image).1,
                rgba_samples(*image).take(
                    rgba_len(rgba_dimensions(*image).0, rgba_dimensions(*image).1),
                ),
            )
            &&& bytes@.len() <= isize::MAX
        },
{
    let mut out = std::io::Cursor::new(Vec::new());
    match image.buffer.write_to(&mut out, ImageFormat::Png) {
        Ok(()) => Ok(out.into_inner()),
        Err(error) => Err(error),
    }
}

/// Calls `Engine::encode` of `base64::engine::general_purpose::STANDARD`.
/// The text is named by `base64_standard`; its length is that of padded
/// Base64, which the crate's `encoded_len` computes. The crate panics when
/// that length overflows `usize`, which `requires` leaves out.
#[verifier::external_body]
fn base64_encode(bytes: &[u8]) -> (text: String)
    requires
        base64_len(bytes@.len() as int) <= usize::MAX,
    ensures
        text@ == base64_standard(bytes@),
        text@.len() == base64_len(bytes@.len() as int),
{
    base64::engine::general_purpose::STANDARD.encode(bytes)
}

/// What the proxy is asked to do with the capture.
pub const ANALYSIS_PROMPT: &'static str = "Analyze the coding problem shown in the image. Provide the optimal code solution with comments explaining the logic and include the time complexity analysis. Format the code solution within a markdown code block (e.g., ```python ... ```).";

/// The request sent to the proxy: the capture as Base64 PNG, and the prompt.
pub struct UploadRequest {
    pub image_base64: String,
    pub prompt: String,
}

/// The capture's samples in RGBA order.
pub open spec fn capture_rgba(image: CaptureView) -> Seq<u8> {
    red_blue_swapped(image.pixels)
}

/// The capture's width as the encoder takes it (an `i32` cast to `u32`).
pub open spec fn capture_width(image: CaptureView) -> u32 {
    image.width as u32
}

/// The capture's height as the encoder takes it (an `i32` cast to `u32`).
pub open spec fn capture_height(image: CaptureView) -> u32 {
    image.height as u32
}

/// Whether the capture's samples fill a picture of its dimensions.
pub open spec fn capture_encodable(image: CaptureView) -> bool {
    rgba_fits(capture_width(image), capture_height(image), capture_rgba(image).len() as int)
}

/// The PNG of the capture, where the encoder produces one.
pub open spec fn capture_png(image: CaptureView) -> Option<Seq<u8>> {
    png_encoding(
        capture_width(image),
        capture_height(image),
        capture_rgba(image).take(rgba_len(capture_width(image), capture_height(image))),
    )
}

/// The request that carries `image_base64` with the analysis prompt.
pub fn upload_request(image_base64: String) -> (request: UploadRequest)
    ensures
        request.image_base64@ == image_base64@,
        request.prompt@ == ANALYSIS_PROMPT@,
{
    UploadRequest { image_base64, prompt: String::from_str(ANALYSIS_PROMPT) }
}

/// The failure reported when the PNG encoder returns `error`, carrying the
/// text that `error`'s `Display` writes.
fn png_failure(error: &ImageError) -> (failure: EncodeFailure)
    ensures
        failure matches EncodeFailure::Png(text) && vstd::string::to_string_from_display_ensures::<
            ImageError,
        >(error, text),
{
    EncodeFailure::Png(error.to_string())
}

/// Turns a capture into the request for the proxy: red and blue change
/// places in every pixel, the result is encoded as PNG and the PNG as Base64.
/// Fails when the pixels do not fill the capture's dimensions, and when the
/// encoder reports an error.
pub fn prepare_upload(image: &CapturedImage) -> (request: Result<UploadRequest, EncodeFailure>)
    ensures
        !capture_encodable(image@) ==> request matches Err(EncodeFailure::BufferRejected),
        capture_encodable(image@) && capture_png(image@) is None ==> (request matches Err(
            EncodeFailure::Png(text),
        ) && exists|error: ImageError|
            #[trigger] vstd::string::to_string_from_display_ensures::<ImageError>(&error, text)),
        capture_encodable(image@) && capture_png(image@) is Some ==> (request matches Ok(r) && {
            &&& r.image_base64@ == base64_standard(capture_png(image@)->Some_0)
            &&& r.prompt@ == ANALYSIS_PROMPT@
        }),
{
    let rgba = bgra_to_rgba(image.pixels.as_slice());
    let width = image.width as u32;
    let height = image.height as u32;
    match rgba_image_from_raw(width, height, rgba) {
        None => Err(EncodeFailure::BufferRejected),
        Some(buffer) => match encode_png(&buffer) {
            Err(error) => Err(png_failure(&error)),
            Ok(png) => {
                assert(base64_len(png@.len() as int) <= usize::MAX) by {
                    assert(png@.len() <= isize::MAX);
                }
                let text = base64_encode(png.as_slice());
                Ok(upload_request(text))
            },
        },
    }
}

/// A complete capture (positive width and height, four bytes per pixel) is
/// never refused for its buffer: it fills exactly the picture it describes.
/// (Its pixels sit in a `Vec`, so their count fits in `usize`.)
pub proof fn lemma_complete_capture_is_encodable(image: CaptureView)
    requires
        capture_complete(image),
        image.pixels.len() <= usize::MAX,
    ensures
        capture_encodable(image),
        capture_rgba(image).len() == rgba_len(capture_width(image), capture_height(image)),
{
    let w = image.width as int;
    let h = image.height as int;
    assert(capture_width(image) == w);
    assert(capture_height(image) == h);
    assert(4 * w <= 4 * w * h) by (nonlinear_arith)
        requires
            w > 0,
            h > 0,
    ;
    assert(rgba_len(capture_width(image), capture_height(image)) == 4 * w * h);
}

/// The samples the PNG of an upload is made from are the capture's bytes
/// with blue and red exchanged in every whole pixel: sample `4p` is the
/// capture's byte `4p + 2` (red), sample `4p + 2` its byte `4p` (blue), and
/// green and alpha stay in place; there are as many samples as capture bytes.
pub proof fn lemma_upload_samples_are_rgba(image: CaptureView, p: int)
    requires
        0 <= p,
        4 * p + 4 <= image.pixels.len(),
    ensures
        capture_rgba(image).len() == image.pixels.len(),
        capture_rgba(image)[4 * p] == image.pixels[4 * p + 2],
        capture_rgba(image)[4 * p + 1] == image.pixels[4 * p + 1],
        capture_rgba(image)[4 * p + 2] == image.pixels[4 * p],
        capture_rgba(image)[4 * p + 3] == image.pixels[4 * p + 3],
{
}

} // verus!
