//! Derived images: the size of a thumbnail and of a preview, and their
//! rendering from the bytes of an original through the `image` crate.

use vstd::prelude::*;
use image::GenericImageView;

verus! {

/// The width of every thumbnail.
pub const THUMBNAIL_WIDTH: u32 = 300;

/// The widest preview; narrower originals are kept as they are.
pub const PREVIEW_WIDTH: u32 = 1920;

/// Why an artifact could not be made.
#[derive(Debug, Clone, Copy, PartialEq, Eq, Structural)]
pub enum ArtifactError {
    /// The bytes are not an image in a supported format.
    Undecodable,
    /// The image, or the image it would be scaled to, has no pixels.
    ZeroDimension,
    /// The scaled height does not fit in 32 bits.
    OutOfRange,
    /// The encoder refused the image.
    EncodeFailed,
}

/// `height * target / width`, rounded to the nearest integer, halves up.
pub open spec fn scaled_height(width: nat, height: nat, target: nat) -> nat
    recommends
        width > 0,
{
    (2 * height * target + width) / (2 * width)
}

/// The size an image of `width` by `height` is scaled to when brought to
/// width `target`, keeping its aspect ratio.
pub open spec fn scaled_size(width: nat, height: nat, target: nat) -> Result<(u32, u32), ArtifactError> {
    if width == 0 || height == 0 {
        Err(ArtifactError::ZeroDimension)
    } else if scaled_height(width, height, target) == 0 {
        Err(ArtifactError::ZeroDimension)
    } else if scaled_height(width, height, target) > u32::MAX {
        Err(ArtifactError::OutOfRange)
    } else {
        Ok((target as u32, scaled_height(width, height, target) as u32))
    }
}

/// Computes the size an image is scaled to at width `target`.
pub fn scale_to_width(width: u32, height: u32, target: u32) -> (r: Result<(u32, u32), ArtifactError>)
    requires
        1 <= target <= 0x10000,
    ensures
        r == scaled_size(width as nat, height as nat, target as nat),
{
    if width == 0 || height == 0 {
        return Err(ArtifactError::ZeroDimension);
    }
    let h = height as u64;
    let w = width as u64;
    let t = target as u64;
    assert(2 * h * t + w <= 0x20000_0000_0000u64 + 0x1_0000_0000u64) by (nonlinear_arith)
        requires
            h < 0x1_0000_0000,
            w < 0x1_0000_0000,
            t <= 0x10000,
    ;
    let numerator = 2 * h * t + w;
    let scaled = numerator / (2 * w);
    if scaled == 0 {
        Err(ArtifactError::ZeroDimension)
    } else if scaled > u32::MAX as u64 {
        Err(ArtifactError::OutOfRange)
    } else {
        Ok((target, scaled as u32))
    }
}

/// Computes the size of a thumbnail: width 300, height in proportion.
pub fn thumbnail_size(width: u32, height: u32) -> (r: Result<(u32, u32), ArtifactError>)
    ensures
        r == scaled_size(width as nat, height as nat, THUMBNAIL_WIDTH as nat),
{
    scale_to_width(width, height, THUMBNAIL_WIDTH)
}

/// What becomes of an original when its preview is made.
#[derive(Debug, Clone, Copy, PartialEq, Eq, Structural)]
pub enum PreviewPlan {
    /// The original is narrow enough: its bytes are copied unchanged.
    KeepSource,
    /// The original is scaled down to this size and encoded anew.
    Resize { width: u32, height: u32 },
}

/// The preview of an image of `width` by `height`: scaled to width 1920 when
/// wider, else the original as it is; an image without pixels is refused.
pub open spec fn preview_plan_of(width: nat, height: nat) -> Result<PreviewPlan, ArtifactError> {
    if width == 0 || height == 0 {
        Err(ArtifactError::ZeroDimension)
    } else if width <= PREVIEW_WIDTH {
        Ok(PreviewPlan::KeepSource)
    } else {
        match scaled_size(width, height, PREVIEW_WIDTH as nat) {
            Ok((w, h)) => Ok(PreviewPlan::Resize { width: w, height: h }),
            Err(e) => Err(e),
        }
    }
}

/// Decides how the preview of an image of `width` by `height` is made.
pub fn preview_plan(width: u32, height: u32) -> (r: Result<PreviewPlan, ArtifactError>)
    ensures
        r == preview_plan_of(width as nat, height as nat),
{
    if width == 0 || height == 0 {
        return Err(ArtifactError::ZeroDimension);
    }
    if width <= PREVIEW_WIDTH {
        return Ok(PreviewPlan::KeepSource);
    }
    match scale_to_width(width, height, PREVIEW_WIDTH) {
        Ok((w, h)) => Ok(PreviewPlan::Resize { width: w, height: h }),
        Err(e) => Err(e),
    }
}

#[verifier::external_type_specification]
#[verifier::external_body]
pub struct ExDynamicImage(image::DynamicImage);

#[verifier::external_type_specification]
#[verifier::external_body]
pub struct ExImageFormat(image::ImageFormat);

/// Whether `image::guess_format` recognises one of the crate's built-in
/// formats by the leading bytes.
pub uninterp spec fn format_recognised(bytes: Seq<u8>) -> bool;

/// Whether `image::load_from_memory_with_format` decodes these bytes in the
/// format that `image::guess_format` recognised in them.
pub uninterp spec fn decodes(bytes: Seq<u8>) -> bool;

/// The width and height, in pixels, that `GenericImageView::dimensions`
/// gives for the image decoded from these bytes in their recognised format.
pub uninterp spec fn decoded_size(bytes: Seq<u8>) -> (u32, u32);

/// What `DynamicImage::write_to` in the WebP format gives for the image
/// decoded from these bytes in their recognised format and resized to
/// `width` by `height`: the encoded
/// bytes, or none when the encoder refuses the image.
pub uninterp spec fn webp_resized(bytes: Seq<u8>, width: u32, height: u32) -> Option<Seq<u8>>;

/// A built-in format recognised in some bytes, with those bytes.
struct Recognised {
    format: image::ImageFormat,
    source: Ghost<Seq<u8>>,
}

/// An image decoded by this module, with the bytes it came from.
struct Decoded {
    img: image::DynamicImage,
    source: Ghost<Seq<u8>>,
}

/// A decoded image resized by this module, with the bytes it came from and
/// the size it was brought to.
struct Resized {
    img: image::DynamicImage,
    source: Ghost<Seq<u8>>,
    width: Ghost<u32>,
    height: Ghost<u32>,
}

/// Relies on `image::guess_format`, which matches the leading bytes against
/// the crate's built-in table of signatures only (no registered hook).
#[verifier::external_body]
fn guess_image_format(bytes: &Vec<u8>) -> (r: Option<Recognised>)
    ensures
        r is Some <==> format_recognised(bytes@),
        r matches Some(g) ==> g.source@ == bytes@,
{
    match image::guess_format(bytes.as_slice()) {
        Ok(format) => Some(Recognised { format, source: Ghost(bytes@) }),
        Err(_) => None,
    }
}

/// Relies on `image::load_from_memory_with_format`: with a built-in format
/// it uses that format's own decoder, never a registered decoding hook.
#[verifier::external_body]
fn decode_image(bytes: &Vec<u8>, recognised: &Recognised) -> (r: Option<Decoded>)
    requires
        recognised.source@ == bytes@,
    ensures
        r is Some <==> decodes(bytes@),
        r matches Some(d) ==> d.source@ == bytes@,
{
    match image::load_from_memory_with_format(bytes.as_slice(), recognised.format) {
        Ok(img) => Some(Decoded { img, source: Ghost(bytes@) }),
        Err(_) => None,
    }
}

/// Whether an original is read as an image: its format is recognised and
/// it decodes in that format.
pub open spec fn readable(source: Seq<u8>) -> bool {
    format_recognised(source) && decodes(source)
}

/// Reads an original as an image, or none when it is not readable.
fn read_image(source: &Vec<u8>) -> (r: Option<Decoded>)
    ensures
        r is Some <==> readable(source@),
        r matches Some(d) ==> d.source@ == source@,
{
    match guess_image_format(source) {
        None => None,
        Some(recognised) => decode_image(source, &recognised),
    }
}

/// Relies on `GenericImageView::dimensions` of a decoded image: its width
/// and height in pixels.
#[verifier::external_body]
fn image_dimensions(d: &Decoded) -> (r: (u32, u32))
    ensures
        r == decoded_size(d.source@),
{
    d.img.dimensions()
}

/// Relies on `DynamicImage::resize_exact` with the Lanczos filter: the image
/// scaled to exactly this size.
#[verifier::external_body]
fn resize_image(d: &Decoded, width: u32, height: u32) -> (r: Resized)
    requires
        width > 0,
        height > 0,
    ensures
        r.source@ == d.source@,
        r.width@ == width,
        r.height@ == height,
{
    Resized {
        img: d.img.resize_exact(width, height, image::imageops::FilterType::Lanczos3),
        source: Ghost(d.source@),
        width: Ghost(width),
        height: Ghost(height),
    }
}

/// Relies on `DynamicImage::write_to` in the WebP format, which the crate
/// encodes losslessly; none when the encoder refuses the image.
#[verifier::external_body]
fn encode_webp(r: &Resized) -> (out: Option<Vec<u8>>)
    ensures
        out is None <==> webp_resized(r.source@, r.width@, r.height@) is None,
        out matches Some(b) ==> webp_resized(r.source@, r.width@, r.height@) == Some(b@),
{
    let mut out: Vec<u8> = Vec::new();
    match r.img.write_to(&mut std::io::Cursor::new(&mut out), image::ImageFormat::WebP) {
        Ok(()) => Some(out),
        Err(_) => None,
    }
}

/// The thumbnail of an original: refused when it does not decode or its
/// size cannot be scaled to width 300; otherwise the lossless WebP encoding
/// of the image resized to 300 by the rounded height.
pub open spec fn thumbnail_outcome(source: Seq<u8>) -> Result<Seq<u8>, ArtifactError> {
    if !readable(source) {
        Err(ArtifactError::Undecodable)
    } else {
        let (w, h) = decoded_size(source);
        match scaled_size(w as nat, h as nat, THUMBNAIL_WIDTH as nat) {
            Err(e) => Err(e),
            Ok((tw, th)) => match webp_resized(source, tw, th) {
                Some(b) => Ok(b),
                None => Err(ArtifactError::EncodeFailed),
            },
        }
    }
}

/// Renders the thumbnail of an original: decoded, scaled to width 300 with
/// its aspect ratio, encoded as lossless WebP.
pub fn render_thumbnail(source: &Vec<u8>) -> (r: Result<Vec<u8>, ArtifactError>)
    ensures
        r matches Ok(b) ==> thumbnail_outcome(source@) == Ok::<Seq<u8>, ArtifactError>(b@),
        r matches Err(e) ==> thumbnail_outcome(source@) == Err::<Seq<u8>, ArtifactError>(e),
{
    let img = match read_image(source) {
        Some(img) => img,
        None => return Err(ArtifactError::Undecodable),
    };
    let (w, h) = image_dimensions(&img);
    let (tw, th) = match thumbnail_size(w, h) {
        Ok(size) => size,
        Err(e) => return Err(e),
    };
    let small = resize_image(&img, tw, th);
    match encode_webp(&small) {
        Some(bytes) => Ok(bytes),
        None => Err(ArtifactError::EncodeFailed),
    }
}

/// A preview as rendered: the original's own bytes, or a new encoding.
#[derive(Debug, Clone)]
pub enum PreviewArtifact {
    /// The preview is a verbatim copy of the original.
    CopySource,
    /// The bytes of the scaled-down preview.
    Encoded(Vec<u8>),
}

/// The preview of an original: refused when it does not decode or has no
/// pixels; none (a verbatim copy) when it is at most 1920 wide; otherwise
/// the lossless WebP encoding of the image resized to width 1920 and the
/// rounded height.
pub open spec fn preview_outcome(source: Seq<u8>) -> Result<Option<Seq<u8>>, ArtifactError> {
    if !readable(source) {
        Err(ArtifactError::Undecodable)
    } else {
        let (w, h) = decoded_size(source);
        match preview_plan_of(w as nat, h as nat) {
            Err(e) => Err(e),
            Ok(PreviewPlan::KeepSource) => Ok(None),
            Ok(PreviewPlan::Resize { width, height }) => match webp_resized(source, width, height) {
                Some(b) => Ok(Some(b)),
                None => Err(ArtifactError::EncodeFailed),
            },
        }
    }
}

/// Renders the preview of an original: an original no wider than 1920 is
/// kept as it is; a wider one is scaled to width 1920 and encoded as
/// lossless WebP.
pub fn render_preview(source: &Vec<u8>) -> (r: Result<PreviewArtifact, ArtifactError>)
    ensures
        r matches Ok(PreviewArtifact::CopySource) ==> preview_outcome(source@) == Ok::<
            Option<Seq<u8>>,
            ArtifactError,
        >(None),
        r matches Ok(PreviewArtifact::Encoded(b)) ==> preview_outcome(source@) == Ok::<
            Option<Seq<u8>>,
            ArtifactError,
        >(Some(b@)),
        r matches Err(e) ==> preview_outcome(source@) == Err::<Option<Seq<u8>>, ArtifactError>(e),
{
    let img = match read_image(source) {
        Some(img) => img,
        None => return Err(ArtifactError::Undecodable),
    };
    let (w, h) = image_dimensions(&img);
    match preview_plan(w, h) {
        Err(e) => Err(e),
        Ok(PreviewPlan::KeepSource) => Ok(PreviewArtifact::CopySource),
        Ok(PreviewPlan::Resize { width, height }) => {
            let smaller = resize_image(&img, width, height);
            match encode_webp(&smaller) {
                Some(bytes) => Ok(PreviewArtifact::Encoded(bytes)),
                None => Err(ArtifactError::EncodeFailed),
            }
        },
    }
}

/// Rendering is deterministic: the same original bytes give the same
/// thumbnail and the same preview, byte for byte, on every run.
pub proof fn lemma_rendering_is_deterministic(first: Seq<u8>, second: Seq<u8>)
    requires
        first == second,
    ensures
        thumbnail_outcome(first) == thumbnail_outcome(second),
        preview_outcome(first) == preview_outcome(second),
{
}

/// An original that decodes to an image without pixels yields neither a
/// thumbnail nor a preview, but the zero-dimension error.
pub proof fn lemma_empty_image_is_refused(source: Seq<u8>)
    requires
        readable(source),
        decoded_size(source).0 == 0 || decoded_size(source).1 == 0,
    ensures
        thumbnail_outcome(source) == Err::<Seq<u8>, ArtifactError>(ArtifactError::ZeroDimension),
        preview_outcome(source) == Err::<Option<Seq<u8>>, ArtifactError>(ArtifactError::ZeroDimension),
{
}

} // verus!
