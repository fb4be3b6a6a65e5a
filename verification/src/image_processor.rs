//! The image transform stage: decode the fetched bytes, downscale when a
//! smaller width was asked for, choose the output format, and re-encode.
//! The pixel work is the codec library's; the decisions, the aspect-ratio
//! arithmetic and the error mapping are verified here.

use crate::cache_key::opt_str_view;
use crate::error::AppError;
use crate::error::AppResult;
use crate::sniff::is_jpeg_sig;
use crate::sniff::is_png_sig;
use crate::sniff::is_webp_sig;
use crate::text::str_eq;
use vstd::arithmetic::div_mod::lemma_multiply_divide_lt;
use vstd::arithmetic::mul::lemma_mul_strict_inequality;
use vstd::prelude::*;
use vstd::string::StringExecFns;

verus! {

/// What the codec's decoder finds in a byte buffer: the decoded width,
/// height and whether the color type carries an alpha channel, or nothing
/// when the bytes do not decode. Decoding sniffs the format from the
/// content, so this is a function of the bytes alone.
pub uninterp spec fn decode_of(data: Seq<u8>) -> Option<(u32, u32, bool)>;

/// The plain facts of a decoded image that the transform decisions need.
pub struct ImageInfo {
    pub width: u32,
    pub height: u32,
    pub has_alpha: bool,
}

/// Relies on image's `ImageReader` with a guessed format and on
/// `DynamicImage::{width, height, color}`: whether bytes decode, and the
/// decoded dimensions and alpha flag, depend on the bytes alone and are
/// reported exactly.
#[verifier::external_body]
fn decode_image(data: &[u8]) -> (r: Result<ImageInfo, String>)
    ensures
        r is Ok <==> decode_of(data@) is Some,
        r matches Ok(d) ==> decode_of(data@) == Some((d.width, d.height, d.has_alpha)),
{
    let reader = match image::ImageReader::new(std::io::Cursor::new(data)).with_guessed_format() {
        Ok(rd) => rd,
        Err(e) => return Err(format!("Failed to read image: {e}")),
    };
    match reader.decode() {
        Ok(img) => {
            let (width, height) = (img.width(), img.height());
            Ok(ImageInfo { width, height, has_alpha: img.color().has_alpha() })
        },
        Err(e) => Err(format!("Failed to decode image: {e}")),
    }
}

/// What decoding `data`, resampling to the dimensions in `resize` (when
/// given), flattening to RGB and JPEG-encoding at `quality` produces, or
/// nothing when the decode or the encode fails; a function of the arguments
/// alone.
pub uninterp spec fn jpeg_transcode_of(
    data: Seq<u8>,
    resize: Option<(u32, u32)>,
    quality: u8,
) -> Option<Seq<u8>>;

/// Relies on image's decoder, the Lanczos3 resampler and `JpegEncoder`: the
/// outcome depends on the arguments alone, and a successful encode opens
/// with the start-of-image bytes FF D8 FF and is at least twelve bytes.
#[verifier::external_body]
fn transcode_jpeg(data: &[u8], resize: Option<(u32, u32)>, quality: u8) -> (r: Result<
    Vec<u8>,
    String,
>)
    ensures
        r is Ok <==> jpeg_transcode_of(data@, resize, quality) is Some,
        r matches Ok(v) ==> jpeg_transcode_of(data@, resize, quality) == Some(v@) && is_jpeg_sig(
            v@,
        ) && v@.len() >= 12,
{
    let reader = image::ImageReader::new(std::io::Cursor::new(data))
        .with_guessed_format()
        .map_err(|e| format!("Failed to read image: {e}"))?;
    let img = reader.decode().map_err(|e| format!("Failed to decode image: {e}"))?;
    let img = match resize {
        Some((w, h)) => img.resize_exact(w, h, image::imageops::FilterType::Lanczos3),
        None => img,
    };
    let mut out: Vec<u8> = Vec::new();
    let enc = image::codecs::jpeg::JpegEncoder::new_with_quality(std::io::Cursor::new(&mut out), quality);
    img.to_rgb8().write_with_encoder(enc).map_err(|e| format!("Failed to encode JPEG: {e}"))?;
    Ok(out)
}

/// What decoding `data`, resampling to the dimensions in `resize` (when
/// given) and PNG-encoding produces, or nothing when the decode or the
/// encode fails; a function of the arguments alone.
pub uninterp spec fn png_transcode_of(data: Seq<u8>, resize: Option<(u32, u32)>) -> Option<
    Seq<u8>,
>;

/// Relies on image's decoder, the Lanczos3 resampler and
/// `DynamicImage::write_to` with the PNG format: the outcome depends on the
/// arguments alone, and a successful encode opens with the fixed eight-byte
/// PNG signature and is at least twelve bytes.
#[verifier::external_body]
fn transcode_png(data: &[u8], resize: Option<(u32, u32)>) -> (r: Result<Vec<u8>, String>)
    ensures
        r is Ok <==> png_transcode_of(data@, resize) is Some,
        r matches Ok(v) ==> png_transcode_of(data@, resize) == Some(v@) && is_png_sig(v@)
            && v@.len() >= 12,
{
    let reader = image::ImageReader::new(std::io::Cursor::new(data))
        .with_guessed_format()
        .map_err(|e| format!("Failed to read image: {e}"))?;
    let img = reader.decode().map_err(|e| format!("Failed to decode image: {e}"))?;
    let img = match resize {
        Some((w, h)) => img.resize_exact(w, h, image::imageops::FilterType::Lanczos3),
        None => img,
    };
    let mut out: Vec<u8> = Vec::new();
    img.write_to(&mut std::io::Cursor::new(&mut out), image::ImageFormat::Png)
        .map_err(|e| format!("Failed to encode PNG: {e}"))?;
    Ok(out)
}

/// What decoding `data`, resampling to the dimensions in `resize` (when
/// given) and WebP-encoding the RGBA pixels at `quality` produces, or
/// nothing when the decode or the encode fails; a function of the arguments
/// alone.
pub uninterp spec fn webp_transcode_of(
    data: Seq<u8>,
    resize: Option<(u32, u32)>,
    quality: u8,
) -> Option<Seq<u8>>;

/// Relies on image's decoder, the Lanczos3 resampler and webp's `Encoder`
/// over the RGBA pixels: the outcome depends on the arguments alone, and a
/// successful encode is a RIFF container whose twelve-byte header names a
/// WEBP payload.
#[verifier::external_body]
fn transcode_webp(data: &[u8], resize: Option<(u32, u32)>, quality: u8) -> (r: Result<
    Vec<u8>,
    String,
>)
    ensures
        r is Ok <==> webp_transcode_of(data@, resize, quality) is Some,
        r matches Ok(v) ==> webp_transcode_of(data@, resize, quality) == Some(v@) && is_webp_sig(
            v@,
        ) && v@.len() >= 12,
{
    let reader = image::ImageReader::new(std::io::Cursor::new(data))
        .with_guessed_format()
        .map_err(|e| format!("Failed to read image: {e}"))?;
    let img = reader.decode().map_err(|e| format!("Failed to decode image: {e}"))?;
    let img = match resize {
        Some((w, h)) => img.resize_exact(w, h, image::imageops::FilterType::Lanczos3),
        None => img,
    };
    let rgba = img.to_rgba8();
    let mem = webp::Encoder::from_rgba(&rgba, rgba.width(), rgba.height())
        .encode_simple(false, quality.into())
        .map_err(|e| format!("Failed to encode WebP: {e:?}"))?;
    Ok(mem.to_vec())
}

/// The output encodings the transform can produce.
#[derive(Clone, Copy, Debug, PartialEq, Eq, Structural)]
pub enum OutputFormat {
    Jpeg,
    Png,
    WebP,
}

/// The format strings a request may name, matched case-sensitively.
pub open spec fn is_supported_format(f: Seq<char>) -> bool {
    f == "jpeg"@ || f == "jpg"@ || f == "png"@ || f == "webp"@
}

/// The encoding a supported format string names.
pub open spec fn parse_format(f: Seq<char>) -> OutputFormat {
    if f == "jpeg"@ || f == "jpg"@ {
        OutputFormat::Jpeg
    } else if f == "png"@ {
        OutputFormat::Png
    } else {
        OutputFormat::WebP
    }
}

/// Format defaulting: an explicit supported format is honored; with none
/// given, an image with an alpha channel encodes as PNG and one without as
/// JPEG, so WebP is reachable only by explicit request.
pub open spec fn chosen_format(format: Option<Seq<char>>, has_alpha: bool) -> OutputFormat {
    match format {
        Some(f) => parse_format(f),
        None => if has_alpha {
            OutputFormat::Png
        } else {
            OutputFormat::Jpeg
        },
    }
}

/// Selects the output encoding from the requested format string, if any, and
/// the presence of an alpha channel; an unrecognized string is rejected with
/// the offending value.
pub fn select_format(format: Option<&str>, has_alpha: bool) -> (r: Result<OutputFormat, AppError>)
    ensures
        match opt_str_view(format) {
            Some(f) => if is_supported_format(f) {
                r == Ok::<OutputFormat, AppError>(parse_format(f))
            } else {
                r matches Err(AppError::InvalidImageFormat { format: g }) && g@ == f
            },
            None => r == Ok::<OutputFormat, AppError>(chosen_format(None, has_alpha)),
        },
{
    match format {
        Some(f) => {
            if str_eq(f, "jpeg") || str_eq(f, "jpg") {
                Ok(OutputFormat::Jpeg)
            } else if str_eq(f, "png") {
                Ok(OutputFormat::Png)
            } else if str_eq(f, "webp") {
                Ok(OutputFormat::WebP)
            } else {
                Err(AppError::InvalidImageFormat { format: String::from_str(f) })
            }
        },
        None => {
            if has_alpha {
                Ok(OutputFormat::Png)
            } else {
                Ok(OutputFormat::Jpeg)
            }
        },
    }
}

/// The height of a proportional downscale to `target_width`:
/// `floor(target_width * height / width)`, the only aspect-ratio rule.
pub fn scaled_height(target_width: u32, height: u32, width: u32) -> (r: u32)
    requires
        target_width < width,
    ensures
        r == (target_width as int * height as int) / (width as int),
{
    proof {
        assert((target_width as int) * (height as int) < 0x10000000000000000)
            by (nonlinear_arith)
            requires
                0 <= (target_width as int),
                (target_width as int) < 0x100000000,
                0 <= (height as int),
                (height as int) < 0x100000000,
        ;
    }
    let t: u64 = (target_width as u64) * (height as u64);
    let w: u64 = width as u64;
    let h: u64 = t / w;
    proof {
        if height > 0 {
            lemma_mul_strict_inequality(target_width as int, width as int, height as int);
            lemma_multiply_divide_lt(t as int, width as int, height as int);
        } else {
            assert(t == 0);
        }
    }
    h as u32
}

/// The resize decision: downscale only when a width was asked for and is
/// strictly below the decoded width, to the asked-for width and the
/// proportional height; an equal or larger request leaves the image alone,
/// so nothing is ever upscaled.
pub open spec fn resize_plan(width: Option<u32>, img_w: u32, img_h: u32) -> Option<(u32, u32)> {
    match width {
        Some(t) => if t < img_w {
            Some((t, ((t as int * img_h as int) / (img_w as int)) as u32))
        } else {
            None
        },
        None => None,
    }
}

/// Decides whether, and to which dimensions, a decoded image is resized.
pub fn plan_resize(width: Option<u32>, img_w: u32, img_h: u32) -> (r: Option<(u32, u32)>)
    ensures
        r == resize_plan(width, img_w, img_h),
        r is None <==> (width is None || width.unwrap() >= img_w),
        r matches Some(d) ==> width == Some(d.0) && d.0 < img_w,
{
    match width {
        Some(t) => if t < img_w {
            Some((t, scaled_height(t, img_h, img_w)))
        } else {
            None
        },
        None => None,
    }
}

/// What a successful transform guarantees of its output bytes: they open
/// with the signature of the chosen encoding, so sniffing them yields the
/// matching content type.
pub open spec fn sig_matches(fmt: OutputFormat, out: Seq<u8>) -> bool {
    match fmt {
        OutputFormat::Jpeg => is_jpeg_sig(out) && out.len() >= 12,
        OutputFormat::Png => is_png_sig(out) && out.len() >= 12,
        OutputFormat::WebP => is_webp_sig(out) && out.len() >= 12,
    }
}

/// The bytes the chosen encoding produces for the given inputs, by the
/// codec names.
pub open spec fn transcode_name(
    fmt: OutputFormat,
    data: Seq<u8>,
    plan: Option<(u32, u32)>,
    quality: u8,
) -> Option<Seq<u8>> {
    match fmt {
        OutputFormat::Jpeg => jpeg_transcode_of(data, plan, quality),
        OutputFormat::Png => png_transcode_of(data, plan),
        OutputFormat::WebP => webp_transcode_of(data, plan, quality),
    }
}

/// The outcome of the encode step for decoded input: the result is exactly
/// the named transcode of the input bytes under the resize plan taken from
/// the decoded dimensions — success if and only if that encode succeeds,
/// with the returned bytes opening with the chosen encoding's signature,
/// and a processing-failure error otherwise.
pub open spec fn encode_outcome_post(
    fmt: OutputFormat,
    data: Seq<u8>,
    width: Option<u32>,
    quality: u8,
    info: (u32, u32, bool),
    r: AppResult<Vec<u8>>,
) -> bool {
    let out = transcode_name(fmt, data, resize_plan(width, info.0, info.1), quality);
    match r {
        Ok(v) => out == Some(v@) && sig_matches(fmt, v@),
        Err(e) => out is None && e matches AppError::ImageProcessingFailed { .. },
    }
}

/// The full outcome of the transform stage. Bytes that do not decode fail
/// with the processing error, whatever else was asked. For decoded bytes an
/// unsupported requested format is rejected with the offending value; else
/// the output encoding is the requested one or the alpha-directed default
/// and the result is the named transcode of the input.
pub open spec fn transform_post(
    data: Seq<u8>,
    width: Option<u32>,
    quality: u8,
    format: Option<Seq<char>>,
    r: AppResult<Vec<u8>>,
) -> bool {
    match decode_of(data) {
        None => r matches Err(AppError::ImageProcessingFailed { .. }),
        Some(info) => match format {
            Some(f) => if !is_supported_format(f) {
                r matches Err(AppError::InvalidImageFormat { format: g }) && g@ == f
            } else {
                encode_outcome_post(parse_format(f), data, width, quality, info, r)
            },
            None => encode_outcome_post(chosen_format(None, info.2), data, width, quality, info, r),
        },
    }
}

pub struct ImageProcessor;

impl ImageProcessor {
    /// Decodes `image_data`, downscales it when `width` is given and strictly
    /// below the decoded width (never upscaling), encodes it in the requested
    /// format or, absent one, in PNG for images with alpha and JPEG
    /// otherwise, and returns the encoded bytes.
    pub fn process(
        image_data: Vec<u8>,
        width: Option<u32>,
        quality: u8,
        format: Option<&str>,
    ) -> (r: AppResult<Vec<u8>>)
        ensures
            transform_post(image_data@, width, quality, opt_str_view(format), r),
    {
        let info = match decode_image(image_data.as_slice()) {
            Ok(d) => d,
            Err(reason) => {
                return Err(AppError::ImageProcessingFailed { reason });
            },
        };
        let output_format = match select_format(format, info.has_alpha) {
            Ok(f) => f,
            Err(e) => {
                return Err(e);
            },
        };
        let plan = plan_resize(width, info.width, info.height);
        let encoded = match output_format {
            OutputFormat::Jpeg => transcode_jpeg(image_data.as_slice(), plan, quality),
            OutputFormat::Png => transcode_png(image_data.as_slice(), plan),
            OutputFormat::WebP => transcode_webp(image_data.as_slice(), plan, quality),
        };
        match encoded {
            Ok(out) => Ok(out),
            Err(reason) => Err(AppError::ImageProcessingFailed { reason }),
        }
    }
}

} // verus!
