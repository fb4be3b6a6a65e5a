//! Tests of the transform stage and of the pipeline state machine driven
//! end to end with synthetic cache and fetch events.

use img_optimizer::cache::ImageCache;
use img_optimizer::error::AppError;
use img_optimizer::image_processor::ImageProcessor;
use img_optimizer::pipeline::PipelineEvent;
use img_optimizer::pipeline::PipelineState;
use img_optimizer::pipeline::step;
use img_optimizer::ImageParams;
use img_optimizer::MAX_IMAGE_SIZE;

fn make_png_rgb(width: u32, height: u32) -> Vec<u8> {
    let img = image::RgbImage::from_pixel(width, height, image::Rgb([10, 130, 200]));
    let mut out = Vec::new();
    let mut cursor = std::io::Cursor::new(&mut out);
    image::DynamicImage::ImageRgb8(img)
        .write_to(&mut cursor, image::ImageFormat::Png)
        .expect("encoding the fixture PNG");
    out
}

fn make_png_rgba(width: u32, height: u32) -> Vec<u8> {
    let img = image::RgbaImage::from_pixel(width, height, image::Rgba([10, 130, 200, 128]));
    let mut out = Vec::new();
    let mut cursor = std::io::Cursor::new(&mut out);
    image::DynamicImage::ImageRgba8(img)
        .write_to(&mut cursor, image::ImageFormat::Png)
        .expect("encoding the fixture PNG");
    out
}

fn dims_of(data: &[u8]) -> (u32, u32) {
    let img = image::load_from_memory(data).expect("decoding the output");
    (img.width(), img.height())
}

#[test]
fn test_image_format_conversion() {
    let png = make_png_rgb(40, 30);
    let out = ImageProcessor::process(png, None, 75, Some("jpeg")).unwrap();
    assert_eq!(img_optimizer::guess_content_type(&out), "image/jpeg");
    assert_eq!(dims_of(&out), (40, 30));
}

#[test]
fn test_plasmic_compatible_webp_format() {
    let png = make_png_rgb(200, 100);
    let out = ImageProcessor::process(png, Some(100), 80, Some("webp")).unwrap();
    assert_eq!(img_optimizer::guess_content_type(&out), "image/webp");
    let (w, _) = dims_of(&out);
    assert!(w <= 100);
}

#[test]
fn test_plasmic_compatible_resize_and_format() {
    let png = make_png_rgb(1200, 600);
    let out = ImageProcessor::process(png, Some(800), 90, Some("jpeg")).unwrap();
    assert_eq!(img_optimizer::guess_content_type(&out), "image/jpeg");
    assert_eq!(dims_of(&out), (800, 400));
}

#[test]
fn test_no_upscaling() {
    let png = make_png_rgb(10, 10);
    let out = ImageProcessor::process(png.clone(), Some(20), 75, Some("png")).unwrap();
    assert_eq!(dims_of(&out), (10, 10));
    let out_eq = ImageProcessor::process(png, Some(10), 75, Some("png")).unwrap();
    assert_eq!(dims_of(&out_eq), (10, 10));
}

#[test]
fn test_resize_height_rounds_down() {
    let png = make_png_rgb(3, 2);
    let out = ImageProcessor::process(png, Some(2), 75, Some("png")).unwrap();
    // floor(2 * 2 / 3) = 1
    assert_eq!(dims_of(&out), (2, 1));
}

#[test]
fn test_format_default_with_alpha_is_png() {
    let png = make_png_rgba(16, 16);
    let out = ImageProcessor::process(png, None, 75, None).unwrap();
    assert_eq!(img_optimizer::guess_content_type(&out), "image/png");
}

#[test]
fn test_format_default_without_alpha_is_jpeg() {
    let png = make_png_rgb(16, 16);
    let out = ImageProcessor::process(png, None, 75, None).unwrap();
    assert_eq!(img_optimizer::guess_content_type(&out), "image/jpeg");
}

#[test]
fn test_unsupported_format_rejected() {
    let png = make_png_rgb(8, 8);
    let err = ImageProcessor::process(png, None, 75, Some("gif")).err().unwrap();
    assert!(matches!(&err, AppError::InvalidImageFormat { format } if format == "gif"));
    assert_eq!(err.error_code(), "IMG_004");
}

#[test]
fn test_undecodable_bytes_rejected() {
    let garbage = vec![0u8; 64];
    let err = ImageProcessor::process(garbage, None, 75, None).err().unwrap();
    assert!(matches!(err, AppError::ImageProcessingFailed { .. }));
    assert_eq!(err.error_code(), "IMG_003");
}

#[test]
fn test_undecodable_bytes_rejected_for_every_format() {
    // Decoding comes first, so even an unsupported format string reports the
    // decode failure.
    for f in [None, Some("jpeg"), Some("jpg"), Some("png"), Some("webp"), Some("gif")] {
        let err = ImageProcessor::process(vec![7u8; 32], Some(100), 80, f).err().unwrap();
        assert_eq!(err.error_code(), "IMG_003");
    }
}

fn begin(src: &str, w: Option<u32>, q: Option<u8>, f: Option<&str>) -> PipelineState {
    step(
        PipelineState::Ready,
        PipelineEvent::Begin {
            params: ImageParams {
                src: Some(src.to_string()),
                w,
                q,
                f: f.map(|s| s.to_string()),
            },
        },
    )
}

/// Drives one full request against the given store, feeding `source` as the
/// fetched body, and returns the response body and content type.
fn run_request(
    cache: &mut ImageCache,
    src: &str,
    w: Option<u32>,
    q: Option<u8>,
    f: Option<&str>,
    source: &[u8],
) -> (Vec<u8>, String, bool) {
    let mut fetched = false;
    let state = begin(src, w, q, f);
    let key = match &state {
        PipelineState::Lookup { req } => req.key.clone(),
        other => panic!("expected a lookup state, got {other:?}"),
    };
    let state = match cache.get(&key) {
        Some(data) => step(state, PipelineEvent::CacheHit { data }),
        None => {
            fetched = true;
            let mut s = step(state, PipelineEvent::CacheMiss);
            s = step(s, PipelineEvent::Chunk { data: source.to_vec() });
            s = step(s, PipelineEvent::FetchDone);
            match s {
                PipelineState::Storing { key, body } => {
                    cache.put(key.clone(), body.clone());
                    step(PipelineState::Storing { key, body }, PipelineEvent::StoreDone)
                },
                other => panic!("expected a storing state, got {other:?}"),
            }
        },
    };
    match state {
        PipelineState::Done { body, content_type } => (body, content_type, fetched),
        other => panic!("expected a done state, got {other:?}"),
    }
}

#[test]
fn test_pipeline_end_to_end_png_source() {
    let mut cache = ImageCache::new();
    let png = make_png_rgb(120, 60);
    let (body, content_type, fetched) =
        run_request(&mut cache, "https://example.com/test-image.png", Some(100), Some(80), Some("webp"), &png);
    assert!(fetched);
    assert_eq!(content_type, "image/webp");
    let img = image::load_from_memory(&body).unwrap();
    assert!(img.width() <= 100);
}

#[test]
fn test_second_request_served_from_cache() {
    let mut cache = ImageCache::new();
    let png = make_png_rgb(64, 64);
    let (body1, ct1, fetched1) =
        run_request(&mut cache, "https://example.com/cached-image.png", Some(32), None, None, &png);
    let (body2, ct2, fetched2) =
        run_request(&mut cache, "https://example.com/cached-image.png", Some(32), None, None, &png);
    assert!(fetched1);
    assert!(!fetched2, "the second identical request must hit the cache");
    assert_eq!(body1, body2, "the second response must be byte-identical");
    assert_eq!(ct1, ct2);
}

#[test]
fn test_size_enforcement() {
    let state = begin("https://example.com/huge.png", None, None, None);
    let state = step(state, PipelineEvent::CacheMiss);
    let oversized = vec![0u8; MAX_IMAGE_SIZE + 1];
    let state = step(state, PipelineEvent::Chunk { data: oversized });
    match state {
        PipelineState::Failed { err } => {
            assert!(matches!(err, AppError::ImageTooLarge));
            assert_eq!(err.error_code(), "IMG_005");
        },
        other => panic!("an oversized body must fail, got {other:?}"),
    }
}

#[test]
fn test_size_enforcement_across_chunks() {
    let state = begin("https://example.com/huge.png", None, None, None);
    let mut state = step(state, PipelineEvent::CacheMiss);
    state = step(state, PipelineEvent::Chunk { data: vec![0u8; MAX_IMAGE_SIZE] });
    assert!(matches!(&state, PipelineState::Fetching { .. }), "exactly the cap is accepted");
    state = step(state, PipelineEvent::Chunk { data: vec![0u8] });
    match state {
        PipelineState::Failed { err } => assert!(matches!(err, AppError::ImageTooLarge)),
        other => panic!("one byte over the cap must fail, got {other:?}"),
    }
}

#[test]
fn test_fetch_failure_reported() {
    let state = begin("https://example.com/missing.png", None, None, None);
    let state = step(state, PipelineEvent::CacheMiss);
    let state = step(state, PipelineEvent::FetchFailed);
    match state {
        PipelineState::Failed { err } => {
            assert!(matches!(&err, AppError::ImageFetchFailed { url }
                if url == "https://example.com/missing.png"));
            assert_eq!(err.error_code(), "IMG_002");
            assert_eq!(err.status_code(), 422);
        },
        other => panic!("a failed fetch must fail the request, got {other:?}"),
    }
}

#[test]
fn test_begin_rejects_invalid_params() {
    let state = step(
        PipelineState::Ready,
        PipelineEvent::Begin {
            params: ImageParams { src: None, w: None, q: None, f: None },
        },
    );
    match state {
        PipelineState::Failed { err } => assert_eq!(err.error_code(), "VAL_003"),
        other => panic!("a missing src must fail, got {other:?}"),
    }
    let state = begin("https://example.com/a.png", Some(5000), None, None);
    match state {
        PipelineState::Failed { err } => assert_eq!(err.error_code(), "VAL_001"),
        other => panic!("w=5000 must fail, got {other:?}"),
    }
}

#[test]
fn test_unexpected_event_is_internal_error() {
    let state = step(PipelineState::Ready, PipelineEvent::FetchDone);
    match state {
        PipelineState::Failed { err } => assert_eq!(err.error_code(), "SYS_001"),
        other => panic!("a protocol misuse must fail, got {other:?}"),
    }
}
