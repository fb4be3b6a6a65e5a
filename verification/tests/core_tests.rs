//! Tests of the validation gates, the error taxonomy, cache-key derivation,
//! content-type sniffing and the in-memory cache store.

use img_optimizer::cache::ImageCache;
use img_optimizer::error::AppError;
use img_optimizer::decimal::parse_u32;
use img_optimizer::decimal::parse_u8;
use img_optimizer::generate_cache_key;
use img_optimizer::guess_content_type;
use img_optimizer::pipeline::collect_params;
use img_optimizer::pipeline::direct_image_lookup;
use img_optimizer::pipeline::prepare;
use img_optimizer::ImageParams;
use sha2::Digest;

fn params(
    src: Option<&str>,
    w: Option<u32>,
    q: Option<u8>,
    f: Option<&str>,
) -> ImageParams {
    ImageParams {
        src: src.map(|s| s.to_string()),
        w,
        q,
        f: f.map(|s| s.to_string()),
    }
}

#[test]
fn test_missing_src_parameter() {
    let r = prepare(params(None, None, None, None));
    let err = r.err().expect("missing src must be rejected");
    assert!(matches!(&err, AppError::MissingRequiredParameter { param } if param == "src"));
    assert_eq!(err.error_code(), "VAL_003");
    assert_eq!(err.status_code(), 400);
    assert_eq!(err.title(), "Bad Request");
}

#[test]
fn test_invalid_url() {
    let r = prepare(params(Some("not-a-url"), None, None, None));
    let err = r.err().expect("unparseable src must be rejected");
    assert!(matches!(err, AppError::InvalidImageUrl));
    assert_eq!(err.error_code(), "IMG_001");
    assert_eq!(err.status_code(), 400);
}

#[test]
fn test_non_http_scheme_rejected() {
    let r = prepare(params(Some("ftp://example.com/a.png"), None, None, None));
    let err = r.err().expect("non-http scheme must be rejected");
    assert!(matches!(err, AppError::InvalidImageUrl));
}

#[test]
fn test_svg_source_rejected() {
    let r = prepare(params(Some("https://example.com/test.SVG"), None, None, None));
    let err = r.err().expect("an SVG source must be rejected by the pipeline");
    assert!(matches!(&err, AppError::InvalidImageFormat { format } if format == "svg"));
    assert_eq!(err.error_code(), "IMG_004");
}

#[test]
fn test_svg_path_with_query_rejected() {
    let r = prepare(params(Some("https://example.com/test.svg?v=2"), None, None, None));
    let err = r.err().expect("an SVG path must be rejected whatever the query");
    assert!(matches!(&err, AppError::InvalidImageFormat { format } if format == "svg"));
}

#[test]
fn test_svg_in_query_only_accepted() {
    let r = prepare(params(Some("https://example.com/a.png?x=.svg"), None, None, None));
    assert!(r.is_ok(), "only the URL path decides the SVG gate");
}

#[test]
fn test_max_width_constraint() {
    let r = prepare(params(Some("https://example.com/large-image.png"), Some(5000), None, None));
    let err = r.err().expect("w=5000 must be rejected");
    assert!(matches!(err, AppError::InvalidWidth { width: 5000 }));
    assert_eq!(err.error_code(), "VAL_001");
    assert_eq!(err.status_code(), 400);

    let ok = prepare(params(Some("https://example.com/large-image.png"), Some(3840), None, None));
    assert!(ok.is_ok());
}

#[test]
fn test_width_bounds_exact_values() {
    let r0 = prepare(params(Some("https://example.com/i.png"), Some(0), None, None));
    assert!(matches!(r0.err().unwrap(), AppError::InvalidWidth { width: 0 }));
    let r1 = prepare(params(Some("https://example.com/i.png"), Some(3841), None, None));
    let e1 = r1.err().unwrap();
    assert!(matches!(e1, AppError::InvalidWidth { width: 3841 }));
    assert_eq!(
        e1.message(),
        "VAL_001: Invalid width - Width must be between 1 and 3840, got 3841"
    );
}

#[test]
fn test_quality_parameter_bounds() {
    let r0 = prepare(params(Some("https://example.com/quality-test.png"), None, Some(0), None));
    let e0 = r0.err().expect("q=0 must be rejected");
    assert!(matches!(e0, AppError::InvalidQuality { quality: 0 }));
    assert_eq!(e0.error_code(), "VAL_002");
    assert_eq!(e0.status_code(), 400);

    let r1 = prepare(params(Some("https://example.com/quality-test.png"), None, Some(101), None));
    let e1 = r1.err().expect("q=101 must be rejected");
    assert!(matches!(e1, AppError::InvalidQuality { quality: 101 }));
    assert_eq!(e1.error_code(), "VAL_002");

    let ok = prepare(params(Some("https://example.com/quality-test.png"), None, Some(100), None));
    assert!(ok.is_ok());
}

#[test]
fn test_quality_defaults_to_75() {
    let pr = prepare(params(Some("https://example.com/i.png"), None, None, None)).unwrap();
    assert_eq!(pr.quality, 75);
}

#[test]
fn test_direct_image_id_format() {
    let valid = direct_image_lookup("f86d5d7ae700c37dd8db36806074f231.png");
    assert!(matches!(&valid, AppError::ImageFetchFailed { url }
        if url == "f86d5d7ae700c37dd8db36806074f231.png"));
    assert_eq!(valid.status_code(), 422);

    let invalid = direct_image_lookup("invalid-id.png");
    assert!(matches!(invalid, AppError::InvalidImageUrl));
    assert_eq!(invalid.status_code(), 400);
}

#[test]
fn test_plasmic_error_format_rfc7807() {
    let err = prepare(params(Some("invalid-url"), None, None, None)).err().unwrap();
    let pd = err.to_response();
    assert_eq!(
        pd.error_type,
        "https://github.com/fgribreau/plasmic-img-optimizer/errors/IMG_001"
    );
    assert_eq!(pd.title, "Bad Request");
    assert_eq!(pd.status, 400);
    assert_eq!(pd.detail, "IMG_001: Invalid image URL - The provided URL is not valid");
    assert!(pd.instance.is_none());
    assert_eq!(pd.error_code, "IMG_001");
    assert_eq!(pd.how_to_fix, "Provide a valid URL starting with http:// or https://");
    assert_eq!(
        pd.more_info,
        "https://github.com/fgribreau/plasmic-img-optimizer#error-img_001"
    );
}

#[test]
fn test_list_all_errors_catalog() {
    let all = AppError::list_all_errors();
    assert_eq!(all.len(), 11);
    assert_eq!(
        all[0],
        "IMG_001: IMG_001: Invalid image URL - The provided URL is not valid"
    );
    assert_eq!(
        all[5],
        "VAL_001: VAL_001: Invalid width - Width must be between 1 and 3840, got 0"
    );
    assert_eq!(
        all[1],
        "IMG_002: IMG_002: Image fetch failed - Unable to download image from "
    );
}

#[test]
fn test_error_messages_with_context() {
    let e = AppError::ImageFetchFailed { url: "https://x.example/a.png".to_string() };
    assert_eq!(
        e.message(),
        "IMG_002: Image fetch failed - Unable to download image from https://x.example/a.png"
    );
    assert_eq!(e.status_code(), 422);

    let e = AppError::InvalidImageFormat { format: "gif".to_string() };
    assert_eq!(e.message(), "IMG_004: Invalid image format - Format 'gif' is not supported");
    assert_eq!(
        e.how_to_fix(),
        "Use one of the supported formats: jpeg, jpg, png, webp. Got 'gif'"
    );

    let e = AppError::MissingRequiredParameter { param: "src".to_string() };
    assert_eq!(e.message(), "VAL_003: Missing required parameter - src is required");
    assert_eq!(e.how_to_fix(), "Include the 'src' parameter in your request");

    assert_eq!(AppError::CacheError { reason: "boom".to_string() }.error_code(), "CACHE_001");
    assert_eq!(AppError::CacheError { reason: "boom".to_string() }.status_code(), 422);
    assert_eq!(AppError::InternalServerError.error_code(), "SYS_001");
    assert_eq!(AppError::InternalServerError.status_code(), 500);
    assert_eq!(AppError::ServiceUnavailable.error_code(), "SYS_002");
    assert_eq!(AppError::ServiceUnavailable.status_code(), 503);
    assert_eq!(AppError::ImageTooLarge.error_code(), "IMG_005");
    assert_eq!(AppError::ImageTooLarge.status_code(), 422);
}

#[test]
fn test_cache_key_matches_sha256_of_concatenation() {
    let key = generate_cache_key("https://e.x/a.png", Some(100), 80, Some("webp"));
    let expected = hex::encode(sha2::Sha256::digest("https://e.x/a.png10080webp".as_bytes()));
    assert_eq!(key, expected);

    let key2 = generate_cache_key("https://e.x/a.png", None, 75, None);
    let expected2 = hex::encode(sha2::Sha256::digest("https://e.x/a.png75".as_bytes()));
    assert_eq!(key2, expected2);
}

#[test]
fn test_cache_key_deterministic() {
    let a = generate_cache_key("https://example.com/x.png", Some(640), 75, Some("jpeg"));
    let b = generate_cache_key("https://example.com/x.png", Some(640), 75, Some("jpeg"));
    assert_eq!(a, b);
    assert_eq!(a.len(), 64);
}

#[test]
fn test_cache_key_sensitivity() {
    let base = generate_cache_key("https://example.com/x.png", Some(640), 75, Some("jpeg"));
    assert_ne!(base, generate_cache_key("https://example.com/y.png", Some(640), 75, Some("jpeg")));
    assert_ne!(base, generate_cache_key("https://example.com/x.png", Some(641), 75, Some("jpeg")));
    assert_ne!(base, generate_cache_key("https://example.com/x.png", None, 75, Some("jpeg")));
    assert_ne!(base, generate_cache_key("https://example.com/x.png", Some(640), 76, Some("jpeg")));
    assert_ne!(base, generate_cache_key("https://example.com/x.png", Some(640), 75, Some("png")));
    assert_ne!(base, generate_cache_key("https://example.com/x.png", Some(640), 75, None));
}

#[test]
fn test_guess_content_type() {
    assert_eq!(guess_content_type(&[0u8; 5]), "application/octet-stream");
    let jpeg = [0xff, 0xd8, 0xff, 0xe0, 0, 0, 0, 0, 0, 0, 0, 0];
    assert_eq!(guess_content_type(&jpeg), "image/jpeg");
    let png = [0x89, 0x50, 0x4e, 0x47, 0x0d, 0x0a, 0x1a, 0x0a, 0, 0, 0, 13];
    assert_eq!(guess_content_type(&png), "image/png");
    let webp = [0x52, 0x49, 0x46, 0x46, 1, 2, 3, 4, 0x57, 0x45, 0x42, 0x50];
    assert_eq!(guess_content_type(&webp), "image/webp");
    let other = [1u8, 2, 3, 4, 5, 6, 7, 8, 9, 10, 11, 12];
    assert_eq!(guess_content_type(&other), "application/octet-stream");
}

#[test]
fn test_parse_decimal_values() {
    assert_eq!(parse_u32("42"), Some(42));
    assert_eq!(parse_u32("+42"), Some(42));
    assert_eq!(parse_u32("4294967295"), Some(u32::MAX));
    assert_eq!(parse_u32("4294967296"), None);
    assert_eq!(parse_u32(""), None);
    assert_eq!(parse_u32("+"), None);
    assert_eq!(parse_u32("1a"), None);
    assert_eq!(parse_u32("-1"), None);
    assert_eq!(parse_u8("255"), Some(255));
    assert_eq!(parse_u8("256"), None);
    assert_eq!(parse_u8("0"), Some(0));
}

#[test]
fn test_collect_params_last_wins() {
    let pairs: Vec<(String, String)> = vec![
        ("src".to_string(), "https://example.com/a.png".to_string()),
        ("w".to_string(), "100".to_string()),
        ("q".to_string(), "80".to_string()),
        ("other".to_string(), "ignored".to_string()),
        ("w".to_string(), "abc".to_string()),
        ("f".to_string(), "webp".to_string()),
    ];
    let p = collect_params(&pairs);
    assert_eq!(p.src.as_deref(), Some("https://example.com/a.png"));
    assert_eq!(p.w, None, "an unparseable later value clears the field");
    assert_eq!(p.q, Some(80));
    assert_eq!(p.f.as_deref(), Some("webp"));
}

#[test]
fn test_cache_functionality() {
    let mut cache = ImageCache::new();
    let key = generate_cache_key("https://example.com/cached-image.png", Some(100), 75, None);
    assert!(cache.get(&key).is_none());
    let body = vec![1u8, 2, 3, 4];
    cache.put(key.clone(), body.clone());
    assert_eq!(cache.get(&key), Some(body.clone()));
    // A later write under the same key wins.
    let body2 = vec![9u8, 8, 7];
    cache.put(key.clone(), body2.clone());
    assert_eq!(cache.get(&key), Some(body2));
    // Other keys are untouched.
    assert!(cache.get("some-other-key").is_none());
}
