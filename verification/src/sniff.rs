//! Content-type sniffing: the media type of a byte buffer is inferred from
//! its leading signature bytes, never from declared metadata, so the cache
//! need not persist a content type alongside the bytes.

use vstd::prelude::*;

verus! {

/// The buffer opens with the JPEG start-of-image marker.
pub open spec fn is_jpeg_sig(data: Seq<u8>) -> bool {
    &&& data.len() >= 3
    &&& data[0] == 0xff
    &&& data[1] == 0xd8
    &&& data[2] == 0xff
}

/// The buffer opens with the eight-byte PNG signature.
pub open spec fn is_png_sig(data: Seq<u8>) -> bool {
    &&& data.len() >= 8
    &&& data[0] == 0x89
    &&& data[1] == 0x50
    &&& data[2] == 0x4e
    &&& data[3] == 0x47
    &&& data[4] == 0x0d
    &&& data[5] == 0x0a
    &&& data[6] == 0x1a
    &&& data[7] == 0x0a
}

/// The buffer opens with a RIFF container holding a WEBP payload.
pub open spec fn is_webp_sig(data: Seq<u8>) -> bool {
    &&& data.len() >= 12
    &&& data[0] == 0x52
    &&& data[1] == 0x49
    &&& data[2] == 0x46
    &&& data[3] == 0x46
    &&& data[8] == 0x57
    &&& data[9] == 0x45
    &&& data[10] == 0x42
    &&& data[11] == 0x50
}

/// The media type that sniffing assigns to a buffer: buffers shorter than 12
/// bytes, and buffers matching no known signature, fall back to the opaque
/// `application/octet-stream`.
pub open spec fn content_type_chars(data: Seq<u8>) -> Seq<char> {
    if data.len() < 12 {
        "application/octet-stream"@
    } else if is_jpeg_sig(data) {
        "image/jpeg"@
    } else if is_png_sig(data) {
        "image/png"@
    } else if is_webp_sig(data) {
        "image/webp"@
    } else {
        "application/octet-stream"@
    }
}

/// Sniffs the media type of `data` from its leading bytes.
pub fn guess_content_type(data: &[u8]) -> (r: &'static str)
    ensures
        r@ == content_type_chars(data@),
{
    if data.len() < 12 {
        return "application/octet-stream";
    }
    if data[0] == 0xff && data[1] == 0xd8 && data[2] == 0xff {
        "image/jpeg"
    } else if data[0] == 0x89 && data[1] == 0x50 && data[2] == 0x4e && data[3] == 0x47 && data[4]
        == 0x0d && data[5] == 0x0a && data[6] == 0x1a && data[7] == 0x0a {
        "image/png"
    } else if data[0] == 0x52 && data[1] == 0x49 && data[2] == 0x46 && data[3] == 0x46 && data[8]
        == 0x57 && data[9] == 0x45 && data[10] == 0x42 && data[11] == 0x50 {
        "image/webp"
    } else {
        "application/octet-stream"
    }
}

} // verus!
