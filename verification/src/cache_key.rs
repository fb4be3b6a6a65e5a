//! Deterministic cache-key derivation: the key is the lowercase hex digest of
//! the SHA-256 of the request fields, concatenated with no delimiters and
//! with absent fields omitted entirely. The concatenation order and omission
//! rule are part of the compatibility surface of a shared store.

use crate::decimal::dec_chars;
use crate::decimal::lemma_dec_chars_injective;
use crate::decimal::lemma_dec_chars_nonempty;
use crate::decimal::u32_to_dec_string;
use crate::text::lemma_encode_utf8_injective;
use sha2::Digest;
use vstd::prelude::*;
use vstd::string::StringExecFns;
use vstd::string::StringSliceAdditionalSpecFns;
use vstd::utf8::encode_utf8;

verus! {

/// What SHA-256 returns for a byte sequence; a function of the bytes alone.
pub uninterp spec fn sha256_of(data: Seq<u8>) -> Seq<u8>;

/// Relies on sha2's `Sha256`: the digest depends on the input bytes alone
/// and is always 32 bytes long.
#[verifier::external_body]
fn sha256_bytes(data: &[u8]) -> (r: Vec<u8>)
    ensures
        r@ == sha256_of(data@),
        r@.len() == 32,
{
    sha2::Sha256::digest(data).to_vec()
}

/// The character for a single hex digit, lower case.
pub open spec fn hex_digit_char(d: int) -> char {
    if d < 10 {
        crate::decimal::digit_char(d)
    } else if d == 10 {
        'a'
    } else if d == 11 {
        'b'
    } else if d == 12 {
        'c'
    } else if d == 13 {
        'd'
    } else if d == 14 {
        'e'
    } else {
        'f'
    }
}

/// Lowercase hex rendering: two digits per byte, high nibble first.
pub open spec fn hex_chars(data: Seq<u8>) -> Seq<char>
    decreases data.len(),
{
    if data.len() == 0 {
        Seq::empty()
    } else {
        seq![
            hex_digit_char(data[0] as int / 16),
            hex_digit_char(data[0] as int % 16),
        ] + hex_chars(data.drop_first())
    }
}

pub proof fn lemma_hex_chars_len(data: Seq<u8>)
    ensures
        hex_chars(data).len() == 2 * data.len(),
    decreases data.len(),
{
    if data.len() > 0 {
        lemma_hex_chars_len(data.drop_first());
    }
}

/// Relies on hex::encode: each byte becomes exactly two lowercase hex
/// digits, high nibble first.
#[verifier::external_body]
fn hex_encode(data: &[u8]) -> (r: String)
    ensures
        r@ == hex_chars(data@),
{
    hex::encode(data)
}

/// The view of an optional borrowed string.
pub open spec fn opt_str_view(s: Option<&str>) -> Option<Seq<char>> {
    match s {
        Some(f) => Some(f@),
        None => None,
    }
}

/// The characters hashed for a request: source URL, then the decimal width
/// if present, then the decimal quality (always present, the default applied
/// beforehand), then the format if present; nothing between them.
pub open spec fn key_source_chars(
    src: Seq<char>,
    width: Option<u32>,
    quality: u8,
    format: Option<Seq<char>>,
) -> Seq<char> {
    src + (match width {
        Some(w) => dec_chars(w as nat),
        None => Seq::empty(),
    }) + dec_chars(quality as nat) + (match format {
        Some(f) => f,
        None => Seq::empty(),
    })
}

/// The exact byte sequence handed to SHA-256.
pub open spec fn digest_input(
    src: Seq<char>,
    width: Option<u32>,
    quality: u8,
    format: Option<Seq<char>>,
) -> Seq<u8> {
    encode_utf8(key_source_chars(src, width, quality, format))
}

/// The cache key of a request.
pub open spec fn cache_key_chars(
    src: Seq<char>,
    width: Option<u32>,
    quality: u8,
    format: Option<Seq<char>>,
) -> Seq<char> {
    hex_chars(sha256_of(digest_input(src, width, quality, format)))
}

/// Derives the cache key of a request.
pub fn generate_cache_key(
    src: &str,
    width: Option<u32>,
    quality: u8,
    format: Option<&str>,
) -> (r: String)
    ensures
        r@ == cache_key_chars(src@, width, quality, opt_str_view(format)),
        r@.len() == 64,
{
    let mut material = String::from_str(src);
    if let Some(w) = width {
        let ws = u32_to_dec_string(w);
        material.append(ws.as_str());
    }
    let qs = u32_to_dec_string(quality as u32);
    material.append(qs.as_str());
    if let Some(f) = format {
        material.append(f);
    }
    proof {
        assert(material@ =~= key_source_chars(src@, width, quality, opt_str_view(format)));
    }
    let digest = sha256_bytes(material.as_str().as_bytes());
    proof {
        lemma_hex_chars_len(digest@);
    }
    hex_encode(digest.as_slice())
}

/// Determinism law: the cache key is a function of the four request fields
/// alone, so repeated derivations for the same request agree.
pub proof fn lemma_cache_key_deterministic(
    src1: Seq<char>,
    width1: Option<u32>,
    quality1: u8,
    format1: Option<Seq<char>>,
    src2: Seq<char>,
    width2: Option<u32>,
    quality2: u8,
    format2: Option<Seq<char>>,
)
    requires
        src1 == src2,
        width1 == width2,
        quality1 == quality2,
        format1 == format2,
    ensures
        cache_key_chars(src1, width1, quality1, format1) == cache_key_chars(
            src2,
            width2,
            quality2,
            format2,
        ),
{
}

proof fn lemma_append_cancel_right(a1: Seq<char>, a2: Seq<char>, s: Seq<char>)
    requires
        a1 + s == a2 + s,
    ensures
        a1 == a2,
{
    assert((a1 + s).len() == a1.len() + s.len());
    assert((a2 + s).len() == a2.len() + s.len());
    assert forall|i: int| 0 <= i < a1.len() implies a1[i] == a2[i] by {
        assert((a1 + s)[i] == a1[i]);
        assert((a2 + s)[i] == a2[i]);
    }
    assert(a1 =~= a2);
}

proof fn lemma_append_cancel_left(p: Seq<char>, s1: Seq<char>, s2: Seq<char>)
    requires
        p + s1 == p + s2,
    ensures
        s1 == s2,
{
    assert((p + s1).len() == p.len() + s1.len());
    assert((p + s2).len() == p.len() + s2.len());
    assert forall|i: int| 0 <= i < s1.len() implies s1[i] == s2[i] by {
        assert((p + s1)[p.len() + i] == s1[i]);
        assert((p + s2)[p.len() + i] == s2[i]);
    }
    assert(s1 =~= s2);
}

/// The width segment of the hashed characters.
pub open spec fn width_seg(width: Option<u32>) -> Seq<char> {
    match width {
        Some(w) => dec_chars(w as nat),
        None => Seq::empty(),
    }
}

/// The format segment of the hashed characters.
pub open spec fn format_seg(format: Option<Seq<char>>) -> Seq<char> {
    match format {
        Some(f) => f,
        None => Seq::empty(),
    }
}

proof fn lemma_key_source_regroup(
    src: Seq<char>,
    width: Option<u32>,
    quality: u8,
    format: Option<Seq<char>>,
)
    ensures
        key_source_chars(src, width, quality, format) == src + (width_seg(width) + (dec_chars(
            quality as nat,
        ) + format_seg(format))),
{
    assert(key_source_chars(src, width, quality, format) =~= src + (width_seg(width) + (dec_chars(
        quality as nat,
    ) + format_seg(format))));
}

/// Sensitivity law for the source URL: with the other fields fixed, two
/// different source strings are hashed from different digest inputs.
pub proof fn lemma_key_sensitive_src(
    src1: Seq<char>,
    src2: Seq<char>,
    width: Option<u32>,
    quality: u8,
    format: Option<Seq<char>>,
)
    requires
        src1 != src2,
    ensures
        digest_input(src1, width, quality, format) != digest_input(src2, width, quality, format),
{
    let rest = width_seg(width) + (dec_chars(quality as nat) + format_seg(format));
    if digest_input(src1, width, quality, format) == digest_input(src2, width, quality, format) {
        lemma_encode_utf8_injective(
            key_source_chars(src1, width, quality, format),
            key_source_chars(src2, width, quality, format),
        );
        lemma_key_source_regroup(src1, width, quality, format);
        lemma_key_source_regroup(src2, width, quality, format);
        assert(src1 + rest == src2 + rest);
        lemma_append_cancel_right(src1, src2, rest);
    }
}

/// Sensitivity law for the width: with the other fields fixed, changing the
/// width, or toggling its presence, changes the digest input.
pub proof fn lemma_key_sensitive_width(
    src: Seq<char>,
    width1: Option<u32>,
    width2: Option<u32>,
    quality: u8,
    format: Option<Seq<char>>,
)
    requires
        width1 != width2,
    ensures
        digest_input(src, width1, quality, format) != digest_input(src, width2, quality, format),
{
    let tail = dec_chars(quality as nat) + format_seg(format);
    if digest_input(src, width1, quality, format) == digest_input(src, width2, quality, format) {
        lemma_encode_utf8_injective(
            key_source_chars(src, width1, quality, format),
            key_source_chars(src, width2, quality, format),
        );
        lemma_key_source_regroup(src, width1, quality, format);
        lemma_key_source_regroup(src, width2, quality, format);
        assert(src + (width_seg(width1) + tail) == src + (width_seg(width2) + tail));
        lemma_append_cancel_left(src, width_seg(width1) + tail, width_seg(width2) + tail);
        lemma_append_cancel_right(width_seg(width1), width_seg(width2), tail);
        match (width1, width2) {
            (Some(w1), Some(w2)) => {
                lemma_dec_chars_injective(w1 as nat, w2 as nat);
            },
            (Some(w1), None) => {
                lemma_dec_chars_nonempty(w1 as nat);
            },
            (None, Some(w2)) => {
                lemma_dec_chars_nonempty(w2 as nat);
            },
            (None, None) => {},
        }
    }
}

/// Sensitivity law for the quality: with the other fields fixed, two
/// different quality values are hashed from different digest inputs.
pub proof fn lemma_key_sensitive_quality(
    src: Seq<char>,
    width: Option<u32>,
    quality1: u8,
    quality2: u8,
    format: Option<Seq<char>>,
)
    requires
        quality1 != quality2,
    ensures
        digest_input(src, width, quality1, format) != digest_input(src, width, quality2, format),
{
    if digest_input(src, width, quality1, format) == digest_input(src, width, quality2, format) {
        lemma_encode_utf8_injective(
            key_source_chars(src, width, quality1, format),
            key_source_chars(src, width, quality2, format),
        );
        lemma_key_source_regroup(src, width, quality1, format);
        lemma_key_source_regroup(src, width, quality2, format);
        lemma_append_cancel_left(
            src,
            width_seg(width) + (dec_chars(quality1 as nat) + format_seg(format)),
            width_seg(width) + (dec_chars(quality2 as nat) + format_seg(format)),
        );
        lemma_append_cancel_left(
            width_seg(width),
            dec_chars(quality1 as nat) + format_seg(format),
            dec_chars(quality2 as nat) + format_seg(format),
        );
        lemma_append_cancel_right(
            dec_chars(quality1 as nat),
            dec_chars(quality2 as nat),
            format_seg(format),
        );
        lemma_dec_chars_injective(quality1 as nat, quality2 as nat);
    }
}

/// Sensitivity law for the format: with the other fields fixed, two
/// different format strings are hashed from different digest inputs, and so
/// is a present format against an absent one, provided the present one is
/// not the empty string (appending an empty format leaves the hashed bytes
/// as they are, so that toggle alone cannot change the key).
pub proof fn lemma_key_sensitive_format(
    src: Seq<char>,
    width: Option<u32>,
    quality: u8,
    format1: Option<Seq<char>>,
    format2: Option<Seq<char>>,
)
    requires
        match (format1, format2) {
            (Some(f1), Some(f2)) => f1 != f2,
            (Some(f1), None) => f1.len() > 0,
            (None, Some(f2)) => f2.len() > 0,
            (None, None) => false,
        },
    ensures
        digest_input(src, width, quality, format1) != digest_input(src, width, quality, format2),
{
    if digest_input(src, width, quality, format1) == digest_input(src, width, quality, format2) {
        lemma_encode_utf8_injective(
            key_source_chars(src, width, quality, format1),
            key_source_chars(src, width, quality, format2),
        );
        lemma_key_source_regroup(src, width, quality, format1);
        lemma_key_source_regroup(src, width, quality, format2);
        lemma_append_cancel_left(
            src,
            width_seg(width) + (dec_chars(quality as nat) + format_seg(format1)),
            width_seg(width) + (dec_chars(quality as nat) + format_seg(format2)),
        );
        lemma_append_cancel_left(
            width_seg(width),
            dec_chars(quality as nat) + format_seg(format1),
            dec_chars(quality as nat) + format_seg(format2),
        );
        lemma_append_cancel_left(
            dec_chars(quality as nat),
            format_seg(format1),
            format_seg(format2),
        );
    }
}

} // verus!
