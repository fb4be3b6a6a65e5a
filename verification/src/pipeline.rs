//! The request pipeline: parameter validation, cache-key derivation, and the
//! orchestration of lookup, bounded fetch, transform and store, expressed as
//! a state machine. The surrounding process performs the cache and network
//! work and feeds each outcome back as an event; every decision in between
//! is made, and verified, here.

use crate::cache_key::cache_key_chars;
use crate::cache_key::generate_cache_key;
use crate::error::AppError;
use crate::image_processor::transform_post;
use crate::image_processor::ImageProcessor;
use crate::sniff::content_type_chars;
use crate::sniff::guess_content_type;
use crate::text::str_eq;
use crate::DEFAULT_QUALITY;
use crate::MAX_IMAGE_SIZE;
use crate::MAX_WIDTH;
use vstd::prelude::*;
use vstd::string::StrSliceExecFns;
use vstd::string::StringExecFns;

verus! {

/// The raw, still unvalidated request fields, as the transport hands them in.
#[derive(Debug)]
pub struct ImageParams {
    pub src: Option<String>,
    pub w: Option<u32>,
    pub q: Option<u8>,
    pub f: Option<String>,
}

/// A simple error payload some transports prefer over problem details.
pub struct ErrorResponse {
    pub error: String,
    pub message: Option<String>,
}

/// What url's parser finds in the string, when the string parses as an
/// absolute URL at all: its scheme and its path, in that order; a function
/// of the characters alone.
pub uninterp spec fn url_parts_of(s: Seq<char>) -> Option<(Seq<char>, Seq<char>)>;

/// Relies on `url::Url::parse`, `Url::scheme` and `Url::path`: whether a
/// string parses, and the scheme and path found in it, depend on the string
/// alone and are handed back as they are.
#[verifier::external_body]
fn parse_url_parts(s: &str) -> (r: Option<(String, String)>)
    ensures
        r is Some <==> url_parts_of(s@) is Some,
        r matches Some(p) ==> url_parts_of(s@) == Some((p.0@, p.1@)),
{
    match url::Url::parse(s) {
        Ok(u) => Some((u.scheme().to_string(), u.path().to_string())),
        Err(_) => None,
    }
}

/// What `str::to_lowercase` returns; a function of the characters alone.
pub uninterp spec fn lower_of(s: Seq<char>) -> Seq<char>;

/// Relies on `str::to_lowercase`: the lowercased form depends on the
/// characters alone, and an empty string stays empty.
#[verifier::external_body]
fn lowercase(s: &str) -> (r: String)
    ensures
        r@ == lower_of(s@),
        s@.len() == 0 ==> r@.len() == 0,
{
    s.to_lowercase()
}

/// The string ends with the four characters `.svg`.
pub open spec fn has_svg_suffix(s: Seq<char>) -> bool {
    &&& s.len() >= 4
    &&& s[s.len() - 4] == '.'
    &&& s[s.len() - 3] == 's'
    &&& s[s.len() - 2] == 'v'
    &&& s[s.len() - 1] == 'g'
}

/// A source is refused as SVG when the lowercased path of its parsed URL
/// ends in `.svg`.
pub open spec fn is_svg_source(src: Seq<char>) -> bool {
    match url_parts_of(src) {
        Some(p) => has_svg_suffix(lower_of(p.1)),
        None => false,
    }
}

fn ends_with_svg(s: &str) -> (r: bool)
    ensures
        r == has_svg_suffix(s@),
{
    let n = s.unicode_len();
    if n < 4 {
        return false;
    }
    let c1 = s.get_char(n - 4);
    let c2 = s.get_char(n - 3);
    let c3 = s.get_char(n - 2);
    let c4 = s.get_char(n - 1);
    c1 == '.' && c2 == 's' && c3 == 'v' && c4 == 'g'
}

/// The source string parses as an absolute URL with scheme http or https.
pub open spec fn is_valid_src(src: Seq<char>) -> bool {
    match url_parts_of(src) {
        Some(p) => p.0 == "http"@ || p.0 == "https"@,
        None => false,
    }
}

/// A validated request: every field within bounds, the quality defaulted,
/// and the cache key already derived from the four fields.
#[derive(Debug)]
pub struct PreparedRequest {
    pub src: String,
    pub width: Option<u32>,
    pub quality: u8,
    pub format: Option<String>,
    pub key: String,
}

/// The view of an optional owned string.
pub open spec fn opt_string_view(s: Option<String>) -> Option<Seq<char>> {
    match s {
        Some(x) => Some(x@),
        None => None,
    }
}

/// The prepared request carries the validated fields unchanged, the
/// defaulted quality, and the cache key derived from exactly those fields.
pub open spec fn prepared_matches(
    pr: PreparedRequest,
    src: Seq<char>,
    w: Option<u32>,
    q: Option<u8>,
    f: Option<Seq<char>>,
) -> bool {
    &&& pr.src@ == src
    &&& pr.width == w
    &&& pr.quality == (match q {
        Some(x) => x,
        None => DEFAULT_QUALITY,
    })
    &&& opt_string_view(pr.format) == f
    &&& pr.key@ == cache_key_chars(src, w, pr.quality, f)
}

/// The full outcome of validation: which error each rejected input yields,
/// and what a prepared request holds for every accepted one. The gates fire
/// in order: missing source, unparseable or non-http(s) source, a source
/// whose URL path names an SVG file, width out of 1..=3840, quality out of
/// 1..=100.
pub open spec fn validation_post(
    params: &ImageParams,
    r: Result<PreparedRequest, AppError>,
) -> bool {
    match params.src {
        None => r matches Err(AppError::MissingRequiredParameter { param }) && param@ == "src"@,
        Some(src) => if !is_valid_src(src@) {
            r matches Err(AppError::InvalidImageUrl)
        } else if is_svg_source(src@) {
            r matches Err(AppError::InvalidImageFormat { format }) && format@ == "svg"@
        } else if params.w matches Some(w) && (w == 0 || w > MAX_WIDTH) {
            r matches Err(AppError::InvalidWidth { width }) && params.w == Some(width)
        } else if params.q matches Some(q) && (q == 0 || q > 100) {
            r matches Err(AppError::InvalidQuality { quality }) && params.q == Some(quality)
        } else {
            r matches Ok(pr) && prepared_matches(
                pr,
                src@,
                params.w,
                params.q,
                opt_string_view(params.f),
            )
        },
    }
}

/// Validates the request fields and derives the cache key. Validation is
/// cheap and happens before any network or pixel work.
pub fn prepare(params: ImageParams) -> (r: Result<PreparedRequest, AppError>)
    ensures
        validation_post(&params, r),
{
    let src = match params.src {
        Some(s) => s,
        None => {
            return Err(AppError::MissingRequiredParameter { param: String::from_str("src") });
        },
    };
    let (scheme, path) = match parse_url_parts(src.as_str()) {
        Some(p) => p,
        None => {
            return Err(AppError::InvalidImageUrl);
        },
    };
    if !(str_eq(scheme.as_str(), "http") || str_eq(scheme.as_str(), "https")) {
        return Err(AppError::InvalidImageUrl);
    }
    let low = lowercase(path.as_str());
    if ends_with_svg(low.as_str()) {
        return Err(AppError::InvalidImageFormat { format: String::from_str("svg") });
    }
    let width = match params.w {
        Some(w) => {
            if w == 0 || w > MAX_WIDTH {
                return Err(AppError::InvalidWidth { width: w });
            }
            Some(w)
        },
        None => None,
    };
    let quality = match params.q {
        Some(q) => {
            if q == 0 || q > 100 {
                return Err(AppError::InvalidQuality { quality: q });
            }
            q
        },
        None => DEFAULT_QUALITY,
    };
    let format_ref = match &params.f {
        Some(f) => Some(f.as_str()),
        None => None,
    };
    let key = generate_cache_key(src.as_str(), width, quality, format_ref);
    Ok(PreparedRequest { src, width, quality, format: params.f, key })
}

/// Where a single request stands: states are what the surrounding process
/// reads to know which outside operation to perform next.
#[derive(Debug)]
pub enum PipelineState {
    /// Nothing has happened yet; feed `Begin`.
    Ready,
    /// Look the key up in the store and feed `CacheHit` or `CacheMiss`.
    Lookup { req: PreparedRequest },
    /// Fetch the source URL, feeding each body chunk, then `FetchDone`;
    /// a transport failure or a non-2xx status is `FetchFailed`.
    Fetching { req: PreparedRequest, buf: Vec<u8> },
    /// Store the body under the key (best effort) and feed `StoreDone`.
    Storing { key: String, body: Vec<u8> },
    /// The response: the encoded bytes and their sniffed content type.
    Done { body: Vec<u8>, content_type: String },
    /// The request failed; nothing is stored and no bytes are returned.
    Failed { err: AppError },
}

/// What the outside world reports back into the pipeline.
#[derive(Debug)]
pub enum PipelineEvent {
    Begin { params: ImageParams },
    CacheHit { data: Vec<u8> },
    CacheMiss,
    Chunk { data: Vec<u8> },
    FetchDone,
    FetchFailed,
    StoreDone,
}

/// The states are well formed: a fetch buffer never exceeds the size cap.
pub open spec fn state_wf(state: &PipelineState) -> bool {
    match state {
        PipelineState::Fetching { buf, .. } => buf@.len() <= MAX_IMAGE_SIZE,
        _ => true,
    }
}

/// Drives one transition of the pipeline. Every decision of the request
/// flow is here: validation on `Begin`, the immediate response on a cache
/// hit, the running size check on each fetched chunk, the transform when
/// the fetch completes, and the response after the store. An event that its
/// state does not expect is an internal error.
pub fn step(state: PipelineState, event: PipelineEvent) -> (next: PipelineState)
    ensures
        state_wf(&state) ==> state_wf(&next),
        match (state, event) {
            (PipelineState::Ready, PipelineEvent::Begin { params }) => match next {
                PipelineState::Lookup { req } => validation_post(&params, Ok(req)),
                PipelineState::Failed { err } => validation_post(&params, Err(err)),
                _ => false,
            },
            (PipelineState::Lookup { req }, PipelineEvent::CacheHit { data }) => next matches
                PipelineState::Done { body, content_type } && body@ == data@ && content_type@
                == content_type_chars(data@),
            (PipelineState::Lookup { req }, PipelineEvent::CacheMiss) => next matches
                PipelineState::Fetching { req: r2, buf } && r2 == req && buf@ == Seq::<
                u8,
            >::empty(),
            (PipelineState::Fetching { req, buf }, PipelineEvent::Chunk { data }) => {
                if buf@.len() + data@.len() > MAX_IMAGE_SIZE {
                    next matches PipelineState::Failed { err: AppError::ImageTooLarge }
                } else {
                    next matches PipelineState::Fetching { req: r2, buf: b2 } && r2 == req
                        && b2@ == buf@ + data@
                }
            },
            (PipelineState::Fetching { req, buf }, PipelineEvent::FetchFailed) => next matches
                PipelineState::Failed { err: AppError::ImageFetchFailed { url } } && url@
                == req.src@,
            (PipelineState::Fetching { req, buf }, PipelineEvent::FetchDone) => match next {
                PipelineState::Storing { key, body } => key@ == req.key@ && transform_post(
                    buf@,
                    req.width,
                    req.quality,
                    opt_string_view(req.format),
                    Ok(body),
                ),
                PipelineState::Failed { err } => transform_post(
                    buf@,
                    req.width,
                    req.quality,
                    opt_string_view(req.format),
                    Err(err),
                ),
                _ => false,
            },
            (PipelineState::Storing { key, body }, PipelineEvent::StoreDone) => next matches
                PipelineState::Done { body: b2, content_type } && b2@ == body@ && content_type@
                == content_type_chars(body@),
            _ => next matches PipelineState::Failed { err: AppError::InternalServerError },
        },
{
    match (state, event) {
        (PipelineState::Ready, PipelineEvent::Begin { params }) => {
            match prepare(params) {
                Ok(req) => PipelineState::Lookup { req },
                Err(err) => PipelineState::Failed { err },
            }
        },
        (PipelineState::Lookup { req: _ }, PipelineEvent::CacheHit { data }) => {
            let ct = guess_content_type(data.as_slice());
            PipelineState::Done { body: data, content_type: String::from_str(ct) }
        },
        (PipelineState::Lookup { req }, PipelineEvent::CacheMiss) => {
            PipelineState::Fetching { req, buf: Vec::new() }
        },
        (PipelineState::Fetching { req, buf }, PipelineEvent::Chunk { data }) => {
            if data.len() > MAX_IMAGE_SIZE || buf.len() > MAX_IMAGE_SIZE - data.len() {
                PipelineState::Failed { err: AppError::ImageTooLarge }
            } else {
                let mut b = buf;
                let ghost b0 = b@;
                let n = data.len();
                let mut k: usize = 0;
                while k < n
                    invariant
                        0 <= k <= n,
                        n == data@.len(),
                        b@ == b0 + data@.take(k as int),
                    decreases n - k,
                {
                    b.push(data[k]);
                    k = k + 1;
                    proof {
                        assert(b@ =~= b0 + data@.take(k as int));
                    }
                }
                proof {
                    assert(data@.take(n as int) =~= data@);
                }
                PipelineState::Fetching { req, buf: b }
            }
        },
        (PipelineState::Fetching { req, buf: _ }, PipelineEvent::FetchFailed) => {
            PipelineState::Failed { err: AppError::ImageFetchFailed { url: req.src } }
        },
        (PipelineState::Fetching { req, buf }, PipelineEvent::FetchDone) => {
            let format_ref = match &req.format {
                Some(f) => Some(f.as_str()),
                None => None,
            };
            match ImageProcessor::process(buf, req.width, req.quality, format_ref) {
                Ok(body) => PipelineState::Storing { key: req.key, body },
                Err(err) => PipelineState::Failed { err },
            }
        },
        (PipelineState::Storing { key: _, body }, PipelineEvent::StoreDone) => {
            let ct = guess_content_type(body.as_slice());
            PipelineState::Done { body, content_type: String::from_str(ct) }
        },
        _ => PipelineState::Failed { err: AppError::InternalServerError },
    }
}

/// The source field after folding transport key-value pairs in order: the
/// last `src` pair wins.
pub open spec fn folded_src(pairs: Seq<(String, String)>) -> Option<Seq<char>>
    decreases pairs.len(),
{
    if pairs.len() == 0 {
        None
    } else if pairs.last().0@ == "src"@ {
        Some(pairs.last().1@)
    } else {
        folded_src(pairs.drop_last())
    }
}

/// The width field after folding: the last `w` pair wins, and one that does
/// not parse as a decimal number leaves the field absent.
pub open spec fn folded_w(pairs: Seq<(String, String)>) -> Option<u32>
    decreases pairs.len(),
{
    if pairs.len() == 0 {
        None
    } else if pairs.last().0@ == "w"@ {
        crate::decimal::parse_u32_spec(pairs.last().1@)
    } else {
        folded_w(pairs.drop_last())
    }
}

/// The quality field after folding, as `folded_w` for the `q` pairs.
pub open spec fn folded_q(pairs: Seq<(String, String)>) -> Option<u8>
    decreases pairs.len(),
{
    if pairs.len() == 0 {
        None
    } else if pairs.last().0@ == "q"@ {
        crate::decimal::parse_u8_spec(pairs.last().1@)
    } else {
        folded_q(pairs.drop_last())
    }
}

/// The format field after folding: the last `f` pair wins.
pub open spec fn folded_f(pairs: Seq<(String, String)>) -> Option<Seq<char>>
    decreases pairs.len(),
{
    if pairs.len() == 0 {
        None
    } else if pairs.last().0@ == "f"@ {
        Some(pairs.last().1@)
    } else {
        folded_f(pairs.drop_last())
    }
}

/// Folds transport key-value pairs into request parameters: for each known
/// key the last occurrence wins, unknown keys are ignored, and a numeric
/// value that does not parse leaves its field absent.
pub fn collect_params(pairs: &Vec<(String, String)>) -> (r: ImageParams)
    ensures
        opt_string_view(r.src) == folded_src(pairs@),
        r.w == folded_w(pairs@),
        r.q == folded_q(pairs@),
        opt_string_view(r.f) == folded_f(pairs@),
{
    let mut src: Option<String> = None;
    let mut w: Option<u32> = None;
    let mut q: Option<u8> = None;
    let mut f: Option<String> = None;
    let n = pairs.len();
    let mut i: usize = 0;
    while i < n
        invariant
            0 <= i <= n,
            n == pairs@.len(),
            opt_string_view(src) == folded_src(pairs@.take(i as int)),
            w == folded_w(pairs@.take(i as int)),
            q == folded_q(pairs@.take(i as int)),
            opt_string_view(f) == folded_f(pairs@.take(i as int)),
        decreases n - i,
    {
        let pair = &pairs[i];
        proof {
            reveal_strlit("src");
            reveal_strlit("w");
            reveal_strlit("q");
            reveal_strlit("f");
            assert("w"@[0] == 'w' && "q"@[0] == 'q' && "f"@[0] == 'f');
            assert("src"@ != "w"@ && "src"@ != "q"@ && "src"@ != "f"@);
            assert("w"@ != "q"@ && "w"@ != "f"@);
            assert("q"@ != "f"@);
            assert(pairs@.take(i as int + 1).drop_last() =~= pairs@.take(i as int));
            assert(pairs@.take(i as int + 1).last() == pairs@[i as int]);
        }
        if str_eq(pair.0.as_str(), "src") {
            src = Some(pair.1.clone());
        } else if str_eq(pair.0.as_str(), "w") {
            w = crate::decimal::parse_u32(pair.1.as_str());
        } else if str_eq(pair.0.as_str(), "q") {
            q = crate::decimal::parse_u8(pair.1.as_str());
        } else if str_eq(pair.0.as_str(), "f") {
            f = Some(pair.1.clone());
        }
        i = i + 1;
    }
    proof {
        assert(pairs@.take(n as int) =~= pairs@);
    }
    ImageParams { src, w, q, f }
}

/// The character is a lowercase hex digit.
pub open spec fn is_lower_hex_char(c: char) -> bool {
    ('0' <= c && c <= '9') || ('a' <= c && c <= 'f')
}

/// The character is an ASCII word character: a letter, a digit or an
/// underscore.
pub open spec fn is_word_char(c: char) -> bool {
    ('0' <= c && c <= '9') || ('a' <= c && c <= 'z') || ('A' <= c && c <= 'Z') || c == '_'
}

/// The identifier grammar of the direct-image endpoint: exactly 32 lowercase
/// hex characters, a dot, then a nonempty extension of word characters.
pub open spec fn is_valid_image_id_chars(s: Seq<char>) -> bool {
    &&& s.len() >= 34
    &&& forall|i: int| 0 <= i < 32 ==> is_lower_hex_char(#[trigger] s[i])
    &&& s[32] == '.'
    &&& forall|i: int| 33 <= i < s.len() ==> is_word_char(#[trigger] s[i])
}

fn is_lower_hex(c: char) -> (r: bool)
    ensures
        r == is_lower_hex_char(c),
{
    ('0' <= c && c <= '9') || ('a' <= c && c <= 'f')
}

fn is_word(c: char) -> (r: bool)
    ensures
        r == is_word_char(c),
{
    ('0' <= c && c <= '9') || ('a' <= c && c <= 'z') || ('A' <= c && c <= 'Z') || c == '_'
}

/// Whether a path segment is a well-formed direct-image identifier.
pub fn is_valid_image_id(s: &str) -> (r: bool)
    ensures
        r == is_valid_image_id_chars(s@),
{
    let n = s.unicode_len();
    if n < 34 {
        return false;
    }
    let mut i: usize = 0;
    while i < 32
        invariant
            0 <= i <= 32,
            n == s@.len(),
            n >= 34,
            forall|j: int| 0 <= j < i ==> is_lower_hex_char(#[trigger] s@[j]),
        decreases 32 - i,
    {
        if !is_lower_hex(s.get_char(i)) {
            return false;
        }
        i = i + 1;
    }
    if s.get_char(32) != '.' {
        return false;
    }
    let mut j: usize = 33;
    while j < n
        invariant
            33 <= j <= n,
            n == s@.len(),
            n >= 34,
            forall|k: int| 33 <= k < j ==> is_word_char(#[trigger] s@[k]),
        decreases n - j,
    {
        if !is_word(s.get_char(j)) {
            return false;
        }
        j = j + 1;
    }
    proof {
        assert(forall|i: int| 0 <= i < 32 ==> is_lower_hex_char(#[trigger] s@[i]));
    }
    true
}

/// The direct-image endpoint: a malformed identifier is an invalid-URL
/// error; a well-formed one still fails the fetch, since no internal
/// storage exists behind this endpoint.
pub fn direct_image_lookup(image_id: &str) -> (r: AppError)
    ensures
        if is_valid_image_id_chars(image_id@) {
            r matches AppError::ImageFetchFailed { url } && url@ == image_id@
        } else {
            r matches AppError::InvalidImageUrl
        },
{
    if !is_valid_image_id(image_id) {
        return AppError::InvalidImageUrl;
    }
    AppError::ImageFetchFailed { url: String::from_str(image_id) }
}

} // verus!
