//! The closed failure taxonomy: every stage of the pipeline reports into one
//! of these variants, each with a stable machine code, a message, an HTTP
//! status, and remediation text.

use crate::decimal::dec_chars;
use crate::decimal::u32_to_dec_string;
use vstd::prelude::*;
use vstd::string::StringExecFns;

verus! {

pub type AppResult<T> = Result<T, AppError>;

#[derive(Debug, Clone)]
pub enum AppError {
    InvalidImageUrl,
    ImageFetchFailed { url: String },
    ImageProcessingFailed { reason: String },
    InvalidImageFormat { format: String },
    ImageTooLarge,
    InvalidWidth { width: u32 },
    InvalidQuality { quality: u8 },
    MissingRequiredParameter { param: String },
    CacheError { reason: String },
    InternalServerError,
    ServiceUnavailable,
}

/// Response body shaped after RFC 7807 problem details; the field names are
/// part of the compatibility surface.
pub struct ProblemDetails {
    pub error_type: String,
    pub title: String,
    pub status: u16,
    pub detail: String,
    pub instance: Option<String>,
    pub error_code: String,
    pub how_to_fix: String,
    pub more_info: String,
}

/// The stable machine code of each variant.
pub open spec fn code_chars(e: &AppError) -> Seq<char> {
    match e {
        AppError::InvalidImageUrl => "IMG_001"@,
        AppError::ImageFetchFailed { .. } => "IMG_002"@,
        AppError::ImageProcessingFailed { .. } => "IMG_003"@,
        AppError::InvalidImageFormat { .. } => "IMG_004"@,
        AppError::ImageTooLarge => "IMG_005"@,
        AppError::InvalidWidth { .. } => "VAL_001"@,
        AppError::InvalidQuality { .. } => "VAL_002"@,
        AppError::MissingRequiredParameter { .. } => "VAL_003"@,
        AppError::CacheError { .. } => "CACHE_001"@,
        AppError::InternalServerError => "SYS_001"@,
        AppError::ServiceUnavailable => "SYS_002"@,
    }
}

/// The machine code in lower case, as it appears in documentation anchors.
pub open spec fn code_lower_chars(e: &AppError) -> Seq<char> {
    match e {
        AppError::InvalidImageUrl => "img_001"@,
        AppError::ImageFetchFailed { .. } => "img_002"@,
        AppError::ImageProcessingFailed { .. } => "img_003"@,
        AppError::InvalidImageFormat { .. } => "img_004"@,
        AppError::ImageTooLarge => "img_005"@,
        AppError::InvalidWidth { .. } => "val_001"@,
        AppError::InvalidQuality { .. } => "val_002"@,
        AppError::MissingRequiredParameter { .. } => "val_003"@,
        AppError::CacheError { .. } => "cache_001"@,
        AppError::InternalServerError => "sys_001"@,
        AppError::ServiceUnavailable => "sys_002"@,
    }
}

/// The full human-readable message of each variant, code prefix included.
pub open spec fn message_chars(e: &AppError) -> Seq<char> {
    match e {
        AppError::InvalidImageUrl => "IMG_001: Invalid image URL - The provided URL is not valid"@,
        AppError::ImageFetchFailed { url } => "IMG_002: Image fetch failed - Unable to download image from "@
            + url@,
        AppError::ImageProcessingFailed { reason } => "IMG_003: Image processing failed - Error processing image: "@
            + reason@,
        AppError::InvalidImageFormat { format } => "IMG_004: Invalid image format - Format '"@
            + format@ + "' is not supported"@,
        AppError::ImageTooLarge => "IMG_005: Image too large - Image dimensions exceed maximum allowed size"@,
        AppError::InvalidWidth { width } => "VAL_001: Invalid width - Width must be between 1 and 3840, got "@
            + dec_chars(*width as nat),
        AppError::InvalidQuality { quality } => "VAL_002: Invalid quality - Quality must be between 1 and 100, got "@
            + dec_chars(*quality as nat),
        AppError::MissingRequiredParameter { param } => "VAL_003: Missing required parameter - "@
            + param@ + " is required"@,
        AppError::CacheError { reason } => "CACHE_001: Cache error - Failed to access cache: "@
            + reason@,
        AppError::InternalServerError => "SYS_001: Internal server error - An unexpected error occurred"@,
        AppError::ServiceUnavailable => "SYS_002: Service unavailable - The service is temporarily unavailable"@,
    }
}

/// The remediation text of each variant.
pub open spec fn how_to_fix_chars(e: &AppError) -> Seq<char> {
    match e {
        AppError::InvalidImageUrl => "Provide a valid URL starting with http:// or https://"@,
        AppError::ImageFetchFailed { .. } => "Ensure the image URL is accessible and the server is responding"@,
        AppError::ImageProcessingFailed { .. } => "Try a different image or check if the image file is corrupted"@,
        AppError::InvalidImageFormat { format } => "Use one of the supported formats: jpeg, jpg, png, webp. Got '"@
            + format@ + "'"@,
        AppError::ImageTooLarge => "Reduce the image dimensions or use a smaller source image"@,
        AppError::InvalidWidth { .. } => "Provide a width value between 1 and 3840"@,
        AppError::InvalidQuality { .. } => "Provide a quality value between 1 and 100"@,
        AppError::MissingRequiredParameter { param } => "Include the '"@ + param@
            + "' parameter in your request"@,
        AppError::CacheError { .. } => "Try again later or contact support if the issue persists"@,
        AppError::InternalServerError => "Try again later. If the problem persists, contact support"@,
        AppError::ServiceUnavailable => "The service is temporarily down. Please try again in a few minutes"@,
    }
}

/// The human-readable title grouping variants by HTTP class.
pub open spec fn title_chars(e: &AppError) -> Seq<char> {
    match e {
        AppError::InvalidImageUrl
        | AppError::InvalidImageFormat { .. }
        | AppError::InvalidWidth { .. }
        | AppError::InvalidQuality { .. }
        | AppError::MissingRequiredParameter { .. } => "Bad Request"@,
        AppError::ImageFetchFailed { .. }
        | AppError::ImageProcessingFailed { .. }
        | AppError::ImageTooLarge
        | AppError::CacheError { .. } => "Processing Error"@,
        AppError::InternalServerError => "Internal Server Error"@,
        AppError::ServiceUnavailable => "Service Unavailable"@,
    }
}

/// The HTTP status of each variant.
pub open spec fn status_of(e: &AppError) -> u16 {
    match e {
        AppError::InvalidImageUrl
        | AppError::InvalidImageFormat { .. }
        | AppError::InvalidWidth { .. }
        | AppError::InvalidQuality { .. }
        | AppError::MissingRequiredParameter { .. } => 400,
        AppError::ImageFetchFailed { .. }
        | AppError::ImageProcessingFailed { .. }
        | AppError::ImageTooLarge
        | AppError::CacheError { .. } => 422,
        AppError::InternalServerError => 500,
        AppError::ServiceUnavailable => 503,
    }
}

impl AppError {
    /// The stable machine code, such as `IMG_001`.
    pub fn error_code(&self) -> (r: &'static str)
        ensures
            r@ == code_chars(self),
    {
        match self {
            AppError::InvalidImageUrl => "IMG_001",
            AppError::ImageFetchFailed { .. } => "IMG_002",
            AppError::ImageProcessingFailed { .. } => "IMG_003",
            AppError::InvalidImageFormat { .. } => "IMG_004",
            AppError::ImageTooLarge => "IMG_005",
            AppError::InvalidWidth { .. } => "VAL_001",
            AppError::InvalidQuality { .. } => "VAL_002",
            AppError::MissingRequiredParameter { .. } => "VAL_003",
            AppError::CacheError { .. } => "CACHE_001",
            AppError::InternalServerError => "SYS_001",
            AppError::ServiceUnavailable => "SYS_002",
        }
    }

    /// The machine code in lower case.
    pub fn error_code_lower(&self) -> (r: &'static str)
        ensures
            r@ == code_lower_chars(self),
    {
        match self {
            AppError::InvalidImageUrl => "img_001",
            AppError::ImageFetchFailed { .. } => "img_002",
            AppError::ImageProcessingFailed { .. } => "img_003",
            AppError::InvalidImageFormat { .. } => "img_004",
            AppError::ImageTooLarge => "img_005",
            AppError::InvalidWidth { .. } => "val_001",
            AppError::InvalidQuality { .. } => "val_002",
            AppError::MissingRequiredParameter { .. } => "val_003",
            AppError::CacheError { .. } => "cache_001",
            AppError::InternalServerError => "sys_001",
            AppError::ServiceUnavailable => "sys_002",
        }
    }

    /// The HTTP status this variant maps to.
    pub fn status_code(&self) -> (r: u16)
        ensures
            r == status_of(self),
    {
        match self {
            AppError::InvalidImageUrl
            | AppError::InvalidImageFormat { .. }
            | AppError::InvalidWidth { .. }
            | AppError::InvalidQuality { .. }
            | AppError::MissingRequiredParameter { .. } => 400,
            AppError::ImageFetchFailed { .. }
            | AppError::ImageProcessingFailed { .. }
            | AppError::ImageTooLarge
            | AppError::CacheError { .. } => 422,
            AppError::InternalServerError => 500,
            AppError::ServiceUnavailable => 503,
        }
    }

    /// The title grouping variants by HTTP class.
    pub fn title(&self) -> (r: &'static str)
        ensures
            r@ == title_chars(self),
    {
        match self {
            AppError::InvalidImageUrl
            | AppError::InvalidImageFormat { .. }
            | AppError::InvalidWidth { .. }
            | AppError::InvalidQuality { .. }
            | AppError::MissingRequiredParameter { .. } => "Bad Request",
            AppError::ImageFetchFailed { .. }
            | AppError::ImageProcessingFailed { .. }
            | AppError::ImageTooLarge
            | AppError::CacheError { .. } => "Processing Error",
            AppError::InternalServerError => "Internal Server Error",
            AppError::ServiceUnavailable => "Service Unavailable",
        }
    }

    /// The full diagnostic message, code prefix included.
    pub fn message(&self) -> (r: String)
        ensures
            r@ == message_chars(self),
    {
        match self {
            AppError::InvalidImageUrl => String::from_str(
                "IMG_001: Invalid image URL - The provided URL is not valid",
            ),
            AppError::ImageFetchFailed { url } => {
                let mut s = String::from_str(
                    "IMG_002: Image fetch failed - Unable to download image from ",
                );
                s.append(url.as_str());
                s
            },
            AppError::ImageProcessingFailed { reason } => {
                let mut s = String::from_str(
                    "IMG_003: Image processing failed - Error processing image: ",
                );
                s.append(reason.as_str());
                s
            },
            AppError::InvalidImageFormat { format } => {
                let mut s = String::from_str("IMG_004: Invalid image format - Format '");
                s.append(format.as_str());
                s.append("' is not supported");
                s
            },
            AppError::ImageTooLarge => String::from_str(
                "IMG_005: Image too large - Image dimensions exceed maximum allowed size",
            ),
            AppError::InvalidWidth { width } => {
                let mut s = String::from_str(
                    "VAL_001: Invalid width - Width must be between 1 and 3840, got ",
                );
                let num = u32_to_dec_string(*width);
                s.append(num.as_str());
                s
            },
            AppError::InvalidQuality { quality } => {
                let mut s = String::from_str(
                    "VAL_002: Invalid quality - Quality must be between 1 and 100, got ",
                );
                let num = u32_to_dec_string(*quality as u32);
                s.append(num.as_str());
                s
            },
            AppError::MissingRequiredParameter { param } => {
                let mut s = String::from_str("VAL_003: Missing required parameter - ");
                s.append(param.as_str());
                s.append(" is required");
                s
            },
            AppError::CacheError { reason } => {
                let mut s = String::from_str("CACHE_001: Cache error - Failed to access cache: ");
                s.append(reason.as_str());
                s
            },
            AppError::InternalServerError => String::from_str(
                "SYS_001: Internal server error - An unexpected error occurred",
            ),
            AppError::ServiceUnavailable => String::from_str(
                "SYS_002: Service unavailable - The service is temporarily unavailable",
            ),
        }
    }

    /// The remediation hint for this variant.
    pub fn how_to_fix(&self) -> (r: String)
        ensures
            r@ == how_to_fix_chars(self),
    {
        match self {
            AppError::InvalidImageUrl => String::from_str(
                "Provide a valid URL starting with http:// or https://",
            ),
            AppError::ImageFetchFailed { .. } => String::from_str(
                "Ensure the image URL is accessible and the server is responding",
            ),
            AppError::ImageProcessingFailed { .. } => String::from_str(
                "Try a different image or check if the image file is corrupted",
            ),
            AppError::InvalidImageFormat { format } => {
                let mut s = String::from_str(
                    "Use one of the supported formats: jpeg, jpg, png, webp. Got '",
                );
                s.append(format.as_str());
                s.append("'");
                s
            },
            AppError::ImageTooLarge => String::from_str(
                "Reduce the image dimensions or use a smaller source image",
            ),
            AppError::InvalidWidth { .. } => String::from_str(
                "Provide a width value between 1 and 3840",
            ),
            AppError::InvalidQuality { .. } => String::from_str(
                "Provide a quality value between 1 and 100",
            ),
            AppError::MissingRequiredParameter { param } => {
                let mut s = String::from_str("Include the '");
                s.append(param.as_str());
                s.append("' parameter in your request");
                s
            },
            AppError::CacheError { .. } => String::from_str(
                "Try again later or contact support if the issue persists",
            ),
            AppError::InternalServerError => String::from_str(
                "Try again later. If the problem persists, contact support",
            ),
            AppError::ServiceUnavailable => String::from_str(
                "The service is temporarily down. Please try again in a few minutes",
            ),
        }
    }

    /// Renders this error as an RFC 7807 problem-details record.
    pub fn to_response(&self) -> (r: ProblemDetails)
        ensures
            r.error_type@ == "https://github.com/fgribreau/plasmic-img-optimizer/errors/"@
                + code_chars(self),
            r.title@ == title_chars(self),
            r.status == status_of(self),
            r.detail@ == message_chars(self),
            r.instance is None,
            r.error_code@ == code_chars(self),
            r.how_to_fix@ == how_to_fix_chars(self),
            r.more_info@ == "https://github.com/fgribreau/plasmic-img-optimizer#error-"@
                + code_lower_chars(self),
    {
        let mut error_type = String::from_str(
            "https://github.com/fgribreau/plasmic-img-optimizer/errors/",
        );
        error_type.append(self.error_code());
        let mut more_info = String::from_str(
            "https://github.com/fgribreau/plasmic-img-optimizer#error-",
        );
        more_info.append(self.error_code_lower());
        ProblemDetails {
            error_type,
            title: String::from_str(self.title()),
            status: self.status_code(),
            detail: self.message(),
            instance: None,
            error_code: String::from_str(self.error_code()),
            how_to_fix: self.how_to_fix(),
            more_info,
        }
    }
}

/// The catalog entry for a variant: its code, then its message.
pub open spec fn catalog_entry_chars(e: &AppError) -> Seq<char> {
    code_chars(e) + ": "@ + message_chars(e)
}

/// One catalog line, `"<errorCode>: <message>"`.
fn catalog_entry(e: &AppError) -> (r: String)
    ensures
        r@ == catalog_entry_chars(e),
{
    let mut s = String::from_str(e.error_code());
    s.append(": ");
    let msg = e.message();
    s.append(msg.as_str());
    s
}

impl AppError {
    /// Enumerates every possible error, one `"<errorCode>: <message>"` line
    /// per variant in declaration order, with placeholder field values
    /// (empty strings and zeros) where a variant carries context.
    pub fn list_all_errors() -> (r: Vec<String>)
    ensures
        r@.len() == 11,
        r@[0]@ == catalog_entry_chars(&AppError::InvalidImageUrl),
        r@[1]@ == "IMG_002"@ + ": "@
            + "IMG_002: Image fetch failed - Unable to download image from "@,
        r@[2]@ == "IMG_003"@ + ": "@
            + "IMG_003: Image processing failed - Error processing image: "@,
        r@[3]@ == "IMG_004"@ + ": "@ + "IMG_004: Invalid image format - Format '"@
            + "' is not supported"@,
        r@[4]@ == catalog_entry_chars(&AppError::ImageTooLarge),
        r@[5]@ == catalog_entry_chars(&AppError::InvalidWidth { width: 0 }),
        r@[6]@ == catalog_entry_chars(&AppError::InvalidQuality { quality: 0 }),
        r@[7]@ == "VAL_003"@ + ": "@ + "VAL_003: Missing required parameter - "@
            + " is required"@,
        r@[8]@ == "CACHE_001"@ + ": "@ + "CACHE_001: Cache error - Failed to access cache: "@,
        r@[9]@ == catalog_entry_chars(&AppError::InternalServerError),
        r@[10]@ == catalog_entry_chars(&AppError::ServiceUnavailable),
{
    let mut v: Vec<String> = Vec::new();
    v.push(catalog_entry(&AppError::InvalidImageUrl));
    v.push(catalog_entry(&AppError::ImageFetchFailed { url: String::new() }));
    v.push(catalog_entry(&AppError::ImageProcessingFailed { reason: String::new() }));
    v.push(catalog_entry(&AppError::InvalidImageFormat { format: String::new() }));
    v.push(catalog_entry(&AppError::ImageTooLarge));
    v.push(catalog_entry(&AppError::InvalidWidth { width: 0 }));
    v.push(catalog_entry(&AppError::InvalidQuality { quality: 0 }));
    v.push(catalog_entry(&AppError::MissingRequiredParameter { param: String::new() }));
    v.push(catalog_entry(&AppError::CacheError { reason: String::new() }));
    v.push(catalog_entry(&AppError::InternalServerError));
    v.push(catalog_entry(&AppError::ServiceUnavailable));
    proof {
        assert(v@[1]@ =~= "IMG_002"@ + ": "@
            + "IMG_002: Image fetch failed - Unable to download image from "@);
        assert(v@[2]@ =~= "IMG_003"@ + ": "@
            + "IMG_003: Image processing failed - Error processing image: "@);
        assert(v@[3]@ =~= "IMG_004"@ + ": "@ + "IMG_004: Invalid image format - Format '"@
            + "' is not supported"@);
        assert(v@[7]@ =~= "VAL_003"@ + ": "@ + "VAL_003: Missing required parameter - "@
            + " is required"@);
        assert(v@[8]@ =~= "CACHE_001"@ + ": "@
            + "CACHE_001: Cache error - Failed to access cache: "@);
        }
        v
    }
}

} // verus!
