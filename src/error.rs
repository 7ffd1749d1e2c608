//! The errors of building an upload request and of decoding the answer.

use vstd::prelude::*;
use crate::coerce::NumberStringError;

verus! {

#[verifier::external_type_specification]
#[verifier::external_body]
pub struct ExQueryEncodingError(serde_urlencoded::ser::Error);

#[verifier::external_type_specification]
#[verifier::external_body]
pub struct ExTransportError(reqwest::Error);

#[verifier::external_type_specification]
#[verifier::external_body]
pub struct ExIoError(std::io::Error);

#[verifier::external_type_specification]
#[verifier::external_body]
pub struct ExPathBuf(std::path::PathBuf);

/// A member of the API's answers.
#[derive(Clone, Copy, Debug, PartialEq, Eq, Structural)]
pub enum Field {
    StatusCode,
    StatusTxt,
    Data,
    ImgName,
    ImgUrl,
    ImgView,
    ImgHeight,
    ImgWidth,
    ThumbUrl,
    ThumbHeight,
    ThumbWidth,
    Resized,
}

impl Field {
    /// The member's key in the JSON document.
    pub open spec fn key_spec(self) -> Seq<char> {
        match self {
            Field::StatusCode => "status_code"@,
            Field::StatusTxt => "status_txt"@,
            Field::Data => "data"@,
            Field::ImgName => "img_name"@,
            Field::ImgUrl => "img_url"@,
            Field::ImgView => "img_view"@,
            Field::ImgHeight => "img_height"@,
            Field::ImgWidth => "img_width"@,
            Field::ThumbUrl => "thumb_url"@,
            Field::ThumbHeight => "thumb_height"@,
            Field::ThumbWidth => "thumb_width"@,
            Field::Resized => "resized"@,
        }
    }

    /// The member's key in the JSON document.
    pub fn key(&self) -> (r: &'static str)
        ensures
            r@ == self.key_spec(),
    {
        match self {
            Field::StatusCode => "status_code",
            Field::StatusTxt => "status_txt",
            Field::Data => "data",
            Field::ImgName => "img_name",
            Field::ImgUrl => "img_url",
            Field::ImgView => "img_view",
            Field::ImgHeight => "img_height",
            Field::ImgWidth => "img_width",
            Field::ThumbUrl => "thumb_url",
            Field::ThumbHeight => "thumb_height",
            Field::ThumbWidth => "thumb_width",
            Field::Resized => "resized",
        }
    }

    /// What the member must hold, in words.
    pub open spec fn expected_spec(self) -> Seq<char> {
        match self {
            Field::StatusCode => "valid HTTP status code"@,
            Field::StatusTxt | Field::ImgName => "a string"@,
            Field::Data => "an object"@,
            Field::ImgUrl | Field::ImgView | Field::ThumbUrl => "a URL string"@,
            Field::ImgHeight | Field::ImgWidth => "a u64 written as a string"@,
            Field::ThumbHeight | Field::ThumbWidth => "a u32"@,
            Field::Resized => "boolean integral value"@,
        }
    }

    /// What the member must hold, in words.
    pub fn expected(&self) -> (r: &'static str)
        ensures
            r@ == self.expected_spec(),
    {
        match self {
            Field::StatusCode => "valid HTTP status code",
            Field::StatusTxt | Field::ImgName => "a string",
            Field::Data => "an object",
            Field::ImgUrl | Field::ImgView | Field::ThumbUrl => "a URL string",
            Field::ImgHeight | Field::ImgWidth => "a u64 written as a string",
            Field::ThumbHeight | Field::ThumbWidth => "a u32",
            Field::Resized => "boolean integral value",
        }
    }
}

/// Why a member of an answer could not be read.
#[derive(Debug)]
pub enum FieldError {
    /// The member is absent.
    Missing(Field),
    /// The member holds a JSON value of the wrong kind.
    WrongType(Field),
    /// The member holds a string that does not denote the value asked for.
    InvalidString { field: Field, text: String, reason: NumberStringError },
    /// The member holds a number outside the values allowed.
    InvalidNumber { field: Field, value: u64 },
    /// The member holds a string that is not a valid URL.
    InvalidUrl { field: Field, text: String, cause: url::ParseError },
}

/// What a `FieldError` says.
pub enum FieldErrorView {
    Missing(Field),
    WrongType(Field),
    InvalidString { field: Field, text: Seq<char>, reason: NumberStringError },
    InvalidNumber { field: Field, value: u64 },
    InvalidUrl { field: Field, text: Seq<char> },
}

impl View for FieldError {
    type V = FieldErrorView;

    open spec fn view(&self) -> FieldErrorView {
        match self {
            FieldError::Missing(f) => FieldErrorView::Missing(*f),
            FieldError::WrongType(f) => FieldErrorView::WrongType(*f),
            FieldError::InvalidString { field, text, reason } => FieldErrorView::InvalidString {
                field: *field,
                text: text@,
                reason: *reason,
            },
            FieldError::InvalidNumber { field, value } => FieldErrorView::InvalidNumber {
                field: *field,
                value: *value,
            },
            FieldError::InvalidUrl { field, text, .. } => FieldErrorView::InvalidUrl {
                field: *field,
                text: text@,
            },
        }
    }
}

/// Why the body of an answer matched neither of its two shapes.
#[derive(Debug)]
pub enum ResponseParseError {
    /// The body is not JSON.
    Syntax(serde_json::Error),
    /// The body is JSON but not an object.
    NotAnObject,
    /// The body matches both the failure and the success shape.
    Ambiguous,
    /// The body matches neither shape; each error says why not.
    NoMatchingShape { as_failure: FieldError, as_success: FieldError },
}

/// What a `ResponseParseError` says.
pub enum ResponseParseErrorView {
    Syntax,
    NotAnObject,
    Ambiguous,
    NoMatchingShape { as_failure: FieldErrorView, as_success: FieldErrorView },
}

impl View for ResponseParseError {
    type V = ResponseParseErrorView;

    open spec fn view(&self) -> ResponseParseErrorView {
        match self {
            ResponseParseError::Syntax(_) => ResponseParseErrorView::Syntax,
            ResponseParseError::NotAnObject => ResponseParseErrorView::NotAnObject,
            ResponseParseError::Ambiguous => ResponseParseErrorView::Ambiguous,
            ResponseParseError::NoMatchingShape { as_failure, as_success } =>
                ResponseParseErrorView::NoMatchingShape {
                as_failure: as_failure@,
                as_success: as_success@,
            },
        }
    }
}

/// An error in building an upload endpoint URL.
#[derive(Debug)]
pub enum UploadRequestURLBuildError {
    /// The query parameters could not be encoded.
    URLParamsBuildingFailed(serde_urlencoded::ser::Error),
    /// The built URL is not valid.
    URLValidationFailed(url::ParseError),
}

/// An error in building or sending an upload request, or in its answer.
#[derive(Debug)]
pub enum UploadError {
    /// The upload endpoint URL could not be built.
    BuildingRequest(UploadRequestURLBuildError),
    /// The path of the file to upload has no file name.
    InvalidFilename(std::path::PathBuf),
    /// The request could not be sent, or its answer not received.
    SendingRequest(reqwest::Error),
    /// The service reported a failure in the body of its answer.
    ResponseReturnedFailure {
        /// The status code in the body of the answer, not in its header.
        status_code: u16,
        /// The service's description of the failure.
        status_text: String,
    },
    /// The file to upload could not be read.
    Io(std::io::Error),
    /// The body of the answer matched neither of its known shapes.
    ParsingResponse(ResponseParseError),
}

} // verus!
