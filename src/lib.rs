//! A client for the Uploads.im image upload API: the endpoint URL is built from
//! upload options, and the service's JSON answer is decoded into an uploaded
//! image or a classified error.

mod coerce;
mod json;
mod web_url;
mod image;
mod error;
mod decode;
mod options;
mod request;

pub use coerce::{
    integer_text, parse_bool_number_string, parse_status_code_string, parse_u64_string,
    IntegerTextError, NumberStringError,
};
pub use json::{json_parse, json_view, JsonNumber, JsonView};
pub use web_url::{url_parse, Url};
pub use image::{
    FullSizeDimension, ImageReference, ImageReferenceView, Rectangle, ThumbnailDimension,
    UploadedImage, UploadedImageView,
};
pub use error::{
    Field, FieldError, FieldErrorView, ResponseParseError, ResponseParseErrorView, UploadError,
    UploadRequestURLBuildError,
};
pub use decode::{
    decode_model, decode_response, decode_response_value, decoded_as, failure_shape, flag_member,
    image_shape, lemma_failure_shape_alone, lemma_no_data_and_no_failure_is_invalid,
    lemma_non_numeric_height, lemma_resized_flag, members, status_code_member, success_shape,
    text_member, u32_member, u64_string_member, url_member, Decoded,
};
pub use options::{
    bool_text, build_upload_url, decimal, endpoint_text, form_query, join_params,
    lemma_endpoint_without_options, lemma_query_holds_set_options, option_pairs, param,
    present_params, set_option_count, upload_query, UploadOptions, DEFAULT_HOST,
};
pub use request::{prepare_upload, upload_request_for, UploadRequest};
