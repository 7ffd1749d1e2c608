//! Decoding of the API's answer. Its body has one of two shapes, told apart
//! by their members alone: a failure (`status_code`, `status_txt`) or a
//! success (`data`, an object that describes the uploaded image).

use vstd::prelude::*;
use crate::coerce::{
    flag_text, integer_text, is_status_code, scan_digits, parse_bool_number_string, parse_status_code_string,
    parse_u64_string, status_code_text, NumberStringError,
};
use crate::error::{
    Field, FieldError, FieldErrorView, ResponseParseError, ResponseParseErrorView, UploadError,
};
use crate::image::{
    ImageReference, ImageReferenceView, Rectangle, UploadedImage, UploadedImageView,
};
use crate::json::{as_text, as_unsigned, is_object, json_parse, json_view, member, parse_json, JsonNumber, JsonView};
use crate::web_url::{url_parse, Url};

verus! {

/// The members of an object, or an empty map for any other value.
pub open spec fn members(v: serde_json::Value) -> Map<Seq<char>, JsonView> {
    match json_view(v) {
        JsonView::Object(m) => m,
        _ => Map::empty(),
    }
}

/// A member that must be a string.
pub open spec fn text_member(obj: Map<Seq<char>, JsonView>, f: Field) -> Result<Seq<char>, FieldErrorView> {
    if !obj.contains_key(f.key_spec()) {
        Err(FieldErrorView::Missing(f))
    } else {
        match obj[f.key_spec()] {
            JsonView::Text(s) => Ok(s),
            _ => Err(FieldErrorView::WrongType(f)),
        }
    }
}

/// A member that must be a string holding a valid URL; the result is the
/// URL's serialization.
pub open spec fn url_member(obj: Map<Seq<char>, JsonView>, f: Field) -> Result<Seq<char>, FieldErrorView> {
    match text_member(obj, f) {
        Err(e) => Err(e),
        Ok(s) => match url_parse(s) {
            Some(u) => Ok(u),
            None => Err(FieldErrorView::InvalidUrl { field: f, text: s }),
        },
    }
}

/// A member that must be a string holding the decimal text of a `u64`.
pub open spec fn u64_string_member(obj: Map<Seq<char>, JsonView>, f: Field) -> Result<u64, FieldErrorView> {
    match text_member(obj, f) {
        Err(e) => Err(e),
        Ok(s) => match integer_text(s) {
            Ok(n) => Ok(n),
            Err(e) => Err(
                FieldErrorView::InvalidString { field: f, text: s, reason: NumberStringError::Text(e) },
            ),
        },
    }
}

/// A member that must be a JSON number that fits a `u32`.
pub open spec fn u32_member(obj: Map<Seq<char>, JsonView>, f: Field) -> Result<u32, FieldErrorView> {
    if !obj.contains_key(f.key_spec()) {
        Err(FieldErrorView::Missing(f))
    } else {
        match obj[f.key_spec()] {
            JsonView::Number(JsonNumber::Unsigned(n)) => if n <= u32::MAX {
                Ok(n as u32)
            } else {
                Err(FieldErrorView::InvalidNumber { field: f, value: n })
            },
            _ => Err(FieldErrorView::WrongType(f)),
        }
    }
}

/// A member that must be a string holding `0` or `1`.
pub open spec fn flag_member(obj: Map<Seq<char>, JsonView>, f: Field) -> Result<bool, FieldErrorView> {
    match text_member(obj, f) {
        Err(e) => Err(e),
        Ok(s) => match flag_text(s) {
            Ok(b) => Ok(b),
            Err(e) => Err(FieldErrorView::InvalidString { field: f, text: s, reason: e }),
        },
    }
}

/// The `status_code` member: an HTTP status code, written as a string or as
/// a number.
pub open spec fn status_code_member(obj: Map<Seq<char>, JsonView>) -> Result<u16, FieldErrorView> {
    let f = Field::StatusCode;
    if !obj.contains_key(f.key_spec()) {
        Err(FieldErrorView::Missing(f))
    } else {
        match obj[f.key_spec()] {
            JsonView::Text(s) => match status_code_text(s) {
                Ok(c) => Ok(c),
                Err(e) => Err(FieldErrorView::InvalidString { field: f, text: s, reason: e }),
            },
            JsonView::Number(JsonNumber::Unsigned(n)) => if is_status_code(n) {
                Ok(n as u16)
            } else {
                Err(FieldErrorView::InvalidNumber { field: f, value: n })
            },
            _ => Err(FieldErrorView::WrongType(f)),
        }
    }
}

/// The failure shape: a status code and the service's description of it.
pub open spec fn failure_shape(obj: Map<Seq<char>, JsonView>) -> Result<(u16, Seq<char>), FieldErrorView> {
    match status_code_member(obj) {
        Err(e) => Err(e),
        Ok(c) => match text_member(obj, Field::StatusTxt) {
            Err(e) => Err(e),
            Ok(t) => Ok((c, t)),
        },
    }
}

/// The image that the `data` object of a success describes, or the error of
/// its first member, in the order of the fields of `UploadedImage`.
pub open spec fn image_shape(d: Map<Seq<char>, JsonView>) -> Result<UploadedImageView, FieldErrorView> {
    if text_member(d, Field::ImgName) is Err {
        Err(text_member(d, Field::ImgName)->Err_0)
    } else if url_member(d, Field::ImgUrl) is Err {
        Err(url_member(d, Field::ImgUrl)->Err_0)
    } else if url_member(d, Field::ImgView) is Err {
        Err(url_member(d, Field::ImgView)->Err_0)
    } else if u64_string_member(d, Field::ImgHeight) is Err {
        Err(u64_string_member(d, Field::ImgHeight)->Err_0)
    } else if u64_string_member(d, Field::ImgWidth) is Err {
        Err(u64_string_member(d, Field::ImgWidth)->Err_0)
    } else if url_member(d, Field::ThumbUrl) is Err {
        Err(url_member(d, Field::ThumbUrl)->Err_0)
    } else if u32_member(d, Field::ThumbHeight) is Err {
        Err(u32_member(d, Field::ThumbHeight)->Err_0)
    } else if u32_member(d, Field::ThumbWidth) is Err {
        Err(u32_member(d, Field::ThumbWidth)->Err_0)
    } else if flag_member(d, Field::Resized) is Err {
        Err(flag_member(d, Field::Resized)->Err_0)
    } else {
        Ok(
            UploadedImageView {
                name: text_member(d, Field::ImgName)->Ok_0,
                full_size: ImageReferenceView {
                    dimensions: Rectangle {
                        height: u64_string_member(d, Field::ImgHeight)->Ok_0,
                        width: u64_string_member(d, Field::ImgWidth)->Ok_0,
                    },
                    url: url_member(d, Field::ImgUrl)->Ok_0,
                },
                view_url: url_member(d, Field::ImgView)->Ok_0,
                thumbnail: ImageReferenceView {
                    dimensions: Rectangle {
                        height: u32_member(d, Field::ThumbHeight)->Ok_0,
                        width: u32_member(d, Field::ThumbWidth)->Ok_0,
                    },
                    url: url_member(d, Field::ThumbUrl)->Ok_0,
                },
                was_resized: flag_member(d, Field::Resized)->Ok_0,
            },
        )
    }
}

/// The success shape: a `data` object that describes the uploaded image.
pub open spec fn success_shape(obj: Map<Seq<char>, JsonView>) -> Result<UploadedImageView, FieldErrorView> {
    if !obj.contains_key(Field::Data.key_spec()) {
        Err(FieldErrorView::Missing(Field::Data))
    } else {
        match obj[Field::Data.key_spec()] {
            JsonView::Object(d) => image_shape(d),
            _ => Err(FieldErrorView::WrongType(Field::Data)),
        }
    }
}

/// What an answer's body means.
pub enum Decoded {
    /// The upload succeeded, and this is the image.
    Image(UploadedImageView),
    /// The service reported a failure.
    Failure { status_code: u16, status_text: Seq<char> },
    /// The body matched neither shape, or both.
    Invalid(ResponseParseErrorView),
}

/// What a JSON document means as an answer: an object that matches exactly
/// one of the two shapes is that shape; any other document is invalid.
pub open spec fn decode_model(doc: JsonView) -> Decoded {
    match doc {
        JsonView::Object(obj) => match (failure_shape(obj), success_shape(obj)) {
            (Ok(_), Ok(_)) => Decoded::Invalid(ResponseParseErrorView::Ambiguous),
            (Ok(f), Err(_)) => Decoded::Failure { status_code: f.0, status_text: f.1 },
            (Err(_), Ok(img)) => Decoded::Image(img),
            (Err(a), Err(b)) => Decoded::Invalid(
                ResponseParseErrorView::NoMatchingShape { as_failure: a, as_success: b },
            ),
        },
        _ => Decoded::Invalid(ResponseParseErrorView::NotAnObject),
    }
}

/// Whether `r` is the upload result that says `d`.
pub open spec fn decoded_as(r: Result<UploadedImage, UploadError>, d: Decoded) -> bool {
    match r {
        Ok(img) => d == Decoded::Image(img@),
        Err(UploadError::ResponseReturnedFailure { status_code, status_text }) => d
            == Decoded::Failure { status_code, status_text: status_text@ },
        Err(UploadError::ParsingResponse(e)) => d == Decoded::Invalid(e@),
        Err(_) => false,
    }
}

/// A document that has the failure shape and not the success shape means
/// the failure that the service reported, not an invalid answer.
pub proof fn lemma_failure_shape_alone(obj: Map<Seq<char>, JsonView>)
    requires
        failure_shape(obj) is Ok,
        success_shape(obj) is Err,
    ensures
        decode_model(JsonView::Object(obj)) == (Decoded::Failure {
            status_code: failure_shape(obj)->Ok_0.0,
            status_text: failure_shape(obj)->Ok_0.1,
        }),
{
}

/// A document without a `data` member that does not have the failure shape
/// is not a valid answer.
pub proof fn lemma_no_data_and_no_failure_is_invalid(doc: JsonView)
    requires
        doc matches JsonView::Object(obj) ==> !obj.contains_key(Field::Data.key_spec())
            && failure_shape(obj) is Err,
    ensures
        decode_model(doc) is Invalid,
{
}

/// In a success, a `resized` member `"1"` means that the image was resized
/// and `"0"` that it was not; `"2"` is no flag, and the `data` object then
/// describes no image.
pub proof fn lemma_resized_flag(d: Map<Seq<char>, JsonView>)
    requires
        d.contains_key(Field::Resized.key_spec()),
    ensures
        d[Field::Resized.key_spec()] == JsonView::Text("1"@) && image_shape(d) is Ok
            ==> image_shape(d)->Ok_0.was_resized,
        d[Field::Resized.key_spec()] == JsonView::Text("0"@) && image_shape(d) is Ok
            ==> !image_shape(d)->Ok_0.was_resized,
        d[Field::Resized.key_spec()] == JsonView::Text("2"@) ==> image_shape(d) is Err,
{
    reveal_strlit("0");
    reveal_strlit("1");
    reveal_strlit("2");
    reveal_with_fuel(scan_digits, 2);
    let v = d[Field::Resized.key_spec()];
    if v == JsonView::Text("1"@) {
        assert(("1"@).drop_last() =~= Seq::<char>::empty());
        assert(flag_member(d, Field::Resized) == Ok::<bool, FieldErrorView>(true));
    }
    if v == JsonView::Text("0"@) {
        assert(("0"@).drop_last() =~= Seq::<char>::empty());
        assert(flag_member(d, Field::Resized) == Ok::<bool, FieldErrorView>(false));
    }
    if v == JsonView::Text("2"@) {
        assert(("2"@).drop_last() =~= Seq::<char>::empty());
        assert(flag_member(d, Field::Resized) is Err);
    }
}

/// A `data` object whose `img_height` is a string that is not the decimal
/// text of a `u64` (such as `"abc"`) describes no image, so that a document
/// of that success shape alone is not a valid answer; where the members
/// before it are valid, the error names `img_height` and holds its text.
pub proof fn lemma_non_numeric_height(obj: Map<Seq<char>, JsonView>, d: Map<Seq<char>, JsonView>, s: Seq<char>)
    requires
        obj.contains_key(Field::Data.key_spec()),
        obj[Field::Data.key_spec()] == JsonView::Object(d),
        d.contains_key(Field::ImgHeight.key_spec()),
        d[Field::ImgHeight.key_spec()] == JsonView::Text(s),
        integer_text(s) is Err,
    ensures
        image_shape(d) is Err,
        failure_shape(obj) is Err ==> decode_model(JsonView::Object(obj)) is Invalid,
        text_member(d, Field::ImgName) is Ok && url_member(d, Field::ImgUrl) is Ok && url_member(
            d,
            Field::ImgView,
        ) is Ok ==> image_shape(d) == Err::<UploadedImageView, FieldErrorView>(
            FieldErrorView::InvalidString {
                field: Field::ImgHeight,
                text: s,
                reason: NumberStringError::Text(integer_text(s)->Err_0),
            },
        ),
{
}

/// The success shape as read from an answer.
struct RawUploadResponseSuccess {
    img_name: String,
    img_url: Url,
    img_view: Url,
    img_height: u64,
    img_width: u64,
    thumb_url: Url,
    thumb_height: u32,
    thumb_width: u32,
    resized: bool,
}

impl View for RawUploadResponseSuccess {
    type V = UploadedImageView;

    closed spec fn view(&self) -> UploadedImageView {
        UploadedImageView {
            name: self.img_name@,
            full_size: ImageReferenceView {
                dimensions: Rectangle { height: self.img_height, width: self.img_width },
                url: self.img_url@,
            },
            view_url: self.img_view@,
            thumbnail: ImageReferenceView {
                dimensions: Rectangle { height: self.thumb_height, width: self.thumb_width },
                url: self.thumb_url@,
            },
            was_resized: self.resized,
        }
    }
}

/// An answer that matched exactly one shape.
enum RawUploadResponse {
    Failure { status_code: u16, status_txt: String },
    Success { data: RawUploadResponseSuccess },
}

/// The member `f` of an object.
fn read_member<'a>(obj: &'a serde_json::Value, f: Field) -> (r: Result<&'a serde_json::Value, FieldError>)
    ensures
        match r {
            Ok(v) => members(*obj).contains_key(f.key_spec()) && json_view(*v) == members(
                *obj,
            )[f.key_spec()],
            Err(e) => !members(*obj).contains_key(f.key_spec()) && e@ == FieldErrorView::Missing(f),
        },
{
    match member(obj, f.key()) {
        Some(v) => Ok(v),
        None => Err(FieldError::Missing(f)),
    }
}

fn read_text(obj: &serde_json::Value, f: Field) -> (r: Result<String, FieldError>)
    ensures
        match r {
            Ok(s) => text_member(members(*obj), f) == Ok::<Seq<char>, FieldErrorView>(s@),
            Err(e) => text_member(members(*obj), f) == Err::<Seq<char>, FieldErrorView>(e@),
        },
{
    let v = read_member(obj, f)?;
    match as_text(v) {
        Some(s) => Ok(s.to_owned()),
        None => Err(FieldError::WrongType(f)),
    }
}

fn read_url(obj: &serde_json::Value, f: Field) -> (r: Result<Url, FieldError>)
    ensures
        match r {
            Ok(u) => url_member(members(*obj), f) == Ok::<Seq<char>, FieldErrorView>(u@),
            Err(e) => url_member(members(*obj), f) == Err::<Seq<char>, FieldErrorView>(e@),
        },
{
    let s = read_text(obj, f)?;
    match Url::parse(s.as_str()) {
        Ok(u) => Ok(u),
        Err(cause) => Err(FieldError::InvalidUrl { field: f, text: s, cause }),
    }
}

fn read_u64_string(obj: &serde_json::Value, f: Field) -> (r: Result<u64, FieldError>)
    ensures
        match r {
            Ok(n) => u64_string_member(members(*obj), f) == Ok::<u64, FieldErrorView>(n),
            Err(e) => u64_string_member(members(*obj), f) == Err::<u64, FieldErrorView>(e@),
        },
{
    let s = read_text(obj, f)?;
    match parse_u64_string(s.as_str()) {
        Ok(n) => Ok(n),
        Err(e) => Err(
            FieldError::InvalidString { field: f, text: s, reason: NumberStringError::Text(e) },
        ),
    }
}

fn read_u32(obj: &serde_json::Value, f: Field) -> (r: Result<u32, FieldError>)
    ensures
        match r {
            Ok(n) => u32_member(members(*obj), f) == Ok::<u32, FieldErrorView>(n),
            Err(e) => u32_member(members(*obj), f) == Err::<u32, FieldErrorView>(e@),
        },
{
    let v = read_member(obj, f)?;
    match as_unsigned(v) {
        Some(n) => if n <= 4294967295 {
            Ok(n as u32)
        } else {
            Err(FieldError::InvalidNumber { field: f, value: n })
        },
        None => Err(FieldError::WrongType(f)),
    }
}

fn read_flag(obj: &serde_json::Value, f: Field) -> (r: Result<bool, FieldError>)
    ensures
        match r {
            Ok(b) => flag_member(members(*obj), f) == Ok::<bool, FieldErrorView>(b),
            Err(e) => flag_member(members(*obj), f) == Err::<bool, FieldErrorView>(e@),
        },
{
    let s = read_text(obj, f)?;
    match parse_bool_number_string(s.as_str()) {
        Ok(b) => Ok(b),
        Err(reason) => Err(FieldError::InvalidString { field: f, text: s, reason }),
    }
}

fn read_status_code(obj: &serde_json::Value) -> (r: Result<u16, FieldError>)
    ensures
        match r {
            Ok(c) => status_code_member(members(*obj)) == Ok::<u16, FieldErrorView>(c),
            Err(e) => status_code_member(members(*obj)) == Err::<u16, FieldErrorView>(e@),
        },
{
    let f = Field::StatusCode;
    let v = read_member(obj, f)?;
    match as_text(v) {
        Some(s) => match parse_status_code_string(s) {
            Ok(c) => Ok(c),
            Err(reason) => Err(FieldError::InvalidString { field: f, text: s.to_owned(), reason }),
        },
        None => match as_unsigned(v) {
            Some(n) => if 100 <= n && n <= 599 {
                Ok(n as u16)
            } else {
                Err(FieldError::InvalidNumber { field: f, value: n })
            },
            None => Err(FieldError::WrongType(f)),
        },
    }
}

fn read_failure_shape(obj: &serde_json::Value) -> (r: Result<(u16, String), FieldError>)
    ensures
        match r {
            Ok((c, t)) => failure_shape(members(*obj)) == Ok::<(u16, Seq<char>), FieldErrorView>(
                (c, t@),
            ),
            Err(e) => failure_shape(members(*obj)) == Err::<(u16, Seq<char>), FieldErrorView>(e@),
        },
{
    let c = read_status_code(obj)?;
    let t = read_text(obj, Field::StatusTxt)?;
    Ok((c, t))
}

fn read_image_shape(d: &serde_json::Value) -> (r: Result<RawUploadResponseSuccess, FieldError>)
    ensures
        match r {
            Ok(s) => image_shape(members(*d)) == Ok::<UploadedImageView, FieldErrorView>(s@),
            Err(e) => image_shape(members(*d)) == Err::<UploadedImageView, FieldErrorView>(e@),
        },
{
    let img_name = read_text(d, Field::ImgName)?;
    let img_url = read_url(d, Field::ImgUrl)?;
    let img_view = read_url(d, Field::ImgView)?;
    let img_height = read_u64_string(d, Field::ImgHeight)?;
    let img_width = read_u64_string(d, Field::ImgWidth)?;
    let thumb_url = read_url(d, Field::ThumbUrl)?;
    let thumb_height = read_u32(d, Field::ThumbHeight)?;
    let thumb_width = read_u32(d, Field::ThumbWidth)?;
    let resized = read_flag(d, Field::Resized)?;
    Ok(
        RawUploadResponseSuccess {
            img_name,
            img_url,
            img_view,
            img_height,
            img_width,
            thumb_url,
            thumb_height,
            thumb_width,
            resized,
        },
    )
}

fn read_success_shape(obj: &serde_json::Value) -> (r: Result<RawUploadResponseSuccess, FieldError>)
    ensures
        match r {
            Ok(s) => success_shape(members(*obj)) == Ok::<UploadedImageView, FieldErrorView>(s@),
            Err(e) => success_shape(members(*obj)) == Err::<UploadedImageView, FieldErrorView>(e@),
        },
{
    let d = read_member(obj, Field::Data)?;
    if !is_object(d) {
        return Err(FieldError::WrongType(Field::Data));
    }
    read_image_shape(d)
}

/// Matches a document against both shapes, the failure shape first.
fn read_raw_response(doc: &serde_json::Value) -> (r: Result<RawUploadResponse, ResponseParseError>)
    ensures
        match r {
            Ok(RawUploadResponse::Failure { status_code, status_txt }) => decode_model(
                json_view(*doc),
            ) == Decoded::Failure { status_code, status_text: status_txt@ },
            Ok(RawUploadResponse::Success { data }) => decode_model(json_view(*doc))
                == Decoded::Image(data@),
            Err(e) => decode_model(json_view(*doc)) == Decoded::Invalid(e@),
        },
{
    if !is_object(doc) {
        return Err(ResponseParseError::NotAnObject);
    }
    let as_failure = read_failure_shape(doc);
    let as_success = read_success_shape(doc);
    match (as_failure, as_success) {
        (Ok(_), Ok(_)) => Err(ResponseParseError::Ambiguous),
        (Ok((status_code, status_txt)), Err(_)) => Ok(
            RawUploadResponse::Failure { status_code, status_txt },
        ),
        (Err(_), Ok(data)) => Ok(RawUploadResponse::Success { data }),
        (Err(as_failure), Err(as_success)) => Err(
            ResponseParseError::NoMatchingShape { as_failure, as_success },
        ),
    }
}

impl UploadedImage {
    /// The outcome that an answer of either shape stands for: the image, or
    /// the failure that the service reported.
    fn try_from_raw(response: RawUploadResponse) -> (r: Result<UploadedImage, UploadError>)
        ensures
            match response {
                RawUploadResponse::Failure { status_code, status_txt } => decoded_as(
                    r,
                    Decoded::Failure { status_code, status_text: status_txt@ },
                ),
                RawUploadResponse::Success { data } => decoded_as(r, Decoded::Image(data@)),
            },
    {
        match response {
            RawUploadResponse::Failure { status_code, status_txt } => Err(
                UploadError::ResponseReturnedFailure { status_code, status_text: status_txt },
            ),
            RawUploadResponse::Success { data } => Ok(
                UploadedImage {
                    name: data.img_name,
                    full_size: ImageReference {
                        url: data.img_url,
                        dimensions: Rectangle { height: data.img_height, width: data.img_width },
                    },
                    thumbnail: ImageReference {
                        url: data.thumb_url,
                        dimensions: Rectangle {
                            height: data.thumb_height,
                            width: data.thumb_width,
                        },
                    },
                    view_url: data.img_view,
                    was_resized: data.resized,
                },
            ),
        }
    }
}

/// Decodes a parsed answer into the uploaded image, the failure that the
/// service reported, or the reason why it has neither shape.
pub fn decode_response_value(doc: &serde_json::Value) -> (r: Result<UploadedImage, UploadError>)
    ensures
        decoded_as(r, decode_model(json_view(*doc))),
{
    match read_raw_response(doc) {
        Ok(raw) => UploadedImage::try_from_raw(raw),
        Err(e) => Err(UploadError::ParsingResponse(e)),
    }
}

/// Decodes the body of an answer into the uploaded image, the failure that
/// the service reported, or the reason why it is not a valid answer.
pub fn decode_response(text: &str) -> (r: Result<UploadedImage, UploadError>)
    ensures
        match json_parse(text@) {
            Some(doc) => decoded_as(r, decode_model(doc)),
            None => r matches Err(UploadError::ParsingResponse(ResponseParseError::Syntax(_))),
        },
{
    match parse_json(text) {
        Ok(doc) => decode_response_value(&doc),
        Err(e) => Err(UploadError::ParsingResponse(ResponseParseError::Syntax(e))),
    }
}

} // verus!
