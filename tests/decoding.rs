use uploads_im_client::{
    decode_response, decode_response_value, Field, FieldError, IntegerTextError,
    NumberStringError, ResponseParseError, UploadError, UploadedImage,
};

fn success_body(resized: &str, img_height: &str) -> String {
    let mut body = String::from("{\"data\":{\"img_name\":\"vwk7b.jpg\",");
    body.push_str("\"img_url\":\"http://s1.uploads.im/vwk7b.jpg\",");
    body.push_str("\"img_view\":\"http://uploads.im/vwk7b.jpg\",");
    body.push_str(&format!("\"img_height\":\"{}\",\"img_width\":\"640\",", img_height));
    body.push_str("\"thumb_url\":\"http://s1.uploads.im/t/vwk7b.jpg\",");
    body.push_str("\"thumb_height\":90,\"thumb_width\":120,");
    body.push_str(&format!("\"resized\":\"{}\"}},\"status_code\":200,\"status_txt\":\"OK\"}}", resized));
    body
}

fn plain_success_body(resized: &str, img_height: &str) -> String {
    success_body(resized, img_height).replace(",\"status_code\":200,\"status_txt\":\"OK\"", "")
}

fn parse_error(r: Result<UploadedImage, UploadError>) -> ResponseParseError {
    match r {
        Err(UploadError::ParsingResponse(e)) => e,
        other => panic!("expected a parsing error, got {:?}", other),
    }
}

#[test]
fn success_is_decoded_field_by_field() {
    let img = decode_response(&plain_success_body("0", "480")).expect("success");
    assert_eq!(img.name, "vwk7b.jpg");
    assert_eq!(img.full_size.url.as_str(), "http://s1.uploads.im/vwk7b.jpg");
    assert_eq!(img.full_size.dimensions.height, 480);
    assert_eq!(img.full_size.dimensions.width, 640);
    assert_eq!(img.view_url.as_str(), "http://uploads.im/vwk7b.jpg");
    assert_eq!(img.thumbnail.url.as_str(), "http://s1.uploads.im/t/vwk7b.jpg");
    assert_eq!(img.thumbnail.dimensions.height, 90);
    assert_eq!(img.thumbnail.dimensions.width, 120);
    assert!(!img.was_resized);
}

#[test]
fn resized_flag_values() {
    assert!(decode_response(&plain_success_body("1", "480")).expect("success").was_resized);
    assert!(!decode_response(&plain_success_body("0", "480")).expect("success").was_resized);
    match parse_error(decode_response(&plain_success_body("2", "480"))) {
        ResponseParseError::NoMatchingShape {
            as_success: FieldError::InvalidString { field, text, reason },
            ..
        } => {
            assert_eq!(field, Field::Resized);
            assert_eq!(text, "2");
            assert_eq!(reason, NumberStringError::Value(2));
        }
        other => panic!("unexpected {:?}", other),
    }
}

#[test]
fn failure_shape_is_reported_by_the_service() {
    let r = decode_response("{\"status_code\":\"503\",\"status_txt\":\"Service Unavailable\"}");
    match r {
        Err(UploadError::ResponseReturnedFailure { status_code, status_text }) => {
            assert_eq!(status_code, 503);
            assert_eq!(status_text, "Service Unavailable");
        }
        other => panic!("unexpected {:?}", other),
    }
    let r = decode_response("{\"status_code\":400,\"status_txt\":\"Invalid upload\"}");
    assert!(matches!(
        r,
        Err(UploadError::ResponseReturnedFailure { status_code: 400, .. })
    ));
}

#[test]
fn failure_with_invalid_status_code() {
    match parse_error(decode_response("{\"status_code\":\"99\",\"status_txt\":\"x\"}")) {
        ResponseParseError::NoMatchingShape {
            as_failure: FieldError::InvalidString { field, reason, .. },
            as_success: FieldError::Missing(Field::Data),
        } => {
            assert_eq!(field, Field::StatusCode);
            assert_eq!(reason, NumberStringError::Value(99));
            assert_eq!(field.expected(), "valid HTTP status code");
        }
        other => panic!("unexpected {:?}", other),
    }
    assert!(matches!(
        parse_error(decode_response("{\"status_code\":700,\"status_txt\":\"x\"}")),
        ResponseParseError::NoMatchingShape {
            as_failure: FieldError::InvalidNumber { field: Field::StatusCode, value: 700 },
            ..
        }
    ));
    assert!(matches!(
        parse_error(decode_response("{\"status_code\":true,\"status_txt\":\"x\"}")),
        ResponseParseError::NoMatchingShape {
            as_failure: FieldError::WrongType(Field::StatusCode),
            ..
        }
    ));
}

#[test]
fn non_numeric_image_height_is_named() {
    match parse_error(decode_response(&plain_success_body("0", "abc"))) {
        ResponseParseError::NoMatchingShape {
            as_success: FieldError::InvalidString { field, text, reason },
            as_failure,
        } => {
            assert_eq!(field, Field::ImgHeight);
            assert_eq!(text, "abc");
            assert_eq!(reason, NumberStringError::Text(IntegerTextError::InvalidDigit));
            assert!(matches!(as_failure, FieldError::Missing(Field::StatusCode)));
        }
        other => panic!("unexpected {:?}", other),
    }
}

#[test]
fn document_without_data_nor_failure_fields() {
    match parse_error(decode_response("{\"something\":\"else\"}")) {
        ResponseParseError::NoMatchingShape { as_failure, as_success } => {
            assert!(matches!(as_failure, FieldError::Missing(Field::StatusCode)));
            assert!(matches!(as_success, FieldError::Missing(Field::Data)));
        }
        other => panic!("unexpected {:?}", other),
    }
    assert!(matches!(
        parse_error(decode_response("{\"status_code\":\"503\"}")),
        ResponseParseError::NoMatchingShape {
            as_failure: FieldError::Missing(Field::StatusTxt),
            ..
        }
    ));
}

#[test]
fn body_that_is_not_json_or_not_an_object() {
    assert!(matches!(
        parse_error(decode_response("<html>busy</html>")),
        ResponseParseError::Syntax(_)
    ));
    assert!(matches!(
        parse_error(decode_response("")),
        ResponseParseError::Syntax(_)
    ));
    assert!(matches!(
        parse_error(decode_response("[1, 2]")),
        ResponseParseError::NotAnObject
    ));
}

#[test]
fn both_shapes_at_once_is_ambiguous() {
    assert!(matches!(
        parse_error(decode_response(&success_body("1", "480"))),
        ResponseParseError::Ambiguous
    ));
}

#[test]
fn wrong_kinds_of_members() {
    let body = plain_success_body("0", "480").replace("\"thumb_height\":90", "\"thumb_height\":\"90\"");
    assert!(matches!(
        parse_error(decode_response(&body)),
        ResponseParseError::NoMatchingShape {
            as_success: FieldError::WrongType(Field::ThumbHeight),
            ..
        }
    ));
    let body = plain_success_body("0", "480").replace("\"thumb_width\":120", "\"thumb_width\":4294967296");
    assert!(matches!(
        parse_error(decode_response(&body)),
        ResponseParseError::NoMatchingShape {
            as_success: FieldError::InvalidNumber { field: Field::ThumbWidth, value: 4294967296 },
            ..
        }
    ));
    let body = plain_success_body("0", "480").replace("http://uploads.im/vwk7b.jpg", "not a url");
    match parse_error(decode_response(&body)) {
        ResponseParseError::NoMatchingShape {
            as_success: FieldError::InvalidUrl { field, text, .. },
            ..
        } => {
            assert_eq!(field, Field::ImgView);
            assert_eq!(text, "not a url");
        }
        other => panic!("unexpected {:?}", other),
    }
    assert!(matches!(
        parse_error(decode_response("{\"data\":\"none\"}")),
        ResponseParseError::NoMatchingShape {
            as_success: FieldError::WrongType(Field::Data),
            ..
        }
    ));
}

#[test]
fn image_height_above_u64_is_too_large() {
    assert!(matches!(
        parse_error(decode_response(&plain_success_body("0", "18446744073709551616"))),
        ResponseParseError::NoMatchingShape {
            as_success: FieldError::InvalidString {
                field: Field::ImgHeight,
                reason: NumberStringError::Text(IntegerTextError::TooLarge),
                ..
            },
            ..
        }
    ));
}

fn encode(img: &UploadedImage) -> String {
    let mut data = serde_json::Map::new();
    let text = |s: &str| serde_json::Value::String(s.to_owned());
    data.insert("img_name".to_owned(), text(&img.name));
    data.insert("img_url".to_owned(), text(img.full_size.url.as_str()));
    data.insert("img_view".to_owned(), text(img.view_url.as_str()));
    data.insert("img_height".to_owned(), text(&img.full_size.dimensions.height.to_string()));
    data.insert("img_width".to_owned(), text(&img.full_size.dimensions.width.to_string()));
    data.insert("thumb_url".to_owned(), text(img.thumbnail.url.as_str()));
    data.insert(
        "thumb_height".to_owned(),
        serde_json::Value::from(img.thumbnail.dimensions.height),
    );
    data.insert(
        "thumb_width".to_owned(),
        serde_json::Value::from(img.thumbnail.dimensions.width),
    );
    data.insert(
        "resized".to_owned(),
        text(if img.was_resized { "1" } else { "0" }),
    );
    let mut doc = serde_json::Map::new();
    doc.insert("data".to_owned(), serde_json::Value::Object(data));
    serde_json::to_string(&serde_json::Value::Object(doc)).expect("encodable")
}

#[test]
fn decode_encode_decode_keeps_every_field() {
    for resized in ["0", "1"] {
        let first = decode_response(&plain_success_body(resized, "480")).expect("success");
        let second = decode_response(&encode(&first)).expect("success");
        assert_eq!(first, second);
        assert_eq!(second.name, "vwk7b.jpg");
        assert_eq!(second.full_size.dimensions.height, 480);
    }
}

#[test]
fn decoding_a_parsed_value() {
    let doc: serde_json::Value =
        serde_json::from_str("{\"status_code\":\"404\",\"status_txt\":\"Not Found\"}").expect("json");
    assert!(matches!(
        decode_response_value(&doc),
        Err(UploadError::ResponseReturnedFailure { status_code: 404, .. })
    ));
}

#[test]
fn field_keys_and_descriptions() {
    assert_eq!(Field::ThumbWidth.key(), "thumb_width");
    assert_eq!(Field::StatusTxt.key(), "status_txt");
    assert_eq!(Field::Resized.expected(), "boolean integral value");
}
