use std::path::PathBuf;
use uploads_im_client::{
    build_upload_url, prepare_upload, upload_request_for, UploadError,
    UploadRequestURLBuildError, UploadOptions, Url, DEFAULT_HOST,
};

fn options(
    resize_width: Option<u64>,
    thumbnail_width: Option<u32>,
    family_unsafe: Option<bool>,
) -> UploadOptions {
    UploadOptions {
        host: DEFAULT_HOST.to_owned(),
        resize_width,
        thumbnail_width,
        family_unsafe,
    }
}

fn endpoint(o: &UploadOptions) -> String {
    build_upload_url(o).expect("valid endpoint").as_str().to_owned()
}

#[test]
fn default_options() {
    let o = UploadOptions::default();
    assert_eq!(o.host, "uploads.im");
    assert_eq!(o.resize_width, None);
    assert_eq!(o.thumbnail_width, None);
    assert_eq!(o.family_unsafe, None);
}

#[test]
fn endpoint_without_options_is_bare() {
    assert_eq!(endpoint(&UploadOptions::default()), "http://uploads.im/api?upload");
    let mut o = UploadOptions::default();
    o.host = "example.org".to_owned();
    assert_eq!(endpoint(&o), "http://example.org/api?upload");
}

#[test]
fn endpoint_with_every_combination_of_options() {
    let cases: Vec<(UploadOptions, &str)> = vec![
        (options(Some(800), None, None), "&resize_width=800"),
        (options(None, Some(100), None), "&thumb_width=100"),
        (options(None, None, Some(true)), "&family_unsafe=true"),
        (options(None, None, Some(false)), "&family_unsafe=false"),
        (
            options(Some(800), Some(100), None),
            "&resize_width=800&thumb_width=100",
        ),
        (
            options(Some(800), None, Some(false)),
            "&resize_width=800&family_unsafe=false",
        ),
        (
            options(None, Some(100), Some(true)),
            "&family_unsafe=true&thumb_width=100",
        ),
        (
            options(Some(18446744073709551615), Some(4294967295), Some(true)),
            "&resize_width=18446744073709551615&family_unsafe=true&thumb_width=4294967295",
        ),
        (options(Some(0), Some(0), None), "&resize_width=0&thumb_width=0"),
    ];
    for (o, query) in cases {
        let url = endpoint(&o);
        assert_eq!(url, format!("http://uploads.im/api?upload{}", query));
        let params: Vec<&str> = url["http://uploads.im/api?upload&".len()..].split('&').collect();
        let set = o.resize_width.is_some() as usize
            + o.thumbnail_width.is_some() as usize
            + o.family_unsafe.is_some() as usize;
        assert_eq!(params.len(), set);
    }
}

#[test]
fn endpoint_with_invalid_host_fails_validation() {
    let mut o = UploadOptions::default();
    o.host = "exa mple.org".to_owned();
    assert!(matches!(
        build_upload_url(&o),
        Err(UploadRequestURLBuildError::URLValidationFailed(_))
    ));
}

#[test]
fn endpoint_host_is_normalized_by_url_parsing() {
    let mut o = UploadOptions::default();
    o.host = "Uploads.IM".to_owned();
    assert_eq!(endpoint(&o), "http://uploads.im/api?upload");
}

#[test]
fn url_parse_normalizes() {
    let u = Url::parse("HTTP://Example.COM").expect("valid url");
    assert_eq!(u.as_str(), "http://example.com/");
    assert!(Url::parse("not a url").is_err());
}

#[test]
fn invalid_filename_for_root_path() {
    let r = prepare_upload(PathBuf::from("/"), &UploadOptions::default());
    match r {
        Err(UploadError::InvalidFilename(p)) => assert_eq!(p, PathBuf::from("/")),
        other => panic!("unexpected {:?}", other),
    }
    assert!(matches!(
        prepare_upload(PathBuf::from(""), &UploadOptions::default()),
        Err(UploadError::InvalidFilename(_))
    ));
    assert!(matches!(
        prepare_upload(PathBuf::from("images/.."), &UploadOptions::default()),
        Err(UploadError::InvalidFilename(_))
    ));
}

#[test]
fn request_uses_base_name() {
    let req = prepare_upload(
        PathBuf::from("images/holiday/beach.jpg"),
        &options(Some(640), None, None),
    )
    .expect("valid request");
    assert_eq!(req.file_name, "beach.jpg");
    assert_eq!(req.url.as_str(), "http://uploads.im/api?upload&resize_width=640");
}

#[test]
fn request_without_name_is_invalid_filename() {
    let r = upload_request_for(PathBuf::from("x"), None, &UploadOptions::default());
    assert!(matches!(r, Err(UploadError::InvalidFilename(_))));
    let mut o = UploadOptions::default();
    o.host = "bad host".to_owned();
    let r = upload_request_for(PathBuf::from("x.png"), Some("x.png".to_owned()), &o);
    assert!(matches!(
        r,
        Err(UploadError::BuildingRequest(
            UploadRequestURLBuildError::URLValidationFailed(_)
        ))
    ));
}
