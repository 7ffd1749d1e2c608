//! What an upload request is made of: the name under which the file is sent
//! and the endpoint URL.

use vstd::prelude::*;
use crate::error::{UploadError, UploadRequestURLBuildError};
use crate::options::{build_upload_url, endpoint_text, UploadOptions};
use crate::web_url::{url_parse, Url};

verus! {

/// Relies on `Path::file_name`, and on `OsStr::to_str` to take the name as
/// text: the last component of the path where it is a file name that is valid
/// Unicode. What a path's components are depends on the platform, so nothing
/// more is stated.
#[verifier::external_body]
fn file_name_of(path: &std::path::PathBuf) -> (r: Option<String>) {
    Some(path.file_name()?.to_str()?.to_owned())
}

/// The parts of an upload request that the library decides.
#[derive(Clone, Debug)]
pub struct UploadRequest {
    /// The name under which the file's bytes are sent.
    pub file_name: String,
    /// The endpoint to which the request is sent.
    pub url: Url,
}

/// The request for uploading the file at `file_path`, whose file name is
/// `file_name` (`None` where the path has none), with `options`.
pub fn upload_request_for(
    file_path: std::path::PathBuf,
    file_name: Option<String>,
    options: &UploadOptions,
) -> (r: Result<UploadRequest, UploadError>)
    ensures
        match file_name {
            None => r matches Err(UploadError::InvalidFilename(p)) && p == file_path,
            Some(n) => match url_parse(endpoint_text(*options)) {
                Some(u) => r matches Ok(req) && req.file_name@ == n@ && req.url@ == u,
                None => r matches Err(
                    UploadError::BuildingRequest(UploadRequestURLBuildError::URLValidationFailed(_)),
                ),
            },
        },
{
    let file_name = match file_name {
        Some(n) => n,
        None => return Err(UploadError::InvalidFilename(file_path)),
    };
    match build_upload_url(options) {
        Ok(url) => Ok(UploadRequest { file_name, url }),
        Err(e) => Err(UploadError::BuildingRequest(e)),
    }
}

/// The request for uploading the file at `file_path` with `options`; it
/// fails with `InvalidFilename` where the path has no file name.
pub fn prepare_upload(file_path: std::path::PathBuf, options: &UploadOptions) -> (r: Result<
    UploadRequest,
    UploadError,
>)
    ensures
        match r {
            Ok(req) => url_parse(endpoint_text(*options)) == Some(req.url@),
            Err(UploadError::InvalidFilename(p)) => p == file_path,
            Err(UploadError::BuildingRequest(e)) => e matches UploadRequestURLBuildError::URLValidationFailed(_)
                && url_parse(endpoint_text(*options)) is None,
            Err(_) => false,
        },
{
    let name = file_name_of(&file_path);
    upload_request_for(file_path, name, options)
}

} // verus!
