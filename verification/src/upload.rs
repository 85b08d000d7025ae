//! Uploading the audio file to the object storage: the bucket, the object
//! key and the lifetime of the link that is handed to speech recognition.
//! The application talks to the storage.

use vstd::prelude::*;
use crate::config::Config;
use crate::paths::{file_name, path_file_name};

verus! {

/// The storage service.
pub const STORAGE_ENDPOINT_URL: &'static str = "https://storage.yandexcloud.net";

/// The region of the storage service.
pub const STORAGE_REGION: &'static str = "ru-central1";

/// How long the download link of an uploaded object stays valid: six hours.
pub const LINK_EXPIRY_SECS: u64 = 21600;

/// Uploads files to one bucket.
pub struct Uploader {
    pub bucket_name: String,
}

/// Where an upload goes.
pub struct UploadTarget {
    pub bucket: String,
    /// The object key: the file name of the local file.
    pub key: String,
    /// The lifetime of the presigned download link, in seconds.
    pub expires_secs: u64,
}

/// The local path has no file name.
pub enum UploadError {
    FileName,
}

impl Uploader {
    /// An uploader for the bucket of the configuration.
    pub fn new(config: &Config) -> (u: Self)
        ensures
            u.bucket_name@ == config.bucket_name@,
    {
        Uploader { bucket_name: config.bucket_name.clone() }
    }

    /// The object an upload of `local_file_path` replaces and creates: in
    /// this bucket, keyed by the file name, linked for six hours. Fails when
    /// the path has no file name.
    pub fn target(&self, local_file_path: &str) -> (r: Result<UploadTarget, UploadError>)
        ensures
            path_file_name(local_file_path@) is None <==> r is Err,
            r matches Ok(t) ==> {
                &&& path_file_name(local_file_path@) == Some(t.key@)
                &&& t.bucket@ == self.bucket_name@
                &&& t.expires_secs == LINK_EXPIRY_SECS
            },
    {
        match file_name(local_file_path) {
            Some(key) => Ok(
                UploadTarget { bucket: self.bucket_name.clone(), key, expires_secs: LINK_EXPIRY_SECS },
            ),
            None => Err(UploadError::FileName),
        }
    }
}

} // verus!
