//! Downloading the audio track of a video: where the file goes, which
//! options the downloader gets, and the title that is reported. The
//! application removes an old file and runs the downloader.

use vstd::prelude::*;
use crate::paths::{file_name, parent, path_file_name, path_parent};

verus! {

/// A downloaded video: the local file and the title of the video.
pub struct VideoData {
    pub path: String,
    pub name: String,
}

/// How to run the downloader for one video.
pub struct DownloadPlan {
    pub url: String,
    /// The output template: the file name of the local path.
    pub file_name: String,
    /// The directory to download into: the parent of the local path.
    pub dir: String,
    /// The socket timeout, in seconds, as the downloader takes it.
    pub socket_timeout: String,
    /// The format selection.
    pub format: String,
}

/// Why no download can be planned.
pub enum DownloadError {
    /// The local path has no file name.
    FileName,
    /// The local path has no parent directory.
    Parent,
}

/// Plans the download of `url` to `local_path`: the file name is the output
/// template, the parent directory is where the file goes, with a 15 second
/// socket timeout and the format "m4a/bestaudio/best". Fails when the path
/// has no file name, then when it has no parent.
pub fn download_plan(url: String, local_path: &str) -> (r: Result<DownloadPlan, DownloadError>)
    ensures
        path_file_name(local_path@) is None <==> r matches Err(DownloadError::FileName),
        path_file_name(local_path@) is Some && path_parent(local_path@) is None <==> r matches Err(
            DownloadError::Parent,
        ),
        r matches Ok(p) ==> {
            &&& path_file_name(local_path@) == Some(p.file_name@)
            &&& path_parent(local_path@) == Some(p.dir@)
            &&& p.url@ == url@
            &&& p.socket_timeout@ == "15"@
            &&& p.format@ == "m4a/bestaudio/best"@
        },
{
    let name = match file_name(local_path) {
        Some(n) => n,
        None => return Err(DownloadError::FileName),
    };
    let dir = match parent(local_path) {
        Some(d) => d,
        None => return Err(DownloadError::Parent),
    };
    Ok(DownloadPlan {
        url,
        file_name: name,
        dir,
        socket_timeout: "15".to_owned(),
        format: "m4a/bestaudio/best".to_owned(),
    })
}

/// The title to report: the title of the single video the downloader
/// described, or the empty text when it described no single video or no title.
pub fn video_title(single_video_title: Option<Option<String>>) -> (t: String)
    ensures
        t@ == match single_video_title {
            Some(Some(s)) => s@,
            _ => Seq::<char>::empty(),
        },
{
    match single_video_title {
        Some(Some(s)) => s,
        _ => String::new(),
    }
}

/// The result of a finished download: the local path and the title.
pub fn downloaded(local_path: &str, title: String) -> (v: VideoData)
    ensures
        v.path@ == local_path@,
        v.name@ == title@,
{
    VideoData { path: local_path.to_owned(), name: title }
}

} // verus!
