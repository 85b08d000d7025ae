//! Extracting the audio track: the ffmpeg command line. The application
//! resolves the paths, removes an old audio file and runs ffmpeg.

use vstd::prelude::*;

verus! {

/// The program that converts the video.
pub const FFMPEG: &'static str = "ffmpeg";

/// The arguments to ffmpeg: overwrite, read `video_path`, mix down to one
/// channel at 48 kbit/s, write `audio_path`.
pub open spec fn ffmpeg_args_spec(video_path: Seq<char>, audio_path: Seq<char>) -> Seq<Seq<char>> {
    seq!["-y"@, "-i"@, video_path, "-ac"@, "1"@, "-ab"@, "48k"@, audio_path]
}

/// The arguments to ffmpeg for converting `video_path` to `audio_path`.
pub fn ffmpeg_args(video_path: &str, audio_path: &str) -> (args: Vec<String>)
    ensures
        args@.map_values(|a: String| a@) == ffmpeg_args_spec(video_path@, audio_path@),
{
    let mut args: Vec<String> = Vec::new();
    args.push("-y".to_owned());
    args.push("-i".to_owned());
    args.push(video_path.to_owned());
    args.push("-ac".to_owned());
    args.push("1".to_owned());
    args.push("-ab".to_owned());
    args.push("48k".to_owned());
    args.push(audio_path.to_owned());
    assert(args@.map_values(|a: String| a@) =~= ffmpeg_args_spec(video_path@, audio_path@));
    args
}

} // verus!
