//! Settings of the service: where the intermediate files live, which model
//! refines the text and the credentials of the storage bucket.

use vstd::prelude::*;

verus! {

/// The settings read from the configuration file at start-up.
#[derive(Clone)]
pub struct Config {
    pub video_path: String,
    pub audio_path: String,
    pub transcribed_json: String,
    pub transcribed_text: String,
    pub refactored_md: String,
    pub refactored_html: String,
    pub model_uri: String,
    pub aws_access_key_id: String,
    pub aws_secret_access_key: String,
    pub bucket_name: String,
    pub token_path: String,
    pub telegram_bot_key: String,
    pub telegram_user_secret: String,
}

} // verus!
