//! Configuration of the job-service front end: server address, daemon
//! URL, data directories, limits, and the upload-extension policy.

use vstd::prelude::*;

use crate::text::{ascii_ieq, eq_ignore_ascii_case};

verus! {

/// Joins a directory and a relative component with a single separator.
pub open spec fn path_joined(dir: Seq<char>, name: Seq<char>) -> Seq<char> {
    if dir.len() > 0 && dir.last() == '/' {
        dir + name
    } else {
        dir + "/"@ + name
    }
}

/// Joins a directory and a relative component with a single separator.
pub fn path_join(dir: &str, name: &str) -> (r: String)
    ensures
        r@ == path_joined(dir@, name@),
{
    let mut out: Vec<char> = Vec::new();
    crate::text::push_str_chars(&mut out, dir);
    let n = out.len();
    if n == 0 || out[n - 1] != '/' {
        out.push('/');
        proof {
            reveal_strlit("/");
            assert(out@ =~= dir@ + "/"@);
        }
    }
    crate::text::push_str_chars(&mut out, name);
    crate::text::chars_to_string(&out)
}

/// Settings of the job-service front end.
#[derive(Debug, Clone, PartialEq)]
pub struct Config {
    /// Server host address.
    pub host: String,
    /// Server port.
    pub port: u16,
    /// The daemon's WebSocket URL.
    pub gpop_url: String,
    /// Data directory for uploads and outputs.
    pub data_dir: String,
    /// Maximum upload file size in megabytes.
    pub max_upload_mb: usize,
    /// Maximum concurrent jobs.
    pub max_concurrent_jobs: usize,
    /// File retention period in hours; zero keeps files forever.
    pub retention_hours: u64,
}

impl Config {
    /// The upload limit in bytes.
    pub fn max_upload_bytes(&self) -> (r: usize)
        requires
            self.max_upload_mb * 1024 * 1024 <= usize::MAX,
        ensures
            r == self.max_upload_mb * 1024 * 1024,
    {
        self.max_upload_mb * 1024 * 1024
    }

    /// The directory uploaded files are stored under.
    pub fn uploads_dir(&self) -> (r: String)
        ensures
            r@ == path_joined(self.data_dir@, "uploads"@),
    {
        path_join(self.data_dir.as_str(), "uploads")
    }

    /// The directory outputs are written under.
    pub fn outputs_dir(&self) -> (r: String)
        ensures
            r@ == path_joined(self.data_dir@, "outputs"@),
    {
        path_join(self.data_dir.as_str(), "outputs")
    }
}

/// The upload extensions the service accepts: common video and audio
/// container formats, compared case-insensitively.
pub open spec fn allowed_extension(e: Seq<char>) -> bool {
    ||| ascii_ieq(e, "mp4"@)
    ||| ascii_ieq(e, "mkv"@)
    ||| ascii_ieq(e, "webm"@)
    ||| ascii_ieq(e, "avi"@)
    ||| ascii_ieq(e, "mov"@)
    ||| ascii_ieq(e, "wmv"@)
    ||| ascii_ieq(e, "flv"@)
    ||| ascii_ieq(e, "m4v"@)
    ||| ascii_ieq(e, "ts"@)
    ||| ascii_ieq(e, "mts"@)
    ||| audio_extension(e)
}

/// The audio-only extensions, accepted for source separation.
pub open spec fn audio_extension(e: Seq<char>) -> bool {
    ||| ascii_ieq(e, "mp3"@)
    ||| ascii_ieq(e, "wav"@)
    ||| ascii_ieq(e, "ogg"@)
    ||| ascii_ieq(e, "flac"@)
    ||| ascii_ieq(e, "aac"@)
    ||| ascii_ieq(e, "m4a"@)
    ||| ascii_ieq(e, "wma"@)
    ||| ascii_ieq(e, "opus"@)
}

/// Whether a file extension is allowed for upload.
pub fn is_allowed_extension(ext: &str) -> (r: bool)
    ensures
        r == allowed_extension(ext@),
{
    eq_ignore_ascii_case(ext, "mp4") || eq_ignore_ascii_case(ext, "mkv") || eq_ignore_ascii_case(
        ext,
        "webm",
    ) || eq_ignore_ascii_case(ext, "avi") || eq_ignore_ascii_case(ext, "mov")
        || eq_ignore_ascii_case(ext, "wmv") || eq_ignore_ascii_case(ext, "flv")
        || eq_ignore_ascii_case(ext, "m4v") || eq_ignore_ascii_case(ext, "ts")
        || eq_ignore_ascii_case(ext, "mts") || is_audio_extension(ext)
}

/// Whether a file extension is an audio format (for source separation).
pub fn is_audio_extension(ext: &str) -> (r: bool)
    ensures
        r == audio_extension(ext@),
{
    eq_ignore_ascii_case(ext, "mp3") || eq_ignore_ascii_case(ext, "wav") || eq_ignore_ascii_case(
        ext,
        "ogg",
    ) || eq_ignore_ascii_case(ext, "flac") || eq_ignore_ascii_case(ext, "aac")
        || eq_ignore_ascii_case(ext, "m4a") || eq_ignore_ascii_case(ext, "wma")
        || eq_ignore_ascii_case(ext, "opus")
}

} // verus!
