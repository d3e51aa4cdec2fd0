//! Types of the transcoding and source-separation job service that fronts
//! the daemon: job kinds and statuses, output formats, separation models,
//! and the option records that job creation accepts.

use vstd::prelude::*;

use crate::text::{ascii_ieq, eq_ignore_ascii_case, str_eq};

verus! {

/// The kind of a processing job.
#[derive(Debug, Clone, Copy, PartialEq, Eq, Structural)]
pub enum JobType {
    Transcode,
    Demucs,
}

/// The lifecycle status of a job.
#[derive(Debug, Clone, Copy, PartialEq, Eq, Structural)]
pub enum JobStatus {
    /// Queued, waiting to start.
    Pending,
    /// Currently processing.
    Processing,
    /// Completed successfully.
    Completed,
    /// Failed with an error.
    Failed,
    /// Cancelled by the user.
    Cancelled,
}

/// Output container formats for transcoding.
#[derive(Debug, Clone, Copy, PartialEq, Eq, Structural)]
pub enum OutputFormat {
    Mp4,
    Webm,
    Mkv,
    Mp3,
    Ogg,
    Flac,
}

/// The file extension of an output format.
pub open spec fn format_extension(f: OutputFormat) -> Seq<char> {
    match f {
        OutputFormat::Mp4 => "mp4"@,
        OutputFormat::Webm => "webm"@,
        OutputFormat::Mkv => "mkv"@,
        OutputFormat::Mp3 => "mp3"@,
        OutputFormat::Ogg => "ogg"@,
        OutputFormat::Flac => "flac"@,
    }
}

impl OutputFormat {
    /// The file extension used for this format.
    pub fn extension(&self) -> (r: &'static str)
        ensures
            r@ == format_extension(*self),
    {
        match self {
            OutputFormat::Mp4 => "mp4",
            OutputFormat::Webm => "webm",
            OutputFormat::Mkv => "mkv",
            OutputFormat::Mp3 => "mp3",
            OutputFormat::Ogg => "ogg",
            OutputFormat::Flac => "flac",
        }
    }

    /// Whether the format carries audio only.
    pub fn is_audio_only(&self) -> (r: bool)
        ensures
            r == (*self == OutputFormat::Mp3 || *self == OutputFormat::Ogg || *self
                == OutputFormat::Flac),
    {
        match self {
            OutputFormat::Mp3 | OutputFormat::Ogg | OutputFormat::Flac => true,
            _ => false,
        }
    }

    /// Parses a format name case-insensitively.
    pub fn from_name(s: &str) -> (r: Result<OutputFormat, String>)
        ensures
            match r {
                Ok(f) => ascii_ieq(s@, format_extension(f)),
                Err(m) => {
                    &&& forall|f: OutputFormat| !ascii_ieq(s@, format_extension(f))
                    &&& m@ == "Unknown format: "@ + s@
                },
            },
    {
        if eq_ignore_ascii_case(s, "mp4") {
            Ok(OutputFormat::Mp4)
        } else if eq_ignore_ascii_case(s, "webm") {
            Ok(OutputFormat::Webm)
        } else if eq_ignore_ascii_case(s, "mkv") {
            Ok(OutputFormat::Mkv)
        } else if eq_ignore_ascii_case(s, "mp3") {
            Ok(OutputFormat::Mp3)
        } else if eq_ignore_ascii_case(s, "ogg") {
            Ok(OutputFormat::Ogg)
        } else if eq_ignore_ascii_case(s, "flac") {
            Ok(OutputFormat::Flac)
        } else {
            proof {
                assert forall|f: OutputFormat| !ascii_ieq(s@, format_extension(f)) by {
                    match f {
                        OutputFormat::Mp4 => assert(!ascii_ieq(s@, "mp4"@)),
                        OutputFormat::Webm => assert(!ascii_ieq(s@, "webm"@)),
                        OutputFormat::Mkv => assert(!ascii_ieq(s@, "mkv"@)),
                        OutputFormat::Mp3 => assert(!ascii_ieq(s@, "mp3"@)),
                        OutputFormat::Ogg => assert(!ascii_ieq(s@, "ogg"@)),
                        OutputFormat::Flac => assert(!ascii_ieq(s@, "flac"@)),
                    }
                }
            }
            let mut m: Vec<char> = Vec::new();
            crate::text::push_str_chars(&mut m, "Unknown format: ");
            crate::text::push_str_chars(&mut m, s);
            Err(crate::text::chars_to_string(&m))
        }
    }
}

impl core::str::FromStr for OutputFormat {
    type Err = String;

    fn from_str(s: &str) -> Result<OutputFormat, String> {
        OutputFormat::from_name(s)
    }
}

/// The source-separation models.
#[derive(Debug, Clone, Copy, PartialEq, Eq, Structural)]
pub enum DemucsModel {
    /// Default hybrid transformer model.
    HtDemucs,
    /// Fine-tuned variant with better quality.
    HtDemucsFineTuned,
    /// Six-stem variant (adds guitar and piano).
    HtDemucs6s,
    /// MDX-Net model.
    MdxExtra,
}

/// The element-property name of a model.
pub open spec fn model_name(m: DemucsModel) -> Seq<char> {
    match m {
        DemucsModel::HtDemucs => "htdemucs"@,
        DemucsModel::HtDemucsFineTuned => "htdemucs_ft"@,
        DemucsModel::HtDemucs6s => "htdemucs_6s"@,
        DemucsModel::MdxExtra => "mdx_extra"@,
    }
}

/// The stems a model produces, in order.
pub open spec fn model_stems(m: DemucsModel) -> Seq<Seq<char>> {
    match m {
        DemucsModel::HtDemucs6s => seq![
            "vocals"@,
            "drums"@,
            "bass"@,
            "guitar"@,
            "piano"@,
            "other"@,
        ],
        _ => seq!["vocals"@, "drums"@, "bass"@, "other"@],
    }
}

impl DemucsModel {
    /// The model's name, as the separation element expects it.
    pub fn as_str(&self) -> (r: &'static str)
        ensures
            r@ == model_name(*self),
    {
        match self {
            DemucsModel::HtDemucs => "htdemucs",
            DemucsModel::HtDemucsFineTuned => "htdemucs_ft",
            DemucsModel::HtDemucs6s => "htdemucs_6s",
            DemucsModel::MdxExtra => "mdx_extra",
        }
    }

    /// The stems this model produces.
    pub fn stems(&self) -> (r: Vec<&'static str>)
        ensures
            r@.len() == model_stems(*self).len(),
            forall|i: int| 0 <= i < r@.len() ==> (#[trigger] r@[i])@ == model_stems(*self)[i],
    {
        match self {
            DemucsModel::HtDemucs6s => {
                let r = vec!["vocals", "drums", "bass", "guitar", "piano", "other"];
                assert(r@.len() == 6);
                r
            },
            _ => {
                let r = vec!["vocals", "drums", "bass", "other"];
                assert(r@.len() == 4);
                r
            },
        }
    }

    /// Parses a model name case-insensitively.
    pub fn from_name(s: &str) -> (r: Result<DemucsModel, String>)
        ensures
            match r {
                Ok(m) => ascii_ieq(s@, model_name(m)),
                Err(m) => {
                    &&& forall|f: DemucsModel| !ascii_ieq(s@, model_name(f))
                    &&& m@ == "Unknown demucs model: "@ + s@
                },
            },
    {
        if eq_ignore_ascii_case(s, "htdemucs") {
            Ok(DemucsModel::HtDemucs)
        } else if eq_ignore_ascii_case(s, "htdemucs_ft") {
            Ok(DemucsModel::HtDemucsFineTuned)
        } else if eq_ignore_ascii_case(s, "htdemucs_6s") {
            Ok(DemucsModel::HtDemucs6s)
        } else if eq_ignore_ascii_case(s, "mdx_extra") {
            Ok(DemucsModel::MdxExtra)
        } else {
            proof {
                assert forall|f: DemucsModel| !ascii_ieq(s@, model_name(f)) by {
                    match f {
                        DemucsModel::HtDemucs => assert(!ascii_ieq(s@, "htdemucs"@)),
                        DemucsModel::HtDemucsFineTuned => assert(!ascii_ieq(s@, "htdemucs_ft"@)),
                        DemucsModel::HtDemucs6s => assert(!ascii_ieq(s@, "htdemucs_6s"@)),
                        DemucsModel::MdxExtra => assert(!ascii_ieq(s@, "mdx_extra"@)),
                    }
                }
            }
            let mut m: Vec<char> = Vec::new();
            crate::text::push_str_chars(&mut m, "Unknown demucs model: ");
            crate::text::push_str_chars(&mut m, s);
            Err(crate::text::chars_to_string(&m))
        }
    }
}

impl core::str::FromStr for DemucsModel {
    type Err = String;

    fn from_str(s: &str) -> Result<DemucsModel, String> {
        DemucsModel::from_name(s)
    }
}

impl Default for DemucsModel {
    /// The default separation model.
    fn default() -> (r: DemucsModel)
        ensures
            r == DemucsModel::HtDemucs,
    {
        DemucsModel::HtDemucs
    }
}

/// Options for a transcoding job.
#[derive(Debug, Clone, PartialEq)]
pub struct TranscodeOptions {
    pub output_format: OutputFormat,
    pub video_bitrate_kbps: Option<u32>,
    pub audio_bitrate_kbps: Option<u32>,
    pub width: Option<u32>,
    pub height: Option<u32>,
}

impl Default for TranscodeOptions {
    /// MP4 output with every tunable left to its default.
    fn default() -> (r: TranscodeOptions)
        ensures
            r.output_format == OutputFormat::Mp4,
            r.video_bitrate_kbps is None,
            r.audio_bitrate_kbps is None,
            r.width is None,
            r.height is None,
    {
        TranscodeOptions {
            output_format: OutputFormat::Mp4,
            video_bitrate_kbps: None,
            audio_bitrate_kbps: None,
            width: None,
            height: None,
        }
    }
}

/// Options for a source-separation job.
#[derive(Debug, Clone, PartialEq)]
pub struct DemucsOptions {
    /// Model to use for separation.
    pub model: DemucsModel,
    /// Stems to extract; empty means all the model produces.
    pub stems: Vec<String>,
    /// Output format for stems: `wav` or `flac`.
    pub output_format: String,
}

impl Default for DemucsOptions {
    /// The default model, all stems, WAV output.
    fn default() -> (r: DemucsOptions)
        ensures
            r.model == DemucsModel::HtDemucs,
            r.stems@.len() == 0,
            r.output_format@ == "wav"@,
    {
        DemucsOptions {
            model: DemucsModel::HtDemucs,
            stems: Vec::new(),
            output_format: String::from_str("wav"),
        }
    }
}

/// Job-specific options.
#[derive(Debug, Clone, PartialEq)]
pub enum JobOptions {
    Transcode(TranscodeOptions),
    Demucs(DemucsOptions),
}

impl JobOptions {
    /// The job kind these options belong to.
    pub fn job_type(&self) -> (r: JobType)
        ensures
            r == match *self {
                JobOptions::Transcode(..) => JobType::Transcode,
                JobOptions::Demucs(..) => JobType::Demucs,
            },
    {
        match self {
            JobOptions::Transcode(_) => JobType::Transcode,
            JobOptions::Demucs(_) => JobType::Demucs,
        }
    }
}

/// One downloadable stem of a completed separation job.
#[derive(Debug, Clone, PartialEq)]
pub struct StemDownload {
    pub stem: String,
    pub url: String,
}

/// The response body for a created job.
#[derive(Debug, Clone, PartialEq)]
pub struct JobCreatedResponse {
    pub job_id: String,
    pub job_type: String,
    pub status: String,
    pub message: String,
}

/// Query parameters accepted when creating a transcode job.
#[derive(Debug, Clone, PartialEq)]
pub struct CreateTranscodeQuery {
    pub output_format: String,
    pub video_bitrate_kbps: Option<u32>,
    pub audio_bitrate_kbps: Option<u32>,
    pub width: Option<u32>,
    pub height: Option<u32>,
}

/// Query parameters accepted when creating a separation job.
#[derive(Debug, Clone, PartialEq)]
pub struct CreateDemucsQuery {
    pub model: String,
    /// Comma-separated list of stems to extract; empty means all.
    pub stems: String,
    pub output_format: String,
}

/// Whether `stem` is one of the stems in `list`.
pub fn stem_list_contains(list: &Vec<&'static str>, stem: &str) -> (r: bool)
    ensures
        r == exists|i: int| 0 <= i < list@.len() && (#[trigger] list@[i])@ == stem@,
{
    let n = list.len();
    let mut i: usize = 0;
    while i < n
        invariant
            i <= n,
            n == list@.len(),
            forall|j: int| 0 <= j < i ==> (#[trigger] list@[j])@ != stem@,
        decreases n - i,
    {
        if str_eq(list[i], stem) {
            return true;
        }
        i += 1;
    }
    false
}

/// Whether `s` is one of the strings in `list`.
pub fn string_list_contains(list: &Vec<String>, s: &str) -> (r: bool)
    ensures
        r == exists|i: int| 0 <= i < list@.len() && (#[trigger] list@[i])@ == s@,
{
    let n = list.len();
    let mut i: usize = 0;
    while i < n
        invariant
            i <= n,
            n == list@.len(),
            forall|j: int| 0 <= j < i ==> (#[trigger] list@[j])@ != s@,
        decreases n - i,
    {
        if str_eq(list[i].as_str(), s) {
            return true;
        }
        i += 1;
    }
    false
}

} // verus!
