use gpop::job_pipelines::{
    build_demucs_pipeline, build_transcode_pipeline, escape_path, get_demucs_output_files,
    get_stems_for_pipeline,
};
use gpop::jobs::{DemucsModel, DemucsOptions, JobOptions, JobType, OutputFormat, TranscodeOptions};
use gpop::storage::StorageManager;
use gpop::web_config::{is_allowed_extension, is_audio_extension, Config};
use gpop::web_error::AppError;
use gpop::web_events::GpopEvent;

fn default_transcode() -> TranscodeOptions {
    TranscodeOptions {
        output_format: OutputFormat::Mp4,
        video_bitrate_kbps: None,
        audio_bitrate_kbps: None,
        width: None,
        height: None,
    }
}

#[test]
fn test_mp4_pipeline() {
    let options = default_transcode();
    let pipeline = build_transcode_pipeline("/tmp/input.mkv", "/tmp/output.mp4", &options);

    assert!(pipeline.contains("filesrc"));
    assert!(pipeline.contains("decodebin"));
    assert!(pipeline.contains("x264enc"));
    assert!(pipeline.contains("mp4mux"));
    assert!(pipeline.contains("filesink"));
}

#[test]
fn test_mp3_pipeline() {
    let options = TranscodeOptions {
        output_format: OutputFormat::Mp3,
        audio_bitrate_kbps: Some(320),
        ..default_transcode()
    };

    let pipeline = build_transcode_pipeline("/tmp/input.wav", "/tmp/output.mp3", &options);

    assert!(pipeline.contains("lamemp3enc"));
    assert!(pipeline.contains("bitrate=320"));
}

#[test]
fn test_mp3_pipeline_exact_text() {
    let options = TranscodeOptions {
        output_format: OutputFormat::Mp3,
        audio_bitrate_kbps: Some(320),
        ..default_transcode()
    };
    let pipeline = build_transcode_pipeline("/tmp/input.wav", "/tmp/output.mp3", &options);
    assert_eq!(
        pipeline,
        "filesrc location=\"/tmp/input.wav\" ! decodebin ! audioconvert ! audioresample ! \
         lamemp3enc target=bitrate bitrate=320 ! id3v2mux ! filesink location=\"/tmp/output.mp3\""
    );
}

#[test]
fn test_demucs_pipeline_all_stems() {
    let options = DemucsOptions {
        model: DemucsModel::HtDemucs,
        stems: vec![],
        output_format: "wav".to_string(),
    };

    let pipeline = build_demucs_pipeline("/tmp/input.mp3", "/tmp/output", &options);

    assert!(pipeline.contains("demucs"));
    assert!(pipeline.contains("model=htdemucs"));
    assert!(pipeline.contains("src_vocals"));
    assert!(pipeline.contains("src_drums"));
    assert!(pipeline.contains("src_bass"));
    assert!(pipeline.contains("src_other"));
    assert!(pipeline.contains("wavenc"));
}

#[test]
fn test_demucs_pipeline_specific_stems() {
    let options = DemucsOptions {
        model: DemucsModel::HtDemucs,
        stems: vec!["vocals".to_string(), "drums".to_string()],
        output_format: "flac".to_string(),
    };

    let pipeline = build_demucs_pipeline("/tmp/input.mp3", "/tmp/output", &options);

    assert!(pipeline.contains("demucs"));
    assert!(pipeline.contains("src_vocals"));
    assert!(pipeline.contains("src_drums"));
    assert!(pipeline.contains("flacenc"));
    // Unused stems should go to fakesink
    assert!(pipeline.contains("src_bass ! fakesink"));
    assert!(pipeline.contains("src_other ! fakesink"));
}

#[test]
fn test_get_demucs_output_files() {
    let options = DemucsOptions {
        model: DemucsModel::HtDemucs,
        stems: vec!["vocals".to_string()],
        output_format: "wav".to_string(),
    };

    let files = get_demucs_output_files("/tmp/output", &options);

    assert_eq!(files.len(), 1);
    assert_eq!(files[0].0, "vocals");
    assert_eq!(files[0].1, "/tmp/output/vocals.wav");
}

#[test]
fn test_stem_selection_filters_unsupported() {
    let options = DemucsOptions {
        model: DemucsModel::HtDemucs,
        stems: vec!["vocals".to_string(), "theremin".to_string(), "bass".to_string()],
        output_format: "wav".to_string(),
    };
    let stems = get_stems_for_pipeline(&options);
    assert_eq!(stems, vec!["vocals".to_string(), "bass".to_string()]);

    let six = DemucsModel::HtDemucs6s.stems();
    assert_eq!(six, vec!["vocals", "drums", "bass", "guitar", "piano", "other"]);
}

#[test]
fn test_escape_path_quotes_and_backslashes() {
    assert_eq!(escape_path("/plain/path.mp4"), "/plain/path.mp4");
    assert_eq!(escape_path("/has \"q\"/x"), "/has \\\"q\\\"/x");
    assert_eq!(escape_path("back\\slash"), "back\\\\slash");
}

#[test]
fn test_output_format_properties() {
    assert_eq!(OutputFormat::Mp4.extension(), "mp4");
    assert_eq!(OutputFormat::Flac.extension(), "flac");
    assert!(!OutputFormat::Mp4.is_audio_only());
    assert!(!OutputFormat::Webm.is_audio_only());
    assert!(OutputFormat::Mp3.is_audio_only());
    assert!(OutputFormat::Ogg.is_audio_only());
    assert!(OutputFormat::Flac.is_audio_only());
    assert_eq!("MP3".parse::<OutputFormat>().unwrap(), OutputFormat::Mp3);
    assert!("wat".parse::<OutputFormat>().is_err());
}

#[test]
fn test_demucs_model_properties() {
    assert_eq!(DemucsModel::HtDemucs.as_str(), "htdemucs");
    assert_eq!(DemucsModel::HtDemucsFineTuned.as_str(), "htdemucs_ft");
    assert_eq!(DemucsModel::HtDemucs6s.as_str(), "htdemucs_6s");
    assert_eq!(DemucsModel::MdxExtra.as_str(), "mdx_extra");
    assert_eq!("htdemucs_6s".parse::<DemucsModel>().unwrap(), DemucsModel::HtDemucs6s);
    assert!("nope".parse::<DemucsModel>().is_err());
    assert_eq!(DemucsModel::default(), DemucsModel::HtDemucs);
}

#[test]
fn test_job_options_kind() {
    let t = JobOptions::Transcode(default_transcode());
    assert_eq!(t.job_type(), JobType::Transcode);
    let d = JobOptions::Demucs(DemucsOptions::default());
    assert_eq!(d.job_type(), JobType::Demucs);
}

#[test]
fn test_extension_policy() {
    for ext in ["mp4", "mkv", "webm", "avi", "mov", "wmv", "flv", "m4v", "ts", "mts"] {
        assert!(is_allowed_extension(ext), "{} should be allowed", ext);
        assert!(!is_audio_extension(ext), "{} is not audio", ext);
    }
    for ext in ["mp3", "wav", "ogg", "flac", "aac", "m4a", "wma", "opus"] {
        assert!(is_allowed_extension(ext), "{} should be allowed", ext);
        assert!(is_audio_extension(ext), "{} is audio", ext);
    }
    assert!(is_allowed_extension("MP4"));
    assert!(!is_allowed_extension("exe"));
    assert!(!is_audio_extension("mp4"));
}

fn config() -> Config {
    Config {
        host: "127.0.0.1".to_string(),
        port: 8080,
        gpop_url: "ws://127.0.0.1:9000".to_string(),
        data_dir: "./data".to_string(),
        max_upload_mb: 2048,
        max_concurrent_jobs: 4,
        retention_hours: 24,
    }
}

#[test]
fn test_config_paths_and_limits() {
    let c = config();
    assert_eq!(c.uploads_dir(), "./data/uploads");
    assert_eq!(c.outputs_dir(), "./data/outputs");
    assert_eq!(c.max_upload_bytes(), 2048 * 1024 * 1024);
}

#[test]
fn test_storage_layout() {
    let s = StorageManager::new(&config());
    assert_eq!(s.job_upload_dir("j1"), "./data/uploads/j1");
    assert_eq!(s.job_output_path("j1", "mp4"), "./data/outputs/j1.mp4");
    assert_eq!(s.job_demucs_output_dir("j1"), "./data/outputs/j1_stems");
    assert_eq!(s.outputs_dir(), "./data/outputs");
}

#[test]
fn test_app_error_messages() {
    assert_eq!(
        AppError::JobNotFound("j1".to_string()).message(),
        "Job not found: j1"
    );
    assert_eq!(
        AppError::FileTooLarge(2048, 1024).message(),
        "File too large: 2048 bytes (max: 1024 bytes)"
    );
    assert_eq!(
        AppError::GpopConnection("refused".to_string()).message(),
        "gpop connection error: refused"
    );
}

#[test]
fn test_client_event_shape() {
    let event = GpopEvent::StateChanged {
        pipeline_id: "0".to_string(),
        old_state: "null".to_string(),
        new_state: "playing".to_string(),
    };
    match event {
        GpopEvent::StateChanged { new_state, .. } => assert_eq!(new_state, "playing"),
        other => panic!("expected StateChanged, got {:?}", other),
    }
}
