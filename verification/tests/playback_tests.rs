use gpop::manager::PipelineManager;
use gpop::pipeline::ParseOutcome;
use gpop::playback::{PlaybackTracker, EXIT_CODE_ERROR, EXIT_CODE_UNSUPPORTED};
use gpop::PipelineEvent;

fn eos(id: &str) -> PipelineEvent {
    PipelineEvent::Eos {
        pipeline_id: id.to_string(),
    }
}

#[test]
fn test_single_pipeline_eos() {
    let mut t = PlaybackTracker::new(vec!["0".to_string()], false);
    assert!(!t.is_done());
    t.on_event(&eos("0"));
    assert!(t.is_done());
    assert_eq!(t.exit_code(), 0);
}

#[test]
fn test_multiple_pipelines_all_eos() {
    let ids = vec!["0".to_string(), "1".to_string(), "2".to_string()];
    let mut t = PlaybackTracker::new(ids, false);
    t.on_event(&eos("1"));
    t.on_event(&eos("0"));
    assert!(!t.is_done());
    t.on_event(&eos("2"));
    assert!(t.is_done());
    assert_eq!(t.exit_code(), 0);
}

#[test]
fn test_mixed_eos_and_error() {
    let mut t = PlaybackTracker::new(vec!["0".to_string(), "1".to_string()], false);
    t.on_event(&eos("0"));
    t.on_event(&PipelineEvent::Error {
        pipeline_id: "1".to_string(),
        message: "stream error".to_string(),
    });
    assert!(t.is_done());
    assert_eq!(t.exit_code(), EXIT_CODE_ERROR);
}

#[test]
fn test_unsupported_event_tracked() {
    let mut t = PlaybackTracker::new(vec!["0".to_string(), "1".to_string()], false);
    t.on_event(&eos("0"));
    t.on_event(&PipelineEvent::Unsupported {
        pipeline_id: "1".to_string(),
        message: "missing codec: test".to_string(),
    });
    assert!(t.is_done());
    assert_eq!(t.exit_code(), EXIT_CODE_UNSUPPORTED);
}

#[test]
fn test_error_takes_priority_over_unsupported() {
    let mut t = PlaybackTracker::new(vec!["0".to_string(), "1".to_string()], false);
    t.on_event(&PipelineEvent::Unsupported {
        pipeline_id: "0".to_string(),
        message: "missing codec".to_string(),
    });
    t.on_event(&PipelineEvent::Error {
        pipeline_id: "1".to_string(),
        message: "boom".to_string(),
    });
    assert!(t.is_done());
    assert_eq!(t.exit_code(), EXIT_CODE_ERROR);
}

#[test]
fn test_pipeline_removed_during_playback() {
    let mut t = PlaybackTracker::new(vec!["0".to_string(), "1".to_string()], false);
    t.on_event(&eos("0"));
    t.on_event(&PipelineEvent::PipelineRemoved {
        pipeline_id: "1".to_string(),
    });
    assert!(t.is_done());
    assert_eq!(t.exit_code(), EXIT_CODE_ERROR);
}

#[test]
fn test_untracked_events_do_not_move_flags() {
    let mut t = PlaybackTracker::new(vec!["0".to_string()], false);
    t.on_event(&PipelineEvent::Error {
        pipeline_id: "5".to_string(),
        message: "someone else's problem".to_string(),
    });
    assert!(!t.is_done());
    t.on_event(&eos("0"));
    assert_eq!(t.exit_code(), 0);
}

#[test]
fn test_initial_start_failure_forces_error_exit() {
    let mut t = PlaybackTracker::new(vec!["1".to_string()], true);
    t.on_event(&eos("1"));
    assert!(t.is_done());
    assert_eq!(t.exit_code(), EXIT_CODE_ERROR);
}

#[test]
fn test_lag_reconciliation_drops_vanished_pipelines() {
    let mut manager = PipelineManager::new();
    let keep = manager
        .add_pipeline("videotestsrc num-buffers=10 ! fakesink", ParseOutcome::Parsed)
        .unwrap();
    let gone = manager
        .add_pipeline("videotestsrc ! fakesink", ParseOutcome::Parsed)
        .unwrap();

    let mut t = PlaybackTracker::new(vec![keep.clone(), gone.clone()], false);
    manager.remove_pipeline(&gone).unwrap();

    t.reconcile(&manager);
    assert!(!t.is_done());
    t.on_event(&eos(&keep));
    assert!(t.is_done());
    assert_eq!(t.exit_code(), EXIT_CODE_ERROR);
}

#[test]
fn test_channel_closed_abandons_run() {
    let mut t = PlaybackTracker::new(vec!["0".to_string()], false);
    t.on_closed();
    assert!(t.is_done());
    assert_eq!(t.exit_code(), EXIT_CODE_ERROR);
}
