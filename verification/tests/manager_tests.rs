use gpop::manager::PipelineManager;
use gpop::pipeline::{DotDetails, ParseOutcome, StateChangeOutcome};
use gpop::{GpopError, PipelineEvent, PipelineState};

fn parsed() -> ParseOutcome {
    ParseOutcome::Parsed
}

#[test]
fn test_pipeline_manager_new() {
    let manager = PipelineManager::new();
    assert_eq!(manager.pipeline_count(), 0);
}

#[test]
fn test_add_pipeline() {
    let mut manager = PipelineManager::new();
    let id = manager.add_pipeline("fakesrc ! fakesink", parsed()).unwrap();

    assert!(!id.is_empty());
    assert!(id.chars().all(|c| c.is_ascii_digit()));
    assert_eq!(manager.pipeline_count(), 1);
}

#[test]
fn test_add_multiple_pipelines() {
    let mut manager = PipelineManager::new();
    let id1 = manager.add_pipeline("fakesrc ! fakesink", parsed()).unwrap();
    let id2 = manager.add_pipeline("fakesrc ! fakesink", parsed()).unwrap();
    let id3 = manager.add_pipeline("fakesrc ! fakesink", parsed()).unwrap();

    assert_ne!(id1, id2);
    assert_ne!(id2, id3);
    assert_eq!(manager.pipeline_count(), 3);
}

#[test]
fn test_add_invalid_pipeline() {
    let mut manager = PipelineManager::new();
    let outcome = ParseOutcome::ParseFailed("no element \"invalid_element_xyz\"".to_string());
    let result = manager.add_pipeline("invalid_element_xyz ! fakesink", outcome);

    assert!(result.is_err());
    assert_eq!(manager.pipeline_count(), 0);
}

#[test]
fn test_remove_pipeline() {
    let mut manager = PipelineManager::new();
    let id = manager.add_pipeline("fakesrc ! fakesink", parsed()).unwrap();
    assert_eq!(manager.pipeline_count(), 1);

    manager.remove_pipeline(&id).unwrap();
    assert_eq!(manager.pipeline_count(), 0);
}

#[test]
fn test_remove_nonexistent_pipeline() {
    let mut manager = PipelineManager::new();
    let result = manager.remove_pipeline("nonexistent");
    assert!(result.is_err());
}

#[test]
fn test_get_pipeline_info() {
    let mut manager = PipelineManager::new();
    let id = manager.add_pipeline("fakesrc ! fakesink", parsed()).unwrap();
    let info = manager.get_pipeline_info(&id).unwrap();

    assert_eq!(info.id, id);
    assert_eq!(info.description, "fakesrc ! fakesink");
    assert_eq!(info.state, PipelineState::Null);
    assert!(!info.streaming);
}

#[test]
fn test_get_pipeline_description() {
    let mut manager = PipelineManager::new();
    let id = manager.add_pipeline("fakesrc ! fakesink", parsed()).unwrap();
    assert_eq!(manager.get_pipeline_description(&id).unwrap(), "fakesrc ! fakesink");
    assert!(manager.get_pipeline_description("99").is_err());
}

#[test]
fn test_list_pipelines() {
    let mut manager = PipelineManager::new();
    manager.add_pipeline("fakesrc ! fakesink", parsed()).unwrap();
    manager.add_pipeline("fakesrc ! fakesink", parsed()).unwrap();

    let list = manager.list_pipelines();
    assert_eq!(list.len(), 2);
}

#[test]
fn test_list_pipelines_empty() {
    let manager = PipelineManager::new();
    let list = manager.list_pipelines();
    assert!(list.is_empty());
}

#[test]
fn test_set_state() {
    let mut manager = PipelineManager::new();
    let id = manager.add_pipeline("fakesrc ! fakesink", parsed()).unwrap();

    manager.set_state(&id, PipelineState::Ready, StateChangeOutcome::Success).unwrap();
    let info = manager.get_pipeline_info(&id).unwrap();
    assert_eq!(info.state, PipelineState::Ready);

    manager.set_state(&id, PipelineState::Null, StateChangeOutcome::Success).unwrap();
}

#[test]
fn test_play_pause_stop() {
    let mut manager = PipelineManager::new();
    let id = manager.add_pipeline("fakesrc ! fakesink", parsed()).unwrap();

    manager.play(&id, StateChangeOutcome::Success).unwrap();
    assert!(manager.get_pipeline_info(&id).unwrap().streaming);

    manager.pause(&id, StateChangeOutcome::Success).unwrap();
    assert_eq!(manager.get_pipeline_info(&id).unwrap().state, PipelineState::Paused);

    manager.stop(&id, StateChangeOutcome::Success).unwrap();
    assert_eq!(manager.get_pipeline_info(&id).unwrap().state, PipelineState::Null);

    manager.shutdown();
}

#[test]
fn test_set_state_failure_leaves_state() {
    let mut manager = PipelineManager::new();
    let id = manager.add_pipeline("fakesrc ! fakesink", parsed()).unwrap();

    let err = manager.play(&id, StateChangeOutcome::Failure).unwrap_err();
    match err {
        GpopError::StateChangeFailed(msg) => {
            assert!(msg.contains("Failed to change state to playing"));
            assert!(msg.contains(&id));
        }
        other => panic!("expected StateChangeFailed, got {:?}", other),
    }
    assert_eq!(manager.get_pipeline_info(&id).unwrap().state, PipelineState::Null);
}

#[test]
fn test_get_dot() {
    let mut manager = PipelineManager::new();
    let id = manager.add_pipeline("fakesrc ! fakesink", parsed()).unwrap();

    assert_eq!(manager.get_dot(&id, None).unwrap(), DotDetails::All);
    assert_eq!(manager.get_dot(&id, Some("media")).unwrap(), DotDetails::MediaType);
    assert!(manager.get_dot("99", None).is_err());
}

#[test]
fn test_shutdown() {
    let mut manager = PipelineManager::new();
    manager.add_pipeline("fakesrc ! fakesink", parsed()).unwrap();
    manager.add_pipeline("fakesrc ! fakesink", parsed()).unwrap();
    assert_eq!(manager.pipeline_count(), 2);

    manager.shutdown();
    assert_eq!(manager.pipeline_count(), 0);
}

#[test]
fn test_events_emitted_on_add() {
    let mut manager = PipelineManager::new();
    manager.add_pipeline("fakesrc ! fakesink", parsed()).unwrap();

    match &manager.events[0] {
        PipelineEvent::PipelineAdded {
            pipeline_id,
            description,
        } => {
            assert!(!pipeline_id.is_empty());
            assert!(pipeline_id.chars().all(|c| c.is_ascii_digit()));
            assert_eq!(description, "fakesrc ! fakesink");
        }
        other => panic!("Expected PipelineAdded event, got {:?}", other),
    }
}

#[test]
fn test_events_emitted_on_remove() {
    let mut manager = PipelineManager::new();
    let id = manager.add_pipeline("fakesrc ! fakesink", parsed()).unwrap();
    manager.remove_pipeline(&id).unwrap();

    match &manager.events[1] {
        PipelineEvent::PipelineRemoved { pipeline_id } => {
            assert_eq!(pipeline_id, &id);
        }
        other => panic!("Expected PipelineRemoved event, got {:?}", other),
    }
}

#[test]
fn test_update_pipeline() {
    let mut manager = PipelineManager::new();
    let id = manager.add_pipeline("fakesrc ! fakesink", parsed()).unwrap();
    assert_eq!(manager.get_pipeline_description(&id).unwrap(), "fakesrc ! fakesink");

    manager.update_pipeline(&id, "videotestsrc ! fakesink", parsed()).unwrap();

    assert_eq!(
        manager.get_pipeline_description(&id).unwrap(),
        "videotestsrc ! fakesink"
    );
    assert_eq!(manager.pipeline_count(), 1);
}

#[test]
fn test_update_pipeline_nonexistent() {
    let mut manager = PipelineManager::new();
    let result = manager.update_pipeline("nonexistent", "fakesrc ! fakesink", parsed());
    assert!(result.is_err());
}

#[test]
fn test_update_pipeline_invalid_description() {
    let mut manager = PipelineManager::new();
    let id = manager.add_pipeline("fakesrc ! fakesink", parsed()).unwrap();

    let outcome = ParseOutcome::ParseFailed("no element \"invalid_element_xyz\"".to_string());
    let result = manager.update_pipeline(&id, "invalid_element_xyz ! fakesink", outcome);
    assert!(result.is_err());

    // Original pipeline should still be intact
    assert_eq!(manager.get_pipeline_description(&id).unwrap(), "fakesrc ! fakesink");
}

#[test]
fn test_update_pipeline_emits_event() {
    let mut manager = PipelineManager::new();
    let id = manager.add_pipeline("fakesrc ! fakesink", parsed()).unwrap();

    manager.update_pipeline(&id, "videotestsrc ! fakesink", parsed()).unwrap();

    match &manager.events[1] {
        PipelineEvent::PipelineUpdated {
            pipeline_id,
            description,
        } => {
            assert_eq!(pipeline_id, &id);
            assert_eq!(description, "videotestsrc ! fakesink");
        }
        other => panic!("Expected PipelineUpdated event, got {:?}", other),
    }
}

#[test]
fn test_nonexistent_pipeline_errors() {
    let mut manager = PipelineManager::new();

    assert!(manager.resolve_pipeline("nonexistent").is_err());
    assert!(manager
        .set_state("nonexistent", PipelineState::Playing, StateChangeOutcome::Success)
        .is_err());
    assert!(manager.play("nonexistent", StateChangeOutcome::Success).is_err());
    assert!(manager.pause("nonexistent", StateChangeOutcome::Success).is_err());
    assert!(manager.stop("nonexistent", StateChangeOutcome::Success).is_err());
    assert!(manager.get_dot("nonexistent", None).is_err());
}

#[test]
fn test_removed_id_stays_gone() {
    let mut manager = PipelineManager::new();
    let id = manager.add_pipeline("fakesrc ! fakesink", parsed()).unwrap();
    manager.remove_pipeline(&id).unwrap();

    match manager.get_pipeline_description(&id) {
        Err(GpopError::PipelineNotFound(m)) => assert_eq!(m, id),
        other => panic!("expected PipelineNotFound, got {:?}", other),
    }
    assert!(manager.remove_pipeline(&id).is_err());
    assert!(manager.play(&id, StateChangeOutcome::Success).is_err());
}

#[test]
fn test_add_remove_restores_count() {
    let mut manager = PipelineManager::new();
    manager.add_pipeline("fakesrc ! fakesink", parsed()).unwrap();
    let before = manager.pipeline_count();

    let id = manager.add_pipeline("videotestsrc ! fakesink", parsed()).unwrap();
    manager.remove_pipeline(&id).unwrap();
    assert_eq!(manager.pipeline_count(), before);

    let id2 = manager.add_pipeline("videotestsrc ! fakesink", parsed()).unwrap();
    manager.update_pipeline(&id2, "fakesrc ! fakesink", parsed()).unwrap();
    manager.remove_pipeline(&id2).unwrap();
    assert_eq!(manager.pipeline_count(), before);
}

#[test]
fn test_ids_unique_and_decimal_across_churn() {
    let mut manager = PipelineManager::new();
    let mut seen: Vec<String> = Vec::new();
    for _ in 0..10 {
        let id = manager.add_pipeline("fakesrc ! fakesink", parsed()).unwrap();
        assert!(id.chars().all(|c| c.is_ascii_digit()));
        assert!(!seen.contains(&id), "id {} reissued", id);
        manager.remove_pipeline(&id).unwrap();
        seen.push(id);
    }
}

#[test]
fn test_creation_beyond_limit_fails_without_mutation() {
    let mut manager = PipelineManager::new();
    for _ in 0..gpop::MAX_PIPELINES {
        manager.add_pipeline("fakesrc ! fakesink", parsed()).unwrap();
    }
    assert_eq!(manager.pipeline_count(), gpop::MAX_PIPELINES);
    let events_before = manager.events.len();

    let result = manager.add_pipeline("fakesrc ! fakesink", parsed());
    match result {
        Err(GpopError::InvalidPipeline(msg)) => {
            assert_eq!(msg, "Maximum number of pipelines (100) reached");
        }
        other => panic!("expected InvalidPipeline, got {:?}", other),
    }
    assert_eq!(manager.pipeline_count(), gpop::MAX_PIPELINES);
    assert_eq!(manager.events.len(), events_before);
}

#[test]
fn test_watcher_events_follow_added_in_journal() {
    let mut manager = PipelineManager::new();
    let id = manager.add_pipeline("videotestsrc num-buffers=10 ! fakesink", parsed()).unwrap();

    let published = manager.publish_watcher_event(PipelineEvent::Eos {
        pipeline_id: id.clone(),
    });
    assert!(published);

    let dropped = manager.publish_watcher_event(PipelineEvent::Eos {
        pipeline_id: "77".to_string(),
    });
    assert!(!dropped);

    // The journal shows pipeline_added before the watcher's eos.
    let added_at = manager
        .events
        .iter()
        .position(|e| matches!(e, PipelineEvent::PipelineAdded { .. }))
        .unwrap();
    let eos_at = manager
        .events
        .iter()
        .position(|e| matches!(e, PipelineEvent::Eos { .. }))
        .unwrap();
    assert!(added_at < eos_at);
}
