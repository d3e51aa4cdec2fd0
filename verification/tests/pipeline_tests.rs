use gpop::pipeline::{
    dispatch_bus_message, dot_details_for, BusMessage, DotDetails, ParseOutcome,
    StateChangeOutcome, MAX_PIPELINE_DESCRIPTION_LENGTH,
};
use gpop::{GpopError, Pipeline, PipelineEvent, PipelineState};

#[test]
fn test_pipeline_new_empty_description_fails() {
    let result = Pipeline::new("0".to_string(), "", ParseOutcome::Parsed);
    match result {
        Err(GpopError::InvalidPipeline(msg)) => {
            assert!(msg.contains("empty"), "message: {}", msg);
        }
        other => panic!("expected InvalidPipeline, got {:?}", other),
    }
}

#[test]
fn test_pipeline_new_whitespace_only_fails() {
    let result = Pipeline::new("0".to_string(), "   \t\n", ParseOutcome::Parsed);
    match result {
        Err(GpopError::InvalidPipeline(msg)) => {
            assert!(msg.contains("empty"), "message: {}", msg);
        }
        other => panic!("expected InvalidPipeline, got {:?}", other),
    }
}

#[test]
fn test_pipeline_new_description_too_long_fails() {
    let description = "a".repeat(MAX_PIPELINE_DESCRIPTION_LENGTH + 1);
    let result = Pipeline::new("0".to_string(), &description, ParseOutcome::Parsed);
    match result {
        Err(GpopError::InvalidPipeline(msg)) => {
            assert!(msg.contains("too long"), "message: {}", msg);
            assert!(msg.contains("65537"), "message: {}", msg);
            assert!(msg.contains("65536"), "message: {}", msg);
        }
        other => panic!("expected InvalidPipeline, got {:?}", other),
    }
}

#[test]
fn test_pipeline_new_invalid_gst_syntax_fails() {
    let outcome = ParseOutcome::ParseFailed("no element \"invalid_element_xyz\"".to_string());
    let result = Pipeline::new("0".to_string(), "invalid_element_xyz ! fakesink", outcome);
    match result {
        Err(GpopError::InvalidPipeline(msg)) | Err(GpopError::MediaNotSupported(msg)) => {
            assert!(!msg.is_empty());
        }
        other => panic!("expected a construction error, got {:?}", other),
    }
}

#[test]
fn test_pipeline_new_classified_parse_failure() {
    let outcome = ParseOutcome::ParseFailed("no decoder available for x".to_string());
    let result = Pipeline::new("0".to_string(), "filesrc ! decodebin ! fakesink", outcome);
    match result {
        Err(GpopError::MediaNotSupported(msg)) => {
            assert_eq!(msg, "no decoder available for x");
        }
        other => panic!("expected MediaNotSupported, got {:?}", other),
    }
}

#[test]
fn test_pipeline_new_not_composite_fails() {
    let result = Pipeline::new("0".to_string(), "fakesink", ParseOutcome::NotComposite);
    match result {
        Err(GpopError::InvalidPipeline(msg)) => assert_eq!(msg, "Not a pipeline"),
        other => panic!("expected InvalidPipeline, got {:?}", other),
    }
}

#[test]
fn test_pipeline_new_valid_description_succeeds() {
    let p = Pipeline::new("0".to_string(), "videotestsrc ! fakesink", ParseOutcome::Parsed)
        .unwrap();
    assert_eq!(p.id(), "0");
    assert_eq!(p.description(), "videotestsrc ! fakesink");
}

#[test]
fn test_pipeline_initial_state_is_null() {
    let p = Pipeline::new("0".to_string(), "fakesrc ! fakesink", ParseOutcome::Parsed).unwrap();
    assert_eq!(p.state(), PipelineState::Null);
    assert!(!p.is_streaming());
}

#[test]
fn test_pipeline_accessors() {
    let p = Pipeline::new("test-id".to_string(), "fakesrc ! fakesink", ParseOutcome::Parsed)
        .unwrap();
    assert_eq!(p.id(), "test-id");
    assert_eq!(p.description(), "fakesrc ! fakesink");
}

#[test]
fn test_pipeline_shutdown_flag() {
    let mut p =
        Pipeline::new("0".to_string(), "fakesrc ! fakesink", ParseOutcome::Parsed).unwrap();
    assert!(!p.shutdown_requested());
    p.signal_shutdown();
    assert!(p.shutdown_requested());
    p.signal_shutdown();
    assert!(p.shutdown_requested());
}

#[test]
fn test_pipeline_set_state_outcomes() {
    let mut p =
        Pipeline::new("9".to_string(), "fakesrc ! fakesink", ParseOutcome::Parsed).unwrap();

    p.set_state(PipelineState::Playing, StateChangeOutcome::Success).unwrap();
    assert!(p.is_streaming());

    p.set_state(PipelineState::Paused, StateChangeOutcome::Async).unwrap();
    assert_eq!(p.state(), PipelineState::Paused);

    let err = p.set_state(PipelineState::Playing, StateChangeOutcome::Failure).unwrap_err();
    match err {
        GpopError::StateChangeFailed(msg) => {
            assert_eq!(msg, "Failed to change state to playing for pipeline '9'");
        }
        other => panic!("expected StateChangeFailed, got {:?}", other),
    }
    assert_eq!(p.state(), PipelineState::Paused);

    let err = p
        .set_state(PipelineState::Null, StateChangeOutcome::Refused("busy".to_string()))
        .unwrap_err();
    match err {
        GpopError::StateChangeFailed(msg) => assert_eq!(msg, "busy"),
        other => panic!("expected StateChangeFailed, got {:?}", other),
    }
}

#[test]
fn test_dot_details_selection() {
    assert_eq!(dot_details_for(Some("media")), DotDetails::MediaType);
    assert_eq!(dot_details_for(Some("caps")), DotDetails::CapsDetails);
    assert_eq!(dot_details_for(Some("non-default")), DotDetails::NonDefaultParams);
    assert_eq!(dot_details_for(Some("states")), DotDetails::States);
    assert_eq!(dot_details_for(Some("all")), DotDetails::All);
    assert_eq!(dot_details_for(Some("anything-else")), DotDetails::All);
    assert_eq!(dot_details_for(None), DotDetails::All);
}

#[test]
fn test_dispatch_eos() {
    let event = dispatch_bus_message("3", BusMessage::Eos).unwrap();
    assert_eq!(
        event,
        PipelineEvent::Eos {
            pipeline_id: "3".to_string()
        }
    );
}

#[test]
fn test_dispatch_error_unclassified() {
    let msg = BusMessage::Error {
        error: "Internal data stream error".to_string(),
        debug: "gstbasesrc.c(3127)".to_string(),
    };
    let event = dispatch_bus_message("3", msg).unwrap();
    assert_eq!(
        event,
        PipelineEvent::Error {
            pipeline_id: "3".to_string(),
            message: "Internal data stream error: gstbasesrc.c(3127)".to_string(),
        }
    );
}

#[test]
fn test_dispatch_error_classified_as_unsupported() {
    let msg = BusMessage::Error {
        error: "No decoder available for type 'video/x-h265'".to_string(),
        debug: "details".to_string(),
    };
    let event = dispatch_bus_message("3", msg).unwrap();
    assert_eq!(
        event,
        PipelineEvent::Unsupported {
            pipeline_id: "3".to_string(),
            message: "No decoder available for type 'video/x-h265': details".to_string(),
        }
    );
}

#[test]
fn test_dispatch_state_changed_source_filtering() {
    let from_root = BusMessage::StateChanged {
        old: PipelineState::Null,
        current: PipelineState::Playing,
        source_is_pipeline: true,
    };
    let event = dispatch_bus_message("3", from_root).unwrap();
    assert_eq!(
        event,
        PipelineEvent::StateChanged {
            pipeline_id: "3".to_string(),
            old_state: PipelineState::Null,
            new_state: PipelineState::Playing,
        }
    );

    let from_child = BusMessage::StateChanged {
        old: PipelineState::Null,
        current: PipelineState::Playing,
        source_is_pipeline: false,
    };
    assert!(dispatch_bus_message("3", from_child).is_none());
}

#[test]
fn test_dispatch_ignores_warnings_and_others() {
    let warning = BusMessage::Warning {
        debug: "something odd".to_string(),
    };
    assert!(dispatch_bus_message("3", warning).is_none());
    assert!(dispatch_bus_message("3", BusMessage::Other).is_none());
}
