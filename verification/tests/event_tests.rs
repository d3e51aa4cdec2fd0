use gpop::event::{parse_event, serialize_event};
use gpop::{PipelineEvent, PipelineState};

#[test]
fn test_pipeline_event_serialize_state_changed() {
    let event = PipelineEvent::StateChanged {
        pipeline_id: "pipeline-0".to_string(),
        old_state: PipelineState::Null,
        new_state: PipelineState::Playing,
    };

    let json = serialize_event(&event);
    assert!(json.contains("\"event\":\"state_changed\""));
    assert!(json.contains("\"pipeline_id\":\"pipeline-0\""));
    assert!(json.contains("\"old_state\":\"null\""));
    assert!(json.contains("\"new_state\":\"playing\""));
}

#[test]
fn test_pipeline_event_serialize_error() {
    let event = PipelineEvent::Error {
        pipeline_id: "pipeline-0".to_string(),
        message: "Test error".to_string(),
    };

    let json = serialize_event(&event);
    assert!(json.contains("\"event\":\"error\""));
    assert!(json.contains("\"message\":\"Test error\""));
}

#[test]
fn test_pipeline_event_serialize_unsupported() {
    let event = PipelineEvent::Unsupported {
        pipeline_id: "pipeline-0".to_string(),
        message: "No decoder available for type 'video/x-h265'".to_string(),
    };

    let json = serialize_event(&event);
    assert!(json.contains("\"event\":\"unsupported\""));
    assert!(json.contains("\"message\":\"No decoder available"));
}

#[test]
fn test_pipeline_event_serialize_eos() {
    let event = PipelineEvent::Eos {
        pipeline_id: "pipeline-0".to_string(),
    };

    let json = serialize_event(&event);
    assert!(json.contains("\"event\":\"eos\""));
}

#[test]
fn test_pipeline_event_serialize_pipeline_added() {
    let event = PipelineEvent::PipelineAdded {
        pipeline_id: "pipeline-0".to_string(),
        description: "videotestsrc ! autovideosink".to_string(),
    };

    let json = serialize_event(&event);
    assert!(json.contains("\"event\":\"pipeline_added\""));
    assert!(json.contains("\"description\":\"videotestsrc ! autovideosink\""));
}

#[test]
fn test_pipeline_event_serialize_pipeline_removed() {
    let event = PipelineEvent::PipelineRemoved {
        pipeline_id: "pipeline-0".to_string(),
    };

    let json = serialize_event(&event);
    assert!(json.contains("\"event\":\"pipeline_removed\""));
}

#[test]
fn test_pipeline_event_serialize_pipeline_updated() {
    let event = PipelineEvent::PipelineUpdated {
        pipeline_id: "pipeline-0".to_string(),
        description: "videotestsrc ! fakesink".to_string(),
    };

    let json = serialize_event(&event);
    assert!(json.contains("\"event\":\"pipeline_updated\""));
    assert!(json.contains("\"pipeline_id\":\"pipeline-0\""));
    assert!(json.contains("\"description\":\"videotestsrc ! fakesink\""));
}

fn round_trips(event: PipelineEvent) {
    let json = serialize_event(&event);
    let parsed = parse_event(&json).expect("canonical event text must parse");
    assert_eq!(parsed, event);
}

#[test]
fn test_event_round_trip_every_variant() {
    round_trips(PipelineEvent::StateChanged {
        pipeline_id: "0".to_string(),
        old_state: PipelineState::VoidPending,
        new_state: PipelineState::Paused,
    });
    round_trips(PipelineEvent::Error {
        pipeline_id: "1".to_string(),
        message: "boom: details".to_string(),
    });
    round_trips(PipelineEvent::Unsupported {
        pipeline_id: "2".to_string(),
        message: "no decoder".to_string(),
    });
    round_trips(PipelineEvent::Eos {
        pipeline_id: "3".to_string(),
    });
    round_trips(PipelineEvent::PipelineAdded {
        pipeline_id: "4".to_string(),
        description: "videotestsrc ! fakesink".to_string(),
    });
    round_trips(PipelineEvent::PipelineUpdated {
        pipeline_id: "5".to_string(),
        description: "fakesrc ! fakesink".to_string(),
    });
    round_trips(PipelineEvent::PipelineRemoved {
        pipeline_id: "6".to_string(),
    });
}

#[test]
fn test_event_round_trip_with_escapes() {
    round_trips(PipelineEvent::Error {
        pipeline_id: "0".to_string(),
        message: "a \"quoted\" \\ back\nslash\ttab\u{1}control".to_string(),
    });
    round_trips(PipelineEvent::PipelineAdded {
        pipeline_id: "0".to_string(),
        description: "uridecodebin uri=\"file:///tmp/ä.mp4\" ! fakesink".to_string(),
    });
}

#[test]
fn test_event_json_is_valid_json_for_serde() {
    let event = PipelineEvent::Error {
        pipeline_id: "p\"q".to_string(),
        message: "line\nbreak \u{7} bell".to_string(),
    };
    let json = serialize_event(&event);
    let v: serde_json::Value = serde_json::from_str(&json).expect("must be valid JSON");
    assert_eq!(v["event"], "error");
    assert_eq!(v["data"]["pipeline_id"], "p\"q");
    assert_eq!(v["data"]["message"], "line\nbreak \u{7} bell");
}

#[test]
fn test_parse_event_concrete_text() {
    let parsed = parse_event("{\"event\":\"eos\",\"data\":{\"pipeline_id\":\"7\"}}").unwrap();
    assert_eq!(
        parsed,
        PipelineEvent::Eos {
            pipeline_id: "7".to_string()
        }
    );
}

#[test]
fn test_parse_event_unicode_escape() {
    let parsed =
        parse_event("{\"event\":\"eos\",\"data\":{\"pipeline_id\":\"\\u0041\\n\"}}").unwrap();
    assert_eq!(
        parsed,
        PipelineEvent::Eos {
            pipeline_id: "A\n".to_string()
        }
    );
}

#[test]
fn test_parse_event_rejects_garbage() {
    assert!(parse_event("").is_none());
    assert!(parse_event("{\"event\":\"nope\",\"data\":{}}").is_none());
    assert!(parse_event("{\"event\":\"eos\",\"data\":{\"pipeline_id\":\"7\"}} ").is_none());
    assert!(parse_event("{\"event\":\"eos\",\"data\":{\"pipeline_id\":\"7\"}").is_none());
}
