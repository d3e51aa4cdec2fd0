use gpop::error_codes;
use gpop::session_bus::{pipeline_object_path, position_to_bus, DBUS_SERVICE_NAME,
    MANAGER_OBJECT_PATH};
use gpop::protocol::{
    effective_pipeline_id, ErrorInfo, ListPipelinesResult, PipelineCreatedResult,
    PipelineInfoResult, PipelineSnapshot, Response, SnapshotResult, SuccessResult,
    JSONRPC_VERSION,
};
use gpop::{GpopError, PipelineState};

#[test]
fn test_invalid_request_response() {
    let response =
        Response::invalid_request("123".to_string(), "Missing required field".to_string());

    assert_eq!(response.id, "123");
    assert!(response.error.is_some());

    let error = response.error.unwrap();
    assert_eq!(error.code, error_codes::INVALID_REQUEST);
}

#[test]
fn test_response_success() {
    let body = PipelineCreatedResult {
        pipeline_id: "pipeline-0".to_string(),
    }
    .to_json();
    let response = Response::success("123".to_string(), body);

    assert_eq!(response.id, "123");
    assert!(response.result.is_some());
    assert!(response.error.is_none());

    let json = response.to_json();
    assert!(json.contains("\"pipeline_id\":\"pipeline-0\""));
    assert!(!json.contains("\"error\""));
}

#[test]
fn test_response_error() {
    let response = Response::error("123".to_string(), -32600, "Invalid request".to_string());

    assert_eq!(response.id, "123");
    assert!(response.result.is_none());
    assert!(response.error.is_some());

    let error = response.error.unwrap();
    assert_eq!(error.code, -32600);
    assert_eq!(error.message, "Invalid request");
}

#[test]
fn test_response_serialization_skips_none() {
    let success = Response::success("1".to_string(), "{}".to_string());
    let json = success.to_json();
    assert!(!json.contains("\"error\""));

    let error = Response::error("2".to_string(), error_codes::INTERNAL_ERROR, "Error".to_string());
    let json = error.to_json();
    assert!(!json.contains("\"result\""));
}

#[test]
fn test_response_success_format() {
    let response = Response::success("test-id".to_string(), "{\"data\":\"value\"}".to_string());

    assert_eq!(response.id, "test-id");
    assert_eq!(response.jsonrpc, JSONRPC_VERSION);
    assert!(response.result.is_some());
    assert!(response.error.is_none());

    let json = response.to_json();
    assert!(!json.contains("\"error\""));
}

#[test]
fn test_response_error_format() {
    let response = Response::error(
        "test-id".to_string(),
        error_codes::INVALID_REQUEST,
        "Missing field".to_string(),
    );

    assert_eq!(response.id, "test-id");
    assert!(response.error.is_some());
    assert!(response.result.is_none());

    let error = response.error.as_ref().unwrap();
    assert_eq!(error.code, error_codes::INVALID_REQUEST);

    let json = response.to_json();
    assert!(!json.contains("\"result\""));
}

#[test]
fn test_invalid_request_helper() {
    let response = Response::invalid_request(
        "req-1".to_string(),
        "Missing required field: method".to_string(),
    );

    let error = response.error.unwrap();
    assert_eq!(error.code, error_codes::INVALID_REQUEST);
    assert!(error.message.contains("method"));
}

#[test]
fn test_all_error_codes_are_negative() {
    assert!(error_codes::PARSE_ERROR < 0);
    assert!(error_codes::INVALID_REQUEST < 0);
    assert!(error_codes::METHOD_NOT_FOUND < 0);
    assert!(error_codes::INVALID_PARAMS < 0);
    assert!(error_codes::INTERNAL_ERROR < 0);
    assert!(error_codes::PIPELINE_NOT_FOUND < 0);
    assert!(error_codes::PIPELINE_CREATION_FAILED < 0);
    assert!(error_codes::STATE_CHANGE_FAILED < 0);
    assert!(error_codes::GSTREAMER_ERROR < 0);
    assert!(error_codes::MEDIA_NOT_SUPPORTED < 0);
}

#[test]
fn test_server_error_codes_in_valid_range() {
    let server_codes = [
        error_codes::PIPELINE_NOT_FOUND,
        error_codes::PIPELINE_CREATION_FAILED,
        error_codes::STATE_CHANGE_FAILED,
        error_codes::GSTREAMER_ERROR,
        error_codes::DESCRIPTION_TOO_LONG,
        error_codes::MEDIA_NOT_SUPPORTED,
    ];

    for code in server_codes {
        assert!(
            (-32099..=-32000).contains(&code),
            "Server error code {} should be in range -32099 to -32000",
            code
        );
    }
}

#[test]
fn test_pipeline_info_result() {
    let result = PipelineInfoResult {
        id: "pipeline-0".to_string(),
        description: "videotestsrc ! fakesink".to_string(),
        state: PipelineState::Playing,
        streaming: true,
    };

    let json = result.to_json();
    assert!(json.contains("\"id\":\"pipeline-0\""));
    assert!(json.contains("\"state\":\"playing\""));
    assert!(json.contains("\"streaming\":true"));
}

#[test]
fn test_list_pipelines_result() {
    let result = ListPipelinesResult {
        pipelines: vec![
            PipelineInfoResult {
                id: "pipeline-0".to_string(),
                description: "test1".to_string(),
                state: PipelineState::Null,
                streaming: false,
            },
            PipelineInfoResult {
                id: "pipeline-1".to_string(),
                description: "test2".to_string(),
                state: PipelineState::Playing,
                streaming: true,
            },
        ],
    };

    let json = result.to_json();
    assert!(json.contains("\"pipelines\":["));
    assert!(json.contains("\"pipeline-0\""));
    assert!(json.contains("\"pipeline-1\""));
}

#[test]
fn test_success_result() {
    let result = SuccessResult { success: true };
    let json = result.to_json();
    assert_eq!(json, r#"{"success":true}"#);
}

#[test]
fn test_snapshot_result() {
    let result = SnapshotResult {
        response_type: "SnapshotResponse".to_string(),
        pipelines: vec![PipelineSnapshot {
            id: "0".to_string(),
            dot: "digraph pipeline {}".to_string(),
        }],
    };
    let json = result.to_json();
    assert!(json.contains("digraph pipeline"));
    assert!(json.contains("\"type\":\"SnapshotResponse\""));
}

#[test]
fn test_pipeline_created_result() {
    let result = PipelineCreatedResult {
        pipeline_id: "pipeline-0".to_string(),
    };
    let json = result.to_json();
    assert_eq!(json, r#"{"pipeline_id":"pipeline-0"}"#);
}

#[test]
fn test_response_json_parses_as_json() {
    let response = Response::error(
        "id \"quoted\"".to_string(),
        error_codes::PIPELINE_NOT_FOUND,
        "Pipeline not found: 9".to_string(),
    );
    let json = response.to_json();
    let v: serde_json::Value = serde_json::from_str(&json).expect("must be valid JSON");
    assert_eq!(v["jsonrpc"], "2.0");
    assert_eq!(v["id"], "id \"quoted\"");
    assert_eq!(v["error"]["code"], -32000);
    assert_eq!(v["error"]["message"], "Pipeline not found: 9");
    assert!(v.get("result").is_none());
}

#[test]
fn test_from_gpop_error_mapping() {
    let cases: Vec<(GpopError, i32, &str)> = vec![
        (
            GpopError::PipelineNotFound("9".to_string()),
            error_codes::PIPELINE_NOT_FOUND,
            "Pipeline not found: 9",
        ),
        (
            GpopError::InvalidPipeline("bad".to_string()),
            error_codes::PIPELINE_CREATION_FAILED,
            "bad",
        ),
        (
            GpopError::StateChangeFailed("stuck".to_string()),
            error_codes::STATE_CHANGE_FAILED,
            "stuck",
        ),
        (
            GpopError::MediaNotSupported("no decoder".to_string()),
            error_codes::MEDIA_NOT_SUPPORTED,
            "no decoder",
        ),
        (
            GpopError::GStreamer("framework".to_string()),
            error_codes::GSTREAMER_ERROR,
            "framework",
        ),
        (
            GpopError::Io("disk".to_string()),
            error_codes::INTERNAL_ERROR,
            "IO error: disk",
        ),
    ];
    for (err, code, message) in cases {
        let r = Response::from_gpop_error("1".to_string(), &err);
        let e: ErrorInfo = r.error.unwrap();
        assert_eq!(e.code, code);
        assert_eq!(e.message, message);
    }
}

#[test]
fn test_effective_pipeline_id_defaults() {
    assert_eq!(effective_pipeline_id(Some("5".to_string())), "5");
    assert_eq!(effective_pipeline_id(None), "0");
}

#[test]
fn test_session_bus_naming() {
    assert_eq!(DBUS_SERVICE_NAME, "org.gpop");
    assert_eq!(MANAGER_OBJECT_PATH, "/org/gpop/Manager");
    assert_eq!(pipeline_object_path(0), "/org/gpop/Pipeline0");
    assert_eq!(pipeline_object_path(42), "/org/gpop/Pipeline42");

    assert_eq!(position_to_bus(None), -1);
    assert_eq!(position_to_bus(Some(5_000_000_000)), 5_000_000_000);
}
