use gpop::PipelineState;

#[test]
fn test_pipeline_state_display() {
    assert_eq!(PipelineState::VoidPending.as_str(), "void_pending");
    assert_eq!(PipelineState::Null.as_str(), "null");
    assert_eq!(PipelineState::Ready.as_str(), "ready");
    assert_eq!(PipelineState::Paused.as_str(), "paused");
    assert_eq!(PipelineState::Playing.as_str(), "playing");
}

#[test]
fn test_pipeline_state_from_str() {
    assert_eq!(
        "void_pending".parse::<PipelineState>().unwrap(),
        PipelineState::VoidPending
    );
    assert_eq!(
        "voidpending".parse::<PipelineState>().unwrap(),
        PipelineState::VoidPending
    );
    assert_eq!("null".parse::<PipelineState>().unwrap(), PipelineState::Null);
    assert_eq!("ready".parse::<PipelineState>().unwrap(), PipelineState::Ready);
    assert_eq!("paused".parse::<PipelineState>().unwrap(), PipelineState::Paused);
    assert_eq!("playing".parse::<PipelineState>().unwrap(), PipelineState::Playing);

    // Case insensitive
    assert_eq!("PLAYING".parse::<PipelineState>().unwrap(), PipelineState::Playing);
    assert_eq!("Playing".parse::<PipelineState>().unwrap(), PipelineState::Playing);
}

#[test]
fn test_pipeline_state_from_str_invalid() {
    assert!("invalid".parse::<PipelineState>().is_err());
    assert!("".parse::<PipelineState>().is_err());
}

#[test]
fn test_pipeline_state_parse_error_message() {
    let err = "bogus".parse::<PipelineState>().unwrap_err();
    assert_eq!(err, "Invalid state. Valid values: null, ready, paused, playing");
}
