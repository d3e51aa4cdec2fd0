use gpop::classify::matches_media_pattern;
use gpop::is_media_not_supported_error;

#[test]
fn test_is_media_not_supported_error_patterns() {
    // Every supported media error pattern classifies as unsupported.
    let media_error_messages = [
        "no suitable element found",
        "missing plugin for x265",
        "missing element: h265dec",
        "codec not found for video/x-h265",
        "could not determine type of stream",
        "unhandled stream type",
        "format not supported by decoder",
        "unsupported codec",
        "no decoder available for video/x-h265",
        "no encoder for audio/x-opus",
        "no demuxer for container",
        "no muxer available",
        "caps not supported by element",
        "not negotiated",
        "stream type not supported",
        "NO SUITABLE ELEMENT FOUND", // Case insensitive
    ];

    for msg in &media_error_messages {
        assert!(
            is_media_not_supported_error(msg).is_some(),
            "Expected media error for: {}",
            msg
        );
    }
}

#[test]
fn test_every_curated_pattern_classifies() {
    // The curated substring set itself, fed through the classifier.
    let patterns = [
        "no suitable",
        "missing plugin",
        "missing element",
        "codec not found",
        "could not determine type",
        "unhandled",
        "not supported",
        "unsupported",
        "no decoder",
        "no encoder",
        "no demuxer",
        "no muxer",
        "format not supported",
        "caps not supported",
        "not negotiated",
        "stream type not supported",
    ];
    for p in &patterns {
        assert!(
            is_media_not_supported_error(p).is_some(),
            "pattern must classify: {}",
            p
        );
    }
    assert!(is_media_not_supported_error("generic failure occurred").is_none());
}

#[test]
fn test_is_media_not_supported_error_unrelated_returns_none() {
    assert!(is_media_not_supported_error("generic failure occurred").is_none());
}

#[test]
fn test_is_media_not_supported_error_returns_original_message() {
    let original_message = "no decoder available for video/x-h265";
    let result = is_media_not_supported_error(original_message);
    assert!(result.is_some());
    assert_eq!(result.unwrap(), original_message);
}

#[test]
fn test_matches_media_pattern_expects_lowered_text() {
    assert!(matches_media_pattern("no suitable element"));
    assert!(!matches_media_pattern("NO SUITABLE ELEMENT"));
    assert!(is_media_not_supported_error("NO SUITABLE ELEMENT").is_some());
}
