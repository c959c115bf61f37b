use xmodits_py::config::{build_config, get_format, Format, RipConfig, DEFAULT_INDEX_PADDING};
use xmodits_py::error::APIError;

#[test]
fn format_tokens_map_to_distinct_values() {
    let formats = [
        get_format(Some("wav".to_string())).unwrap(),
        get_format(Some("aiff".to_string())).unwrap(),
        get_format(Some("8svx".to_string())).unwrap(),
        get_format(Some("its".to_string())).unwrap(),
        get_format(Some("s3i".to_string())).unwrap(),
        get_format(Some("raw".to_string())).unwrap(),
    ];
    assert_eq!(
        formats,
        [Format::Wav, Format::Aiff, Format::Iff, Format::Its, Format::S3i, Format::Raw]
    );
    for i in 0..formats.len() {
        for j in 0..formats.len() {
            if i != j {
                assert_ne!(formats[i], formats[j]);
            }
        }
    }
}

#[test]
fn format_matching_is_case_insensitive() {
    assert_eq!(get_format(Some("WAV".to_string())), Ok(Format::Wav));
    assert_eq!(get_format(Some("wav".to_string())), Ok(Format::Wav));
    assert_eq!(get_format(Some("AiFf".to_string())), Ok(Format::Aiff));
    assert_eq!(get_format(Some("8SVX".to_string())), Ok(Format::Iff));
    assert_eq!(get_format(Some("RaW".to_string())), Ok(Format::Raw));
}

#[test]
fn format_defaults_to_wav() {
    assert_eq!(get_format(None), Ok(Format::Wav));
}

#[test]
fn unrecognized_format_token_fails_verbatim() {
    assert_eq!(
        get_format(Some("flac".to_string())),
        Err(APIError::UnrecognizedFormat("flac".to_string()))
    );
    // The token is carried as given, not lower-cased.
    assert_eq!(
        get_format(Some("FLAC".to_string())),
        Err(APIError::UnrecognizedFormat("FLAC".to_string()))
    );
    assert_eq!(
        get_format(Some("".to_string())),
        Err(APIError::UnrecognizedFormat("".to_string()))
    );
}

#[test]
fn config_defaults() {
    let cfg = build_config(None, None, None, None, None, None, None).unwrap();
    assert_eq!(
        cfg,
        RipConfig {
            index_only: false,
            index_padding: DEFAULT_INDEX_PADDING,
            index_raw: false,
            lower: false,
            upper: false,
            format: Format::Wav,
            self_contained: false,
        }
    );
    assert_eq!(DEFAULT_INDEX_PADDING, 2);
}

#[test]
fn config_applies_overrides() {
    let cfg = build_config(
        Some(true),
        Some(4),
        Some(true),
        Some(true),
        Some(true),
        None,
        Some("its".to_string()),
    )
    .unwrap();
    assert_eq!(
        cfg,
        RipConfig {
            index_only: true,
            index_padding: 4,
            index_raw: true,
            lower: false,
            upper: true,
            format: Format::Its,
            self_contained: true,
        }
    );
}

#[test]
fn config_lower_wins_over_upper() {
    let cfg = build_config(None, None, None, None, Some(true), Some(true), None).unwrap();
    assert!(cfg.lower);
    assert!(!cfg.upper);
}

#[test]
fn config_rejects_wide_padding() {
    assert_eq!(
        build_config(None, Some(300), None, None, None, None, None),
        Err(APIError::PaddingTooWide(300))
    );
    // The format token is examined first.
    assert_eq!(
        build_config(None, Some(300), None, None, None, None, Some("ogg".to_string())),
        Err(APIError::UnrecognizedFormat("ogg".to_string()))
    );
    // The largest width that fits a byte is accepted, never truncated.
    let cfg = build_config(None, Some(255), None, None, None, None, None).unwrap();
    assert_eq!(cfg.index_padding, 255);
}
