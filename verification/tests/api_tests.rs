use xmodits_py::api::{extension_of, finish_rip, prepare_rip, supported_extension, verify_extension};
use xmodits_py::config::{Format, RipConfig};
use xmodits_py::error::{APIError, EngineFailure, Error};

#[test]
fn extension_extraction() {
    assert_eq!(extension_of("song.it"), "it".to_string());
    assert_eq!(extension_of("dir/sub/song.MOD"), "MOD".to_string());
    assert_eq!(extension_of("archive.tar.gz"), "gz".to_string());
    assert_eq!(extension_of("noext"), "".to_string());
    assert_eq!(extension_of("dir.d/noext"), "".to_string());
    assert_eq!(extension_of(".hidden"), "".to_string());
    assert_eq!(extension_of("dir/.hidden"), "".to_string());
    assert_eq!(extension_of("trailing."), "".to_string());
    assert_eq!(extension_of(""), "".to_string());
}

#[test]
fn supported_set_membership() {
    for ext in ["it", "xm", "s3m", "mod", "umx", "mptm"] {
        assert!(supported_extension(ext));
    }
    for ext in ["txt", "wav", "", "iT", "mp3"] {
        assert!(!supported_extension(ext));
    }
}

#[test]
fn strict_mode_rejects_unknown_extension() {
    let r = verify_extension(&"song.txt".to_string(), true);
    assert_eq!(
        r,
        Err(APIError::UnrecognizedFileExtension("txt".to_string()))
    );
}

#[test]
fn strict_mode_lower_cases_the_offending_extension() {
    let r = verify_extension(&"SONG.TXT".to_string(), true);
    assert_eq!(
        r,
        Err(APIError::UnrecognizedFileExtension("txt".to_string()))
    );
}

#[test]
fn strict_mode_accepts_supported_extensions_case_insensitively() {
    assert_eq!(verify_extension(&"song.it".to_string(), true), Ok(()));
    assert_eq!(verify_extension(&"SONG.IT".to_string(), true), Ok(()));
    assert_eq!(verify_extension(&"a/b/c.MpTm".to_string(), true), Ok(()));
}

#[test]
fn non_strict_mode_forwards_everything() {
    assert_eq!(verify_extension(&"song.txt".to_string(), false), Ok(()));
    assert_eq!(verify_extension(&"noext".to_string(), false), Ok(()));
}

#[test]
fn missing_extension_is_rejected_in_strict_mode() {
    assert_eq!(
        verify_extension(&"noext".to_string(), true),
        Err(APIError::UnrecognizedFileExtension("".to_string()))
    );
}

#[test]
fn prepare_rejects_bad_extension_before_configuration() {
    // Strict defaults to on, and the pre-check gate decides before the
    // format token is even examined.
    let r = prepare_rip(
        &"song.txt".to_string(),
        None,
        None,
        None,
        None,
        None,
        None,
        None,
        Some("ogg".to_string()),
    );
    assert_eq!(
        r,
        Err(Error::APIError(APIError::UnrecognizedFileExtension("txt".to_string())))
    );
}

#[test]
fn prepare_with_strict_off_reaches_configuration() {
    let r = prepare_rip(
        &"song.txt".to_string(),
        None,
        None,
        None,
        None,
        None,
        None,
        Some(false),
        Some("ogg".to_string()),
    );
    assert_eq!(
        r,
        Err(Error::APIError(APIError::UnrecognizedFormat("ogg".to_string())))
    );
}

#[test]
fn prepare_builds_the_configuration() {
    let r = prepare_rip(
        &"song.it".to_string(),
        Some(true),
        Some(3),
        None,
        None,
        None,
        Some(true),
        None,
        Some("8svx".to_string()),
    );
    assert_eq!(
        r,
        Ok(RipConfig {
            index_only: false,
            index_padding: 3,
            index_raw: true,
            lower: true,
            upper: false,
            format: Format::Iff,
            self_contained: false,
        })
    );
}

#[test]
fn finish_wraps_engine_outcomes() {
    assert_eq!(finish_rip(Ok(())), Ok(()));
    assert_eq!(
        finish_rip(Err(EngineFailure::EmptyModule)),
        Err(Error::Xmodits(EngineFailure::EmptyModule))
    );
}
