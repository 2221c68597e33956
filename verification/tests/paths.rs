use dos_like::{bytes_are_nul_free, found_or_not_found, path_is_valid, validate_path, FileError};

#[test]
fn nul_free_bytes_are_accepted() {
    assert!(bytes_are_nul_free(b"hello"));
    assert!(bytes_are_nul_free(b""));
    assert!(!bytes_are_nul_free(b"he\0llo"));
    assert!(!bytes_are_nul_free(b"\0"));
}

#[test]
fn clean_path_is_accepted() {
    assert!(path_is_valid("music/theme.mid"));
    assert!(matches!(validate_path("music/theme.mid"), Ok(())));
}

#[test]
fn empty_path_is_accepted() {
    assert!(path_is_valid(""));
    assert!(matches!(validate_path(""), Ok(())));
}

#[test]
fn embedded_nul_is_rejected() {
    assert!(!path_is_valid("bad\0path"));
    assert!(matches!(validate_path("bad\0path"), Err(FileError::BadFilePath)));
}

#[test]
fn leading_and_trailing_nul_are_rejected() {
    assert!(matches!(validate_path("\0lead"), Err(FileError::BadFilePath)));
    assert!(matches!(validate_path("trail\0"), Err(FileError::BadFilePath)));
    assert!(matches!(validate_path("\0"), Err(FileError::BadFilePath)));
}

#[test]
fn non_ascii_path_without_nul_is_accepted() {
    assert!(matches!(validate_path("música/tema.mód"), Ok(())));
}

#[test]
fn missing_native_result_is_not_found() {
    assert!(matches!(found_or_not_found(false), Err(FileError::FileNotFound)));
    assert!(matches!(found_or_not_found(true), Ok(())));
}

#[test]
fn error_messages() {
    assert_eq!(FileError::BadFilePath.message(), "Invalid file path");
    assert_eq!(FileError::FileNotFound.message(), "Failed to read file");
}
