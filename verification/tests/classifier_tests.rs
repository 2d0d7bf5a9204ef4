use convert_server::classify::{classify_failure, contains_subrange, FileCondition};
use convert_server::codes::get_error_code_message;

#[test]
fn password_code_has_fixed_message() {
    assert_eq!(
        get_error_code_message(0x5b),
        Some("AVS_FILEUTILS_ERROR_CONVERT_PASSWORD")
    );
}

#[test]
fn known_codes_map_to_their_identifiers() {
    assert_eq!(get_error_code_message(0x0001), Some("AVS_FILEUTILS_ERROR_UNKNOWN"));
    assert_eq!(get_error_code_message(0x0056), Some("AVS_FILEUTILS_ERROR_CONVERT_CORRUPTED"));
    assert_eq!(get_error_code_message(0x005a), Some("AVS_FILEUTILS_ERROR_CONVERT_DRM"));
    assert_eq!(get_error_code_message(0x0060), Some("AVS_FILEUTILS_ERROR_CONVERT_CELLLIMITS"));
}

#[test]
fn codes_outside_the_table_have_no_message() {
    assert_eq!(get_error_code_message(0x0002), None);
    assert_eq!(get_error_code_message(0x004f), None);
    assert_eq!(get_error_code_message(0x0061), None);
    assert_eq!(get_error_code_message(-1), None);
}

#[test]
fn contains_subrange_finds_needle_in_the_middle() {
    let hay: Vec<u8> = b"terminate called after throwing an instance of 'std::out_of_range'"
        .to_vec();
    let needle: Vec<u8> = b"std::out_of_range".to_vec();
    assert!(contains_subrange(&hay, &needle));
}

#[test]
fn contains_subrange_rejects_absent_needle() {
    let hay: Vec<u8> = b"segmentation fault".to_vec();
    let needle: Vec<u8> = b"std::out_of_range".to_vec();
    assert!(!contains_subrange(&hay, &needle));
}

#[test]
fn contains_subrange_empty_needle_always_found() {
    let hay: Vec<u8> = b"abc".to_vec();
    let needle: Vec<u8> = Vec::new();
    assert!(contains_subrange(&hay, &needle));
    let empty: Vec<u8> = Vec::new();
    assert!(contains_subrange(&empty, &needle));
}

#[test]
fn contains_subrange_needle_longer_than_hay() {
    let hay: Vec<u8> = b"std".to_vec();
    let needle: Vec<u8> = b"std::out_of_range".to_vec();
    assert!(!contains_subrange(&hay, &needle));
}

#[test]
fn out_of_range_stderr_overrides_byte_heuristic() {
    let stderr: Vec<u8> = b"abort: std::out_of_range in x2t".to_vec();
    let r = classify_failure(Some(134), &stderr, FileCondition::LikelyCorrupted);
    assert_eq!(r.reason, Some("FILE_LIKELY_ENCRYPTED"));
    assert_eq!(r.x2t_code, Some(134));
    assert_eq!(r.message, "file is encrypted");
}

#[test]
fn corrupted_condition_yields_corrupted_error() {
    let stderr: Vec<u8> = b"something else".to_vec();
    let r = classify_failure(Some(1), &stderr, FileCondition::LikelyCorrupted);
    assert_eq!(r.reason, Some("FILE_LIKELY_CORRUPTED"));
    assert_eq!(r.x2t_code, Some(1));
    assert_eq!(r.message, "file is corrupted");
}

#[test]
fn encrypted_condition_yields_encrypted_error() {
    let stderr: Vec<u8> = Vec::new();
    let r = classify_failure(Some(90), &stderr, FileCondition::LikelyEncrypted);
    assert_eq!(r.reason, Some("FILE_LIKELY_ENCRYPTED"));
    assert_eq!(r.x2t_code, Some(90));
    assert_eq!(r.message, "file is encrypted");
}

#[test]
fn known_exit_code_falls_through_to_table() {
    let stderr: Vec<u8> = Vec::new();
    let r = classify_failure(Some(0x56), &stderr, FileCondition::Unknown);
    assert_eq!(r.reason, None);
    assert_eq!(r.x2t_code, Some(0x56));
    assert_eq!(r.message, "AVS_FILEUTILS_ERROR_CONVERT_CORRUPTED");
}

#[test]
fn unknown_exit_code_keeps_raw_code_with_generic_message() {
    let stderr: Vec<u8> = Vec::new();
    let r = classify_failure(Some(0x1234), &stderr, FileCondition::Healthy);
    assert_eq!(r.reason, None);
    assert_eq!(r.x2t_code, Some(0x1234));
    assert_eq!(r.message, "unknown error occurred");
}

#[test]
fn missing_exit_code_gets_generic_message() {
    let stderr: Vec<u8> = Vec::new();
    let r = classify_failure(None, &stderr, FileCondition::Unknown);
    assert_eq!(r.reason, None);
    assert_eq!(r.x2t_code, None);
    assert_eq!(r.message, "unknown error occurred");
}
