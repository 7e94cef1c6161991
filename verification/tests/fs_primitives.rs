// The compute cores of the filesystem primitives, on concrete values.

use ion::error::ErrKind;
use ion::error::IonError;
use ion::error::err_label;
use ion::fs_core::MkdirMode;
use ion::fs_core::RemovePlan;
use ion::fs_core::file_size_of;
use ion::fs_core::fill_exact;
use ion::fs_core::mkdir_mode;
use ion::fs_core::remove_plan;
use ion::fs_core::text_of_bytes;
use ion::fs_core::truncate_fallback_needed;

#[test]
fn file_size_reports_zero_without_metadata() {
    assert_eq!(file_size_of(None), 0);
}

#[test]
fn file_size_reports_exact_small_sizes() {
    assert_eq!(file_size_of(Some(6)), 6);
    assert_eq!(file_size_of(Some(0)), 0);
    assert_eq!(file_size_of(Some(4294967295)), 4294967295);
}

#[test]
fn file_size_truncates_to_32_bits() {
    assert_eq!(file_size_of(Some(4294967296)), 0);
    assert_eq!(file_size_of(Some(4294967301)), 5);
}

#[test]
fn fill_exact_takes_the_leading_bytes() {
    let data: Vec<u8> = vec![0, 1, 2, 3, 4, 5, 6, 7];
    let mut buf: Vec<u8> = vec![0; 4];
    let r = fill_exact(&data, &mut buf);
    assert_eq!(r, Ok(()));
    assert_eq!(buf, vec![0, 1, 2, 3]);
}

#[test]
fn fill_exact_takes_the_whole_source_at_equal_length() {
    let data: Vec<u8> = vec![9, 8, 7];
    let mut buf: Vec<u8> = vec![0; 3];
    assert_eq!(fill_exact(&data, &mut buf), Ok(()));
    assert_eq!(buf, vec![9, 8, 7]);
}

#[test]
fn fill_exact_rejects_a_short_source() {
    let data: Vec<u8> = vec![1, 2];
    let mut buf: Vec<u8> = vec![5, 5, 5, 5];
    let r = fill_exact(&data, &mut buf);
    assert_eq!(r, Err(ErrKind::UnexpectedEof));
    assert_eq!(buf, vec![5, 5, 5, 5]);
}

#[test]
fn fill_exact_accepts_an_empty_buffer() {
    let data: Vec<u8> = vec![];
    let mut buf: Vec<u8> = vec![];
    assert_eq!(fill_exact(&data, &mut buf), Ok(()));
    assert_eq!(buf, Vec::<u8>::new());
}

#[test]
fn text_decoding_round_trips_valid_utf8() {
    let r = text_of_bytes(b"hello\n".to_vec());
    assert_eq!(r, Ok(String::from("hello\n")));
    assert_eq!(text_of_bytes(Vec::new()), Ok(String::new()));
}

#[test]
fn text_decoding_rejects_invalid_utf8() {
    assert_eq!(text_of_bytes(vec![0xff, 0xfe]), Err(ErrKind::InvalidUtf8));
    assert_eq!(text_of_bytes(vec![0xc3]), Err(ErrKind::InvalidUtf8));
}

#[test]
fn mkdir_mode_follows_the_recursive_flag() {
    assert_eq!(mkdir_mode(true), MkdirMode::WithParents);
    assert_eq!(mkdir_mode(false), MkdirMode::SingleLevel);
}

#[test]
fn remove_plan_follows_the_recursive_flag() {
    assert_eq!(remove_plan(true), RemovePlan::RemoveTree);
    assert_eq!(remove_plan(false), RemovePlan::FileThenEmptyDir);
}

#[test]
fn truncate_falls_back_only_on_failure() {
    assert!(!truncate_fallback_needed(true));
    assert!(truncate_fallback_needed(false));
}

#[test]
fn error_labels_name_each_category() {
    assert_eq!(err_label(ErrKind::NotFound), "NotFound");
    assert_eq!(err_label(ErrKind::PermissionDenied), "PermissionDenied");
    assert_eq!(err_label(ErrKind::InvalidUtf8), "InvalidUtf8");
    assert_eq!(err_label(ErrKind::UnexpectedEof), "UnexpectedEof");
    assert_eq!(err_label(ErrKind::Other), "Other");
}

#[test]
fn thrown_message_carries_category_and_os_text() {
    let err = IonError::new(ErrKind::NotFound, String::from("no such file or directory"));
    assert_eq!(err.thrown_message(), "NotFound: no such file or directory");
}

#[test]
fn thrown_message_for_a_short_read() {
    let err = IonError::new(ErrKind::UnexpectedEof, String::from("failed to fill whole buffer"));
    assert_eq!(err.thrown_message(), "UnexpectedEof: failed to fill whole buffer");
}
