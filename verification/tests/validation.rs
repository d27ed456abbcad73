//! Validation of text and lengths before the native boundary, and the
//! uniform error value.

use libass::check_allocation;
use libass::check_font_registration;
use libass::check_nul_free;
use libass::check_override_patterns;
use libass::check_text;
use libass::check_track_source_memory;
use libass::check_track_source_path;
use libass::native_bool;
use libass::native_len;
use libass::Error;

#[test]
fn nul_free_accepts_plain_text() {
    assert!(check_nul_free(b"fonts/dir"));
    assert!(check_nul_free(b""));
    assert!(check_text(b"UTF-8").is_ok());
}

#[test]
fn nul_free_rejects_embedded_zero() {
    assert!(!check_nul_free(b"a\0b"));
    assert!(!check_nul_free(b"\0"));
    assert!(check_text(b"a\0b").is_err());
}

#[test]
fn native_len_fits_small_buffers() {
    assert_eq!(native_len(0), Ok(0));
    assert_eq!(native_len(4096), Ok(4096));
    assert_eq!(native_len(i32::MAX as usize), Ok(i32::MAX));
}

#[test]
fn native_len_rejects_oversized_buffers() {
    assert_eq!(native_len(i32::MAX as usize + 1), Err(Error));
}

#[test]
fn font_registration_checks_name_and_length() {
    assert_eq!(check_font_registration(b"font.ttf", &[1, 2, 3]), Ok(3));
    assert!(check_font_registration(b"bad\0font", &[1, 2, 3]).is_err());
}

#[test]
fn track_source_checks_both_strings() {
    assert!(check_track_source_path(b"subs.ass", b"UTF-8").is_ok());
    assert!(check_track_source_path(b"bad\0path", b"UTF-8").is_err());
    assert!(check_track_source_path(b"subs.ass", b"UTF\0-8").is_err());
    assert!(check_track_source_memory(b"UTF-8").is_ok());
    assert!(check_track_source_memory(b"UTF\0-8").is_err());
}

#[test]
fn override_patterns_all_checked() {
    let good = vec![b"FontName=Arial".to_vec(), b"Bold=1".to_vec()];
    assert!(check_override_patterns(&good).is_ok());
    let bad = vec![b"FontName=Arial".to_vec(), b"Bo\0ld=1".to_vec()];
    assert!(check_override_patterns(&bad).is_err());
    let empty: Vec<Vec<u8>> = Vec::new();
    assert!(check_override_patterns(&empty).is_ok());
}

#[test]
fn native_bool_values() {
    assert_eq!(native_bool(true), 1);
    assert_eq!(native_bool(false), 0);
}

#[test]
fn allocation_null_becomes_error() {
    assert!(check_allocation(true).is_err());
    assert!(check_allocation(false).is_ok());
}

#[test]
fn error_has_message() {
    assert_eq!(Error.message(), "libass error");
}
