//! The C-string values and the error kind.

use rtt_rs::base::CStr;
use rtt_rs::base::CString;
use rtt_rs::base::RTTError;
use rtt_rs::base::STR_MAX_LEN;

#[test]
fn cstring_appends_terminator() {
    let c = CString::new("abc");
    assert_eq!(c.bytes, vec![97u8, 98, 99, 0]);
}

#[test]
fn cstring_of_empty_text_is_one_zero() {
    let c = CString::new("");
    assert_eq!(c.bytes, vec![0u8]);
}

#[test]
fn cstr_content_stops_at_first_zero() {
    let c = CStr::new(vec![104u8, 105, 0, 120, 121]);
    assert_eq!(c.content(), vec![104u8, 105]);
}

#[test]
fn cstr_content_reads_at_most_the_cap() {
    let mut raw = Vec::new();
    for _ in 0..200 {
        raw.push(65u8);
    }
    let c = CStr::new(raw);
    assert_eq!(c.content().len(), STR_MAX_LEN);
}

#[test]
fn cstr_content_of_unterminated_short_buffer_is_whole() {
    let c = CStr::new(vec![1u8, 2, 3]);
    assert_eq!(c.content(), vec![1u8, 2, 3]);
}

#[test]
fn error_kinds_compare() {
    assert_eq!(RTTError::OutOfMemory, RTTError::OutOfMemory);
    assert_ne!(RTTError::OutOfMemory, RTTError::MutexTakeTimeout);
}
