use signal::droppable::Droppable;
use signal::errors::{error_text, known_error};
use signal::text::push_decimal;
use signal::wide::AsWide;

fn decimal(n: i64) -> String {
    let mut out = String::from("n=");
    push_decimal(&mut out, n);
    out
}

#[test]
fn decimal_numbers() {
    assert_eq!(decimal(0), "n=0");
    assert_eq!(decimal(7), "n=7");
    assert_eq!(decimal(10), "n=10");
    assert_eq!(decimal(-1), "n=-1");
    assert_eq!(decimal(1234567890), "n=1234567890");
    assert_eq!(decimal(i64::MAX), "n=9223372036854775807");
    assert_eq!(decimal(i64::MIN), "n=-9223372036854775808");
    for n in [9i64, 99, 100, 101, -10, -99, -100, 4294967295, -2147483648] {
        assert_eq!(decimal(n), format!("n={}", n));
    }
}

#[test]
fn droppable_lines() {
    let mut counter = Droppable::new("probe");
    assert_eq!(counter.describe(), "(> Still here probe | tick 0)");
    assert_eq!(counter.farewell(), "(> Dropping probe | tick 0)");
    for _ in 0..12 {
        counter.tick();
    }
    assert_eq!(counter.describe(), "(> Still here probe | tick 12)");
    assert_eq!(counter.farewell(), "(> Dropping probe | tick 12)");
    assert_eq!(Droppable::default().describe(), "(> Still here default | tick 0)");
    assert_eq!(Droppable::new("").describe(), "(> Still here  | tick 0)");
}

#[test]
fn error_texts() {
    assert_eq!(error_text(0), "NO_ERROR: The operation completed successfully.");
    assert_eq!(error_text(2), "ERROR_FILE_NOT_FOUND: The system cannot find the file specified.");
    assert_eq!(error_text(5), "ERROR_ACCESS_DENIED: Access is denied.");
    assert_eq!(error_text(6), "ERROR_INVALID_HANDLE: The handle is invalid.");
    assert_eq!(error_text(87), "ERROR_INVALID_PARAMETER: The parameter is incorrect.");
    assert_eq!(error_text(100), "ERROR_TOO_MANY_SEMAPHORES: Cannot create another system semaphore.");
    assert_eq!(
        error_text(34),
        "ERROR_WRONG_DISK: The wrong diskette is in the drive. Insert %2 (Volume Serial Number: %3) into drive %1."
    );
}

#[test]
fn error_codes_without_text() {
    assert_eq!(error_text(35), "TODO error WIN32_ERROR(35)");
    assert_eq!(error_text(101), "TODO error WIN32_ERROR(101)");
    assert_eq!(error_text(1400), "TODO error WIN32_ERROR(1400)");
    assert_eq!(error_text(u32::MAX), "TODO error WIN32_ERROR(4294967295)");
    assert_eq!(known_error(35), None);
    assert_eq!(known_error(37), None);
    assert_eq!(known_error(81), None);
    assert_eq!(known_error(3), Some("ERROR_PATH_NOT_FOUND: The system cannot find the path specified."));
}

#[test]
fn every_known_error_starts_with_its_name() {
    let mut known = 0;
    for code in 0..200 {
        if let Some(text) = known_error(code) {
            known += 1;
            assert!(text.starts_with("ERROR_") || text.starts_with("NO_ERROR"));
            assert!(text.contains(": "));
            assert_eq!(error_text(code), text);
        }
    }
    assert_eq!(known, 71);
}

#[test]
fn wide_text() {
    assert_eq!("".as_wide(), vec![0]);
    assert_eq!("Hi".as_wide(), vec![0x48, 0x69, 0]);
    assert_eq!("é".as_wide(), vec![0xE9, 0]);
    assert_eq!("€".as_wide(), vec![0x20AC, 0]);
    assert_eq!("😀".as_wide(), vec![0xD83D, 0xDE00, 0]);
    assert_eq!("a\u{10000}b".as_wide(), vec![0x61, 0xD800, 0xDC00, 0x62, 0]);
    assert_eq!("\u{10FFFF}".as_wide(), vec![0xDBFF, 0xDFFF, 0]);
    assert_eq!("\u{FFFF}".as_wide(), vec![0xFFFF, 0]);
}

#[test]
fn wide_text_matches_the_standard_encoding() {
    for text in ["Sample Window Class", "NativeWindowsGuiWindow", "日本語", "mixed 😀 text ✓", "\0"] {
        let mut expected: Vec<u16> = text.encode_utf16().collect();
        expected.push(0);
        assert_eq!(text.as_wide(), expected);
    }
}
