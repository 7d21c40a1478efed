// Texts as bytes, within the library and across the boundary.

use facingtime_core::ffi::text::text_argument;
use facingtime_core::text::{after_last, bytes_equal, ends_with, ends_with_at};

#[test]
fn missing_text_stands_for_the_default() {
    assert_eq!(text_argument(None, "0.0.0.0:8080").unwrap(), "0.0.0.0:8080");
    assert_eq!(text_argument(None, "").unwrap(), "");
}

#[test]
fn given_text_is_decoded() {
    assert_eq!(text_argument(Some("127.0.0.1:80".as_bytes()), "x").unwrap(), "127.0.0.1:80");
    assert_eq!(text_argument(Some("".as_bytes()), "x").unwrap(), "");
    assert_eq!(text_argument(Some("gr\u{fc}n".as_bytes()), "x").unwrap(), "gr\u{fc}n");
}

#[test]
fn malformed_text_stands_for_nothing() {
    assert!(text_argument(Some(&[0xff]), "x").is_none());
    assert!(text_argument(Some(&[0x61, 0xc3]), "x").is_none());
    assert!(text_argument(Some(&[0xed, 0xa0, 0x80]), "x").is_none());
}

#[test]
fn bytes_are_compared() {
    assert!(bytes_equal(b"abc", b"abc"));
    assert!(bytes_equal(b"", b""));
    assert!(!bytes_equal(b"abc", b"abd"));
    assert!(!bytes_equal(b"abc", b"ab"));
    assert!(ends_with(b"a.local.", b".local."));
    assert!(ends_with(b".local.", b".local."));
    assert!(ends_with(b"abc", b""));
    assert!(!ends_with(b"local.", b".local."));
    assert!(!ends_with(b"a.local", b".local."));
    assert!(ends_with_at(b"abcdef", 3, b"bc"));
    assert!(!ends_with_at(b"abcdef", 3, b"ef"));
    assert!(ends_with_at(b"abcdef", 0, b""));
}

#[test]
fn last_separator_is_found_from_the_right() {
    assert_eq!(after_last(b"a.b.c", 5, b'.'), 4);
    assert_eq!(after_last(b"a.b.c", 3, b'.'), 2);
    assert_eq!(after_last(b"a.b.c", 1, b'.'), 0);
    assert_eq!(after_last(b"abc", 3, b'.'), 0);
    assert_eq!(after_last(b"abc.", 4, b'.'), 4);
    assert_eq!(after_last(b".abc", 4, b'.'), 1);
    assert_eq!(after_last(b"", 0, b'.'), 0);
}
