//! Terminated byte strings, their decoding, and the error indicator.

use sofia_sip::error::errno;
use sofia_sip::error::get_and_reset;
use sofia_sip::error::ERROR_NONE;
use sofia_sip::error::Error;
use sofia_sip::text::copy_first;
use sofia_sip::text::copy_until_nul;
use sofia_sip::text::find_nul;
use sofia_sip::text::terminated_len;
use sofia_sip::text::to_string_lossy;

#[test]
fn terminator_is_found_first() {
    assert_eq!(find_nul(b""), 0);
    assert_eq!(find_nul(b"abc"), 3);
    assert_eq!(find_nul(b"\0abc"), 0);
    assert_eq!(find_nul(b"ab\0c\0"), 2);
    assert_eq!(find_nul(b"abc\0"), 3);
}

#[test]
fn bytes_are_cut_at_the_terminator() {
    assert_eq!(copy_until_nul(b""), Vec::<u8>::new());
    assert_eq!(copy_until_nul(b"abc"), b"abc".to_vec());
    assert_eq!(copy_until_nul(b"ab\0c\0"), b"ab".to_vec());
    assert_eq!(copy_until_nul(b"\0"), Vec::<u8>::new());
}

#[test]
fn first_bytes_are_copied() {
    assert_eq!(copy_first(b"abcdef", 0), Vec::<u8>::new());
    assert_eq!(copy_first(b"abcdef", 2), b"ab".to_vec());
    assert_eq!(copy_first(b"abcdef", 6), b"abcdef".to_vec());
    assert_eq!(copy_first(b"abcdef", 7), b"abcdef".to_vec());
    assert_eq!(copy_first(b"a\0b", 3), b"a\0b".to_vec());
}

#[test]
fn buffer_has_room_for_the_terminator() {
    assert_eq!(terminated_len(0), Some(1));
    assert_eq!(terminated_len(13), Some(14));
    assert_eq!(terminated_len(usize::MAX - 1), Some(usize::MAX));
    assert_eq!(terminated_len(usize::MAX), None);
}

#[test]
fn text_comes_back_from_its_bytes() {
    for text in ["", "plain", "Zoë", "日本語", "a\0b", "😀 ok"] {
        assert_eq!(to_string_lossy(text.as_bytes()), text);
    }
}

#[test]
fn ill_formed_bytes_are_replaced() {
    assert_eq!(to_string_lossy(&[0xff]), "\u{fffd}");
    assert_eq!(to_string_lossy(&[b'a', 0xc3]), "a\u{fffd}");
    assert_eq!(to_string_lossy(&[0xf0, 0x9f, 0x98, b'z']), "\u{fffd}z");
    assert_ne!(to_string_lossy(b"abc"), "ab");
}

#[test]
fn errors_compare_by_variant() {
    let all = [
        Error::InitError,
        Error::CreateNuaError,
        Error::CreateNuaHandleError,
        Error::ConvertToCStringError,
        Error::UrlError,
        Error::MissingTagConversion,
    ];
    for (i, a) in all.iter().enumerate() {
        for (j, b) in all.iter().enumerate() {
            assert_eq!(a == b, i == j);
        }
    }
    assert_eq!(format!("{:?}", Error::InitError), "InitError");
}

#[test]
fn indicator_is_taken_and_reset() {
    for code in [0, 14, 97, -1, i32::MAX, i32::MIN] {
        let mut indicator = code;
        assert_eq!(get_and_reset(&mut indicator), code);
        assert_eq!(indicator, ERROR_NONE);
    }
}

#[test]
fn errno_is_reset_by_reading_it() {
    assert_eq!(ERROR_NONE, 0);
    errno();
    assert_eq!(errno(), ERROR_NONE);
}
