//! Decoding the message that comes with an event.

use sofia_sip::error::Error;
use sofia_sip::sip::url_as_string;
use sofia_sip::sip::url_buffer_len;
use sofia_sip::sip::ContentType;
use sofia_sip::sip::MsgGeneric;
use sofia_sip::sip::Payload;
use sofia_sip::sip::Sip;
use sofia_sip::sip::SipAddr;
use sofia_sip::sys::RawAddr;
use sofia_sip::sys::RawContentType;
use sofia_sip::sys::RawGeneric;
use sofia_sip::sys::RawPayload;
use sofia_sip::sys::RawSip;

fn addr(display: Option<&str>, url: &str) -> RawAddr {
    let mut buf = url.as_bytes().to_vec();
    buf.push(0);
    RawAddr {
        a_display: display.map(|d| d.as_bytes().to_vec()),
        a_url: buf,
        a_url_len: url.len(),
    }
}

#[test]
fn absent_message_reads_as_empty() {
    let sip = Sip::_from_sys(None);
    assert!(!sip.is_present());
    assert!(!sip.from().is_present());
    assert!(!sip.to().is_present());
    assert!(!sip.subject().is_present());
    assert!(!sip.content_type().is_present());
    assert!(!sip.payload().is_present());
    assert_eq!(sip.from().display(), "");
    assert_eq!(sip.from().url(), "");
    assert_eq!(sip.from().to_string(), "");
    assert_eq!(sip.subject().to_string(), "");
    assert_eq!(sip.content_type().to_string(), "");
    assert!(sip.payload().data().is_empty());
    assert_eq!(sip.payload().as_utf8_lossy(), "");

    let default = Sip::default();
    assert!(!default.is_present());
    assert!(!default.to().is_present());
}

#[test]
fn message_without_parts_is_present_and_empty() {
    let raw = RawSip {
        sip_from: None,
        sip_to: None,
        sip_subject: None,
        sip_content_type: None,
        sip_payload: None,
    };
    let sip = Sip::_from_sys(Some(&raw));
    assert!(sip.is_present());
    assert!(!sip.from().is_present());
    assert!(!sip.to().is_present());
    assert!(!sip.subject().is_present());
    assert!(!sip.content_type().is_present());
    assert!(!sip.payload().is_present());
}

#[test]
fn message_is_decoded_part_by_part() {
    let raw = RawSip {
        sip_from: Some(addr(Some("Alice"), "sip:alice@example.org")),
        sip_to: Some(addr(None, "sip:bob@example.org")),
        sip_subject: Some(RawGeneric { g_string: Some(b"NUA".to_vec()) }),
        sip_content_type: Some(RawContentType { c_type: Some(b"text/plain".to_vec()) }),
        sip_payload: Some(RawPayload { pl_data: Some(b"Hi\n".to_vec()), pl_len: 3 }),
    };
    let sip = Sip::_from_sys(Some(&raw));
    assert!(sip.is_present());
    assert!(sip.from().is_present());
    assert_eq!(sip.from().display(), "Alice");
    assert_eq!(sip.from().url(), "sip:alice@example.org");
    assert_eq!(sip.from().to_string(), "Alice sip:alice@example.org");
    assert!(sip.to().is_present());
    assert_eq!(sip.to().display(), "");
    assert_eq!(sip.to().to_string(), "sip:bob@example.org");
    assert!(sip.subject().is_present());
    assert_eq!(sip.subject().to_string(), "NUA");
    assert!(sip.content_type().is_present());
    assert_eq!(sip.content_type().to_string(), "text/plain");
    assert!(sip.payload().is_present());
    assert_eq!(sip.payload().data(), &b"Hi\n".to_vec());
    assert_eq!(sip.payload().as_utf8_lossy(), "Hi\n");
}

#[test]
fn address_parts_guard_against_null() {
    let none = SipAddr::_from_sys(None);
    assert!(!none.is_present());
    let bare = SipAddr::_from_sys(Some(&addr(None, "")));
    assert!(bare.is_present());
    assert_eq!(bare.to_string(), "");
    let display_only = SipAddr::_from_sys(Some(&addr(Some("Bob"), "")));
    assert_eq!(display_only.to_string(), "Bob ");
    let cut = SipAddr::_from_sys(Some(&addr(Some("Bob\0by"), "sip:b@c")));
    assert_eq!(cut.display(), "Bob");
}

#[test]
fn url_takes_exactly_the_reported_length() {
    assert_eq!(url_buffer_len(0), Ok(1));
    assert_eq!(url_buffer_len(21), Ok(22));
    assert_eq!(url_buffer_len(usize::MAX - 1), Ok(usize::MAX));
    assert_eq!(url_buffer_len(usize::MAX), Err(Error::UrlError));

    assert_eq!(url_as_string(b"sip:a@b\0", 7), "sip:a@b");
    assert_eq!(url_as_string(b"sip:a@b\0", 3), "sip");
    assert_eq!(url_as_string(b"sip:a@b\0", 0), "");
    /* a length beyond the buffer takes the buffer */
    assert_eq!(url_as_string(b"sip", 7), "sip");
    assert_eq!(url_as_string(&[b's', 0xff, b'p'], 3), "s\u{fffd}p");
}

#[test]
fn free_text_guards_against_null() {
    assert!(!MsgGeneric::_from_sys(None).is_present());
    assert!(!MsgGeneric::default().is_present());
    let empty = MsgGeneric::_from_sys(Some(&RawGeneric { g_string: None }));
    assert!(empty.is_present());
    assert_eq!(empty.to_string(), "");
    let text = MsgGeneric::_from_sys(Some(&RawGeneric { g_string: Some(b"a b\0c".to_vec()) }));
    assert_eq!(text.to_string(), "a b");

    assert!(!ContentType::_from_sys(None).is_present());
    let ct = ContentType::_from_sys(Some(&RawContentType { c_type: None }));
    assert!(ct.is_present());
    assert_eq!(ct.to_string(), "");
}

#[test]
fn payload_is_bytes_until_asked_for_text() {
    assert!(!Payload::_from_sys(None).is_present());
    let null_data = Payload::_from_sys(Some(&RawPayload { pl_data: None, pl_len: 4 }));
    assert!(null_data.is_present());
    assert!(null_data.data().is_empty());

    /* terminators are part of a body */
    let bytes = vec![0u8, 159, 146, 150, 0, b'x'];
    let raw = RawPayload { pl_data: Some(bytes.clone()), pl_len: 6 };
    let payload = Payload::_from_sys(Some(&raw));
    assert_eq!(payload.data(), &bytes);
    assert_eq!(payload.as_utf8_lossy(), "\0\u{fffd}\u{fffd}\u{fffd}\0x");

    /* exactly the reported length */
    let raw = RawPayload { pl_data: Some(b"Hello, world".to_vec()), pl_len: 5 };
    assert_eq!(Payload::_from_sys(Some(&raw)).data(), &b"Hello".to_vec());
    let raw = RawPayload { pl_data: Some(b"Hello".to_vec()), pl_len: 0 };
    assert!(Payload::_from_sys(Some(&raw)).data().is_empty());
    let raw = RawPayload { pl_data: Some(b"Hello".to_vec()), pl_len: 50 };
    assert_eq!(Payload::_from_sys(Some(&raw)).data(), &b"Hello".to_vec());
}
