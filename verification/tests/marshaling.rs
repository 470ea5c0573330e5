//! Boundary marshaling: UTF-8 validation, owned decoding, and the
//! notification round trip.

use tray_bridge::marshal::{check_utf8, decode, str_eq, MarshalError};
use tray_bridge::session::{TrayConfig, TraySession};

fn session() -> TraySession {
    TraySession::new(TrayConfig {
        name: String::from("App"),
        icon_path: String::from("C:\\icon.ico"),
    })
}

#[test]
fn decode_ascii_round_trips() {
    let bytes = b"hello world".to_vec();
    let text = decode(&bytes).unwrap();
    assert_eq!(text, "hello world");
    assert_eq!(text.as_bytes(), bytes.as_slice());
}

#[test]
fn decode_multibyte_round_trips() {
    let source = "h\u{e9}llo \u{2192} \u{20ac} \u{1f389} \u{663e}\u{793a}";
    let bytes = source.as_bytes().to_vec();
    let text = decode(&bytes).unwrap();
    assert_eq!(text, source);
    assert_eq!(text.as_bytes(), bytes.as_slice());
}

#[test]
fn decode_empty_is_empty_string() {
    assert_eq!(decode(&Vec::new()).unwrap(), "");
}

#[test]
fn decode_rejects_malformed_input() {
    // A stray continuation byte.
    assert_eq!(decode(&vec![0x80u8]), Err(MarshalError::MalformedInput));
    // A lead byte with no continuation.
    assert_eq!(decode(&vec![0xc3u8]), Err(MarshalError::MalformedInput));
    // An overlong two-byte encoding of '/'.
    assert_eq!(decode(&vec![0xc0u8, 0xaf]), Err(MarshalError::MalformedInput));
    // A surrogate codepoint.
    assert_eq!(decode(&vec![0xedu8, 0xa0, 0x80]), Err(MarshalError::MalformedInput));
    // A codepoint beyond the last Unicode scalar.
    assert_eq!(decode(&vec![0xf4u8, 0x90, 0x80, 0x80]), Err(MarshalError::MalformedInput));
    // A byte no encoding uses.
    assert_eq!(decode(&vec![0xffu8]), Err(MarshalError::MalformedInput));
    // Valid text with an invalid tail.
    assert_eq!(decode(&vec![b'a', b'b', 0xe0u8, 0x80]), Err(MarshalError::MalformedInput));
}

#[test]
fn check_utf8_agrees_with_std() {
    let samples: Vec<Vec<u8>> = vec![
        b"plain".to_vec(),
        "\u{7f}\u{80}\u{7ff}\u{800}\u{ffff}\u{10000}\u{10ffff}".as_bytes().to_vec(),
        vec![0xe0, 0xa0, 0x80],
        vec![0xe0, 0x9f, 0x80],
        vec![0xf0, 0x90, 0x80, 0x80],
        vec![0xf0, 0x8f, 0x80, 0x80],
        vec![0xed, 0x9f, 0xbf],
        vec![0xc2, 0x80],
        vec![0xc1, 0xbf],
        vec![0xf5, 0x80, 0x80, 0x80],
    ];
    for bytes in samples {
        assert_eq!(check_utf8(&bytes), std::str::from_utf8(&bytes).is_ok());
    }
}

#[test]
fn str_eq_compares_characters() {
    assert!(str_eq("", ""));
    assert!(str_eq("abc", "abc"));
    assert!(str_eq("\u{663e}\u{793a}", "\u{663e}\u{793a}"));
    assert!(!str_eq("abc", "abd"));
    assert!(!str_eq("abc", "abcd"));
    assert!(!str_eq("a", ""));
}

#[test]
fn notification_delivers_bytes_unchanged() {
    let text = String::from("update ready \u{1f514}").into_bytes();
    let title = String::from("\u{663e}\u{793a}").into_bytes();
    let notice = session().notification(&text, &title).unwrap();
    assert_eq!(notice.text.as_bytes(), text.as_slice());
    assert_eq!(notice.title.as_ref().unwrap().as_bytes(), title.as_slice());
}

#[test]
fn notification_empty_title_means_no_title() {
    let text = b"body".to_vec();
    let notice = session().notification(&text, &Vec::new()).unwrap();
    assert_eq!(notice.text, "body");
    // A zero title length is "no title", distinct from an empty-string title.
    assert!(notice.title.is_none());
}

#[test]
fn notification_rejects_malformed_buffers() {
    let bad = vec![0xffu8];
    let good = b"ok".to_vec();
    assert_eq!(session().notification(&bad, &good), Err(MarshalError::MalformedInput));
    assert_eq!(session().notification(&good, &bad), Err(MarshalError::MalformedInput));
}
