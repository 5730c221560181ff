use cargo_genezio::codec::{decode_payload, encode_payload};
use cargo_genezio::launcher::{launcher_script, LAUNCHER_HEAD, LAUNCHER_TAIL};

#[test]
fn encodes_known_vectors() {
    assert_eq!(encode_payload(b""), "");
    assert_eq!(encode_payload(b"f"), "Zg==");
    assert_eq!(encode_payload(b"fo"), "Zm8=");
    assert_eq!(encode_payload(b"foo"), "Zm9v");
    assert_eq!(encode_payload(b"foob"), "Zm9vYg==");
    assert_eq!(encode_payload(b"foobar"), "Zm9vYmFy");
    assert_eq!(encode_payload(&[0xFF, 0xFE, 0xFD]), "//79");
    assert_eq!(encode_payload(&[0xFB, 0xEF]), "++8=");
}

#[test]
fn round_trip_empty_and_small() {
    for len in 0..40usize {
        let bytes: Vec<u8> = (0..len).map(|i| (i * 37 + 11) as u8).collect();
        let text = encode_payload(&bytes);
        assert_eq!(decode_payload(&text), Some(bytes));
    }
}

#[test]
fn round_trip_over_one_megabyte() {
    let bytes: Vec<u8> = (0..(1usize << 20) + 7).map(|i| (i * 7919 % 251) as u8).collect();
    let text = encode_payload(&bytes);
    assert_eq!(text.len(), (bytes.len() + 2) / 3 * 4);
    assert_eq!(decode_payload(&text), Some(bytes));
}

#[test]
fn decode_refuses_non_canonical_text() {
    assert_eq!(decode_payload("Zm9v"), Some(b"foo".to_vec()));
    assert_eq!(decode_payload("Zh=="), None);
    assert_eq!(decode_payload("Zg"), None);
    assert_eq!(decode_payload("Zg=x"), None);
    assert_eq!(decode_payload("Z'=="), None);
}

#[test]
fn payload_has_no_literal_delimiters() {
    let bytes: Vec<u8> = (0..=255u8).cycle().take(3000).collect();
    let text = encode_payload(&bytes);
    for c in text.chars() {
        assert!(!matches!(c, '\'' | '"' | '`' | '\\' | '\n' | '\r' | ';'));
        assert!(c.is_ascii_alphanumeric() || c == '+' || c == '/' || c == '=');
    }
}

#[test]
fn script_embeds_payload_between_head_and_tail() {
    let bytes = vec![0x7F, 0x45, 0x4C, 0x46, 0x02, 0x01];
    let script = launcher_script(&bytes);
    assert!(script.starts_with(LAUNCHER_HEAD));
    assert!(script.ends_with(LAUNCHER_TAIL));
    let payload = &script[LAUNCHER_HEAD.len()..script.len() - LAUNCHER_TAIL.len()];
    assert_eq!(payload, "f0VMRgIB");
    assert_eq!(decode_payload(payload), Some(bytes.clone()));
    assert!(script.contains("const TRAP_BIN = Buffer.from('f0VMRgIB', 'base64');"));
    assert!(script.starts_with("import { writeFileSync, chmodSync } from 'fs';"));
    assert!(script.ends_with("async call() { }\n}"));
    assert_eq!(launcher_script(&bytes), script);
}
