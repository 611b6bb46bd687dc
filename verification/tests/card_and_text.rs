use scard_nfc::card::{PcscState, PCSC_SCARD_STATE_EMPTY, PCSC_SCARD_STATE_PRESENT};
use scard_nfc::text::{c_text, c_text_with_fallback};
use scard_nfc::error::ScardError;
use scard_nfc::monitor::event_label;

#[test]
fn mask_with_present_bit_is_present() {
    assert_eq!(PcscState::from_mask(PCSC_SCARD_STATE_PRESENT), PcscState::PRESENT);
}

#[test]
fn mask_with_empty_bit_is_empty() {
    assert_eq!(PcscState::from_mask(PCSC_SCARD_STATE_EMPTY), PcscState::EMPTY);
}

#[test]
fn present_wins_over_empty() {
    assert_eq!(PcscState::from_mask(PCSC_SCARD_STATE_EMPTY | PCSC_SCARD_STATE_PRESENT), PcscState::PRESENT);
    assert_eq!(PcscState::from_mask(0x30), PcscState::PRESENT);
}

#[test]
fn mask_without_either_bit_is_unknown() {
    assert_eq!(PcscState::from_mask(0), PcscState::UNKNOWN);
    assert_eq!(PcscState::from_mask(0x0001 | 0x0002 | 0x0100), PcscState::UNKNOWN);
}

#[test]
fn other_bits_do_not_hide_the_state() {
    assert_eq!(PcscState::from_mask(0x0010 | 0x0002), PcscState::EMPTY);
    assert_eq!(PcscState::from_mask(0x0020 | 0x0100), PcscState::PRESENT);
}

#[test]
fn event_labels() {
    assert_eq!(event_label(PcscState::PRESENT), "PRESENT");
    assert_eq!(event_label(PcscState::EMPTY), "ABSENT");
    assert_eq!(event_label(PcscState::UNKNOWN), "UNKNOWN");
}

#[test]
fn c_text_stops_at_the_first_nul() {
    assert_eq!(c_text(b"ab\0cd"), Some("ab".to_string()));
    assert_eq!(c_text(b"\0abc"), Some(String::new()));
}

#[test]
fn c_text_without_nul_takes_the_whole_buffer() {
    assert_eq!(c_text(b"hello"), Some("hello".to_string()));
    assert_eq!(c_text(b""), Some(String::new()));
}

#[test]
fn c_text_decodes_utf8() {
    assert_eq!(c_text("Kermichué\0".as_bytes()), Some("Kermichué".to_string()));
}

#[test]
fn c_text_rejects_invalid_utf8() {
    assert_eq!(c_text(&[0x61, 0xff, 0x62]), None);
    assert_eq!(c_text(&[0xc3]), None);
}

#[test]
fn c_text_ignores_bytes_after_the_nul() {
    assert_eq!(c_text(&[0x61, 0x00, 0xff]), Some("a".to_string()));
}

#[test]
fn c_text_fallback() {
    assert_eq!(c_text_with_fallback(&[0xff, 0x00], "bad"), "bad");
    assert_eq!(c_text_with_fallback(b"good\0", "bad"), "good");
}

#[test]
fn error_getters() {
    let e = ScardError::new("some-uid", "some info".to_string());
    assert_eq!(e.get_uid(), "some-uid");
    assert_eq!(e.get_info(), "some info");
}
