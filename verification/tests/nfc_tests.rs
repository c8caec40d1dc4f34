use spoolbuddy::nfc::{
    card_info_from_parts, classify_card, init_nfc_manager, nfc_card_event, nfc_card_present,
    nfc_get_card_info, nfc_get_firmware_version, nfc_get_status, nfc_get_uid_hex,
    nfc_is_initialized, nfc_rf_enabled, poll_nfc, uid_hex_string, CardInfo, NfcAction,
    NfcCardEvent, NfcManagerState, PresenceChange, CARD_TYPE_MIFARE_1K, CARD_TYPE_MIFARE_4K,
    CARD_TYPE_NTAG, CARD_TYPE_UNKNOWN,
};
use spoolbuddy::singleton::Singleton;

fn fresh_nfc() -> Singleton<NfcManagerState> {
    let mut s: Singleton<NfcManagerState> = Singleton::empty();
    init_nfc_manager(&mut s, true, (4, 1, 0));
    s
}

fn sample_card() -> CardInfo {
    card_info_from_parts(
        [0x04, 0xA1, 0xB2, 0xC3, 0xD4, 0xE5, 0xF6, 0, 0, 0],
        7,
        [0x00, 0x44],
        0x00,
        true,
        false,
        false,
    )
}

#[test]
fn classification_priority_ntag_first() {
    assert_eq!(classify_card(true, true, true), CARD_TYPE_NTAG);
    assert_eq!(classify_card(true, true, false), CARD_TYPE_NTAG);
    assert_eq!(classify_card(false, true, true), CARD_TYPE_MIFARE_1K);
    assert_eq!(classify_card(false, false, true), CARD_TYPE_MIFARE_4K);
    assert_eq!(classify_card(false, false, false), CARD_TYPE_UNKNOWN);
}

#[test]
fn card_info_carries_fields_and_type() {
    let c = card_info_from_parts([1, 2, 3, 4, 0, 0, 0, 0, 0, 0], 4, [0x04, 0x00], 0x08, false, true, false);
    assert_eq!(c.uid_len, 4);
    assert_eq!(c.atqa, [0x04, 0x00]);
    assert_eq!(c.sak, 0x08);
    assert_eq!(c.card_type, CARD_TYPE_MIFARE_1K);
}

#[test]
fn poll_debounce_nine_idle_then_one_operation() {
    let mut s = fresh_nfc();
    for _ in 0..9 {
        let action = poll_nfc(&mut s);
        assert!(matches!(action, NfcAction::Idle));
    }
    let action = poll_nfc(&mut s);
    assert!(matches!(action, NfcAction::EnableRf));
}

#[test]
fn rf_enable_happens_once_then_stays_on() {
    let mut s = fresh_nfc();
    for _ in 0..9 {
        poll_nfc(&mut s);
    }
    assert!(matches!(poll_nfc(&mut s), NfcAction::EnableRf));
    assert!(nfc_rf_enabled(&mut s, true));
    for _ in 0..9 {
        assert!(matches!(poll_nfc(&mut s), NfcAction::Idle));
    }
    let second_cycle = poll_nfc(&mut s);
    assert!(matches!(second_cycle, NfcAction::PollCard));
    assert!(nfc_get_status(&s).rf_on);
}

#[test]
fn rf_enable_failure_skips_the_cycle() {
    let mut s = fresh_nfc();
    for _ in 0..9 {
        poll_nfc(&mut s);
    }
    assert!(matches!(poll_nfc(&mut s), NfcAction::EnableRf));
    assert!(!nfc_rf_enabled(&mut s, false));
    assert!(!nfc_get_status(&s).rf_on);
}

#[test]
fn poll_on_empty_holder_is_idle() {
    let mut s: Singleton<NfcManagerState> = Singleton::empty();
    assert!(matches!(poll_nfc(&mut s), NfcAction::Idle));
}

#[test]
fn card_detection_sets_presence_and_caches_card() {
    let mut s = fresh_nfc();
    let change = nfc_card_event(&mut s, NfcCardEvent::Detected(sample_card()));
    assert!(matches!(change, PresenceChange::Appeared));
    assert!(nfc_card_present(&s));
    let cached = nfc_get_card_info(&s).unwrap();
    assert_eq!(cached.uid_len, 7);
    assert_eq!(cached.card_type, CARD_TYPE_NTAG);
    let again = nfc_card_event(&mut s, NfcCardEvent::Detected(sample_card()));
    assert!(matches!(again, PresenceChange::Unchanged));
}

#[test]
fn removal_clears_presence_but_keeps_cached_card() {
    let mut s = fresh_nfc();
    nfc_card_event(&mut s, NfcCardEvent::Detected(sample_card()));
    let change = nfc_card_event(&mut s, NfcCardEvent::NoCard);
    assert!(matches!(change, PresenceChange::Removed));
    assert!(!nfc_card_present(&s));
    assert!(nfc_get_card_info(&s).is_some());
}

#[test]
fn timeout_and_failure_clear_presence_silently() {
    let mut s = fresh_nfc();
    nfc_card_event(&mut s, NfcCardEvent::Detected(sample_card()));
    let change = nfc_card_event(&mut s, NfcCardEvent::Timeout);
    assert!(matches!(change, PresenceChange::Unchanged));
    assert!(!nfc_card_present(&s));
    assert!(nfc_get_card_info(&s).is_some());
    nfc_card_event(&mut s, NfcCardEvent::Detected(sample_card()));
    let change = nfc_card_event(&mut s, NfcCardEvent::Failed);
    assert!(matches!(change, PresenceChange::Unchanged));
    assert!(!nfc_card_present(&s));
    assert!(nfc_get_card_info(&s).is_some());
}

#[test]
fn status_snapshot_defaults_and_live_values() {
    let empty: Singleton<NfcManagerState> = Singleton::empty();
    let st = nfc_get_status(&empty);
    assert!(!st.initialized && !st.rf_on && !st.card_present);
    assert_eq!((st.firmware_major, st.firmware_minor, st.firmware_patch), (0, 0, 0));
    assert!(!nfc_is_initialized(&empty));
    assert!(!nfc_card_present(&empty));
    assert!(nfc_get_card_info(&empty).is_none());
    let s = fresh_nfc();
    let st = nfc_get_status(&s);
    assert!(st.initialized);
    assert_eq!((st.firmware_major, st.firmware_minor, st.firmware_patch), (4, 1, 0));
    assert!(nfc_is_initialized(&s));
    assert_eq!(nfc_get_firmware_version(&s), (4, 1, 0));
    assert_eq!(nfc_get_firmware_version(&empty), (0, 0, 0));
}

#[test]
fn uid_hex_is_colon_separated_uppercase() {
    let c = sample_card();
    assert_eq!(uid_hex_string(&c), "04:A1:B2:C3:D4:E5:F6");
    let four = card_info_from_parts(
        [0xDE, 0xAD, 0x0F, 0x01, 0, 0, 0, 0, 0, 0],
        4,
        [0, 0],
        0,
        false,
        false,
        false,
    );
    assert_eq!(uid_hex_string(&four), "DE:AD:0F:01");
}

#[test]
fn uid_hex_respects_buffer_capacity() {
    let mut s = fresh_nfc();
    assert_eq!(nfc_get_uid_hex(&s, 64), "");
    nfc_card_event(&mut s, NfcCardEvent::Detected(sample_card()));
    assert_eq!(nfc_get_uid_hex(&s, 64), "04:A1:B2:C3:D4:E5:F6");
    assert_eq!(nfc_get_uid_hex(&s, 20), "04:A1:B2:C3:D4:E5:F6");
    assert_eq!(nfc_get_uid_hex(&s, 19), "");
    assert_eq!(nfc_get_uid_hex(&s, 2), "");
    let empty: Singleton<NfcManagerState> = Singleton::empty();
    assert_eq!(nfc_get_uid_hex(&empty, 64), "");
}
