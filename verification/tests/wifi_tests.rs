use spoolbuddy::singleton::Singleton;
use spoolbuddy::wifi::{
    auth_mode_code, connect_finish, get_state, init_wifi_manager, load_credentials,
    rssi_from_scan, save_credentials, should_auto_connect, start_connect, wifi_disconnect,
    wifi_get_rssi, wifi_get_ssid, wifi_get_status, wifi_is_connected, wifi_scan, AuthKind,
    ConnectOutcome, CredentialStore, ScanNetwork, WifiManager, WifiState,
};

fn fresh_manager(ssid: &str, password: &str) -> Singleton<WifiManager> {
    let mut s: Singleton<WifiManager> = Singleton::empty();
    let m = init_wifi_manager(String::from(ssid), String::from(password));
    s.init(m);
    s
}

fn empty_store() -> CredentialStore {
    CredentialStore { ssid: None, password: None }
}

#[test]
fn successful_connect_ends_connected_and_persists() {
    let mut s = fresh_manager("", "");
    let mut store = empty_store();
    assert!(start_connect(&mut s, "HomeNet", "secret123"));
    assert!(matches!(get_state(&s), WifiState::Connecting));
    let ok = connect_finish(
        &mut s,
        &mut store,
        ConnectOutcome::Success { ip: [10, 0, 0, 5], rssi: -42 },
    );
    assert!(ok);
    match get_state(&s) {
        WifiState::Connected { ip, rssi } => {
            assert_eq!(ip, [10, 0, 0, 5]);
            assert_eq!(rssi, -42);
        }
        _ => panic!("expected the connected state"),
    }
    let (ssid, password) = load_credentials(&store);
    assert_eq!(ssid, "HomeNet");
    assert_eq!(password, "secret123");
}

#[test]
fn failed_connect_ends_error_and_persists_nothing() {
    let mut s = fresh_manager("", "");
    let mut store = empty_store();
    assert!(start_connect(&mut s, "HomeNet", "wrongpass"));
    let ok = connect_finish(
        &mut s,
        &mut store,
        ConnectOutcome::Failure(String::from("Failed to connect: timeout")),
    );
    assert!(!ok);
    match get_state(&s) {
        WifiState::Error(msg) => assert_eq!(msg, "Failed to connect: timeout"),
        _ => panic!("expected the error state"),
    }
    assert!(store.ssid.is_none());
    assert!(store.password.is_none());
    let (ssid, password) = load_credentials(&store);
    assert_eq!(ssid, "");
    assert_eq!(password, "");
}

#[test]
fn oversized_ssid_fails_before_any_radio_work() {
    let mut s = fresh_manager("", "");
    let long_ssid = "s".repeat(64);
    assert!(!start_connect(&mut s, &long_ssid, "pw"));
    match get_state(&s) {
        WifiState::Error(msg) => assert_eq!(msg, "SSID too long"),
        _ => panic!("expected the error state"),
    }
}

#[test]
fn oversized_password_fails_before_any_radio_work() {
    let mut s = fresh_manager("", "");
    let long_pw = "p".repeat(64);
    assert!(!start_connect(&mut s, "HomeNet", &long_pw));
    match get_state(&s) {
        WifiState::Error(msg) => assert_eq!(msg, "Password too long"),
        _ => panic!("expected the error state"),
    }
}

#[test]
fn boundary_sized_credentials_proceed() {
    let mut s = fresh_manager("", "");
    let ssid = "s".repeat(63);
    let pw = "p".repeat(63);
    assert!(start_connect(&mut s, &ssid, &pw));
    assert!(matches!(get_state(&s), WifiState::Connecting));
}

#[test]
fn connect_on_uninitialized_manager_does_nothing() {
    let mut s: Singleton<WifiManager> = Singleton::empty();
    assert!(!start_connect(&mut s, "HomeNet", "pw"));
    assert!(matches!(get_state(&s), WifiState::Uninitialized));
}

#[test]
fn credentials_round_trip_through_store() {
    let mut store = empty_store();
    save_credentials(&mut store, "HomeNet", "secret123");
    let (ssid, password) = load_credentials(&store);
    assert_eq!(ssid, "HomeNet");
    assert_eq!(password, "secret123");
}

#[test]
fn auto_connect_exactly_when_saved_ssid_nonempty() {
    let with_saved = init_wifi_manager(String::from("HomeNet"), String::from("pw"));
    assert!(should_auto_connect(&with_saved));
    let without = init_wifi_manager(String::new(), String::new());
    assert!(!should_auto_connect(&without));
}

#[test]
fn status_codes_cover_every_state() {
    let mut s: Singleton<WifiManager> = Singleton::empty();
    assert_eq!(wifi_get_status(&s).state, 0);
    let m = init_wifi_manager(String::new(), String::new());
    s.init(m);
    assert_eq!(wifi_get_status(&s).state, 1);
    let mut store = empty_store();
    start_connect(&mut s, "Net", "pw");
    assert_eq!(wifi_get_status(&s).state, 2);
    connect_finish(&mut s, &mut store, ConnectOutcome::Success { ip: [1, 2, 3, 4], rssi: -60 });
    let st = wifi_get_status(&s);
    assert_eq!(st.state, 3);
    assert_eq!(st.ip, [1, 2, 3, 4]);
    assert_eq!(st.rssi, -60);
    start_connect(&mut s, "Net", "pw");
    connect_finish(&mut s, &mut store, ConnectOutcome::Failure(String::from("no ap")));
    let st = wifi_get_status(&s);
    assert_eq!(st.state, 4);
    assert_eq!(st.ip, [0, 0, 0, 0]);
    assert_eq!(st.rssi, 0);
}

#[test]
fn disconnect_success_and_failure() {
    let mut s = fresh_manager("Net", "pw");
    let mut store = empty_store();
    start_connect(&mut s, "Net", "pw");
    connect_finish(&mut s, &mut store, ConnectOutcome::Success { ip: [1, 1, 1, 1], rssi: -50 });
    assert_eq!(wifi_is_connected(&s), 1);
    assert_eq!(wifi_disconnect(&mut s, false), -1);
    assert_eq!(wifi_is_connected(&s), 1);
    assert_eq!(wifi_disconnect(&mut s, true), 0);
    assert_eq!(wifi_is_connected(&s), 0);
    assert!(matches!(get_state(&s), WifiState::Disconnected));
    let mut empty: Singleton<WifiManager> = Singleton::empty();
    assert_eq!(wifi_disconnect(&mut empty, true), -1);
}

#[test]
fn rssi_reads_cached_value_only_when_connected() {
    let mut s = fresh_manager("Net", "pw");
    assert_eq!(wifi_get_rssi(&s), 0);
    let mut store = empty_store();
    start_connect(&mut s, "Net", "pw");
    connect_finish(&mut s, &mut store, ConnectOutcome::Success { ip: [1, 1, 1, 1], rssi: -33 });
    assert_eq!(wifi_get_rssi(&s), -33);
}

#[test]
fn ssid_reads_current_value_or_empty() {
    let s = fresh_manager("Workshop", "pw");
    assert_eq!(wifi_get_ssid(&s), "Workshop");
    let empty: Singleton<WifiManager> = Singleton::empty();
    assert_eq!(wifi_get_ssid(&empty), "");
}

#[test]
fn scan_keeps_order_and_maps_auth_modes() {
    let networks = vec![
        ScanNetwork { ssid: String::from("open"), rssi: -20, auth: AuthKind::Open },
        ScanNetwork { ssid: String::from("wep"), rssi: -30, auth: AuthKind::Wep },
        ScanNetwork { ssid: String::from("wpa"), rssi: -40, auth: AuthKind::Wpa },
        ScanNetwork { ssid: String::from("wpa2"), rssi: -50, auth: AuthKind::Wpa2Personal },
        ScanNetwork { ssid: String::from("ent"), rssi: -60, auth: AuthKind::Wpa2Enterprise },
        ScanNetwork { ssid: String::from("wpa3"), rssi: -70, auth: AuthKind::Wpa3Personal },
        ScanNetwork { ssid: String::from("odd"), rssi: -80, auth: AuthKind::Other },
    ];
    let out = wifi_scan(&networks, 10);
    assert_eq!(out.len(), 7);
    let expected_codes = [0u8, 1, 2, 3, 3, 4, 3];
    for i in 0..7 {
        assert_eq!(out[i].ssid, networks[i].ssid);
        assert_eq!(out[i].rssi, networks[i].rssi);
        assert_eq!(out[i].auth_mode, expected_codes[i]);
    }
}

#[test]
fn scan_truncates_to_requested_count() {
    let networks = vec![
        ScanNetwork { ssid: String::from("a"), rssi: -20, auth: AuthKind::Open },
        ScanNetwork { ssid: String::from("b"), rssi: -30, auth: AuthKind::Open },
        ScanNetwork { ssid: String::from("c"), rssi: -40, auth: AuthKind::Open },
    ];
    let out = wifi_scan(&networks, 2);
    assert_eq!(out.len(), 2);
    assert_eq!(out[0].ssid, "a");
    assert_eq!(out[1].ssid, "b");
}

#[test]
fn auth_codes_and_default_rssi() {
    assert_eq!(auth_mode_code(&AuthKind::Other), 3);
    assert_eq!(rssi_from_scan(Some(-47)), -47);
    assert_eq!(rssi_from_scan(None), -50);
}
