//! The WiFi connection lifecycle: a state machine over one process-wide
//! manager, with credential persistence and the scan-result mapping.
//!
//! The blocking radio operations (configure, start, associate, wait for an
//! address) live in the embedding application; this module decides what may
//! proceed, records every outcome, and persists credentials only after a
//! connection succeeded. A whole connect runs synchronously under the
//! manager's lock, so no caller ever observes the intermediate steps.

use vstd::prelude::*;
use vstd::string::{StrSliceExecFns, StringExecFns};
use vstd::utf8::encode_utf8;
use crate::singleton::Singleton;

verus! {

/// The longest SSID or password that can be stored and configured, in bytes.
pub const CREDENTIAL_MAX_BYTES: usize = 63;

/// The connection state. Exactly one current value exists per process.
pub enum WifiState {
    /// No manager was initialized yet.
    Uninitialized,
    /// Initialized and idle.
    Disconnected,
    /// A connect is running; never observable from outside, since a connect
    /// resolves synchronously before control returns.
    Connecting,
    /// Associated, with the assigned address and the signal strength in dBm.
    Connected { ip: [u8; 4], rssi: i8 },
    /// The last connect failed, with the first failing step's message.
    Error(String),
}

/// The mathematical shadow of a `WifiState`.
#[verifier::ext_equal]
pub ghost enum WifiStateModel {
    Uninitialized,
    Disconnected,
    Connecting,
    Connected { ip: [u8; 4], rssi: i8 },
    Error(Seq<char>),
}

impl View for WifiState {
    type V = WifiStateModel;

    open spec fn view(&self) -> WifiStateModel {
        match self {
            WifiState::Uninitialized => WifiStateModel::Uninitialized,
            WifiState::Disconnected => WifiStateModel::Disconnected,
            WifiState::Connecting => WifiStateModel::Connecting,
            WifiState::Connected { ip, rssi } => WifiStateModel::Connected {
                ip: *ip,
                rssi: *rssi,
            },
            WifiState::Error(msg) => WifiStateModel::Error(msg@),
        }
    }
}

/// The manager owning the connection state and the current credentials.
pub struct WifiManager {
    /// Current connection state.
    pub state: WifiState,
    /// SSID of the last connect attempt (or the loaded one).
    pub ssid: String,
    /// Password of the last connect attempt (or the loaded one).
    pub password: String,
}

/// The mathematical shadow of a `WifiManager`.
#[verifier::ext_equal]
pub ghost struct WifiManagerModel {
    pub state: WifiStateModel,
    pub ssid: Seq<char>,
    pub password: Seq<char>,
}

impl View for WifiManager {
    type V = WifiManagerModel;

    open spec fn view(&self) -> WifiManagerModel {
        WifiManagerModel { state: self.state@, ssid: self.ssid@, password: self.password@ }
    }
}

/// The persisted credential entries of the one fixed namespace: one entry per
/// key, absent until ever written.
pub struct CredentialStore {
    /// The stored SSID entry.
    pub ssid: Option<String>,
    /// The stored password entry.
    pub password: Option<String>,
}

/// The mathematical shadow of a `CredentialStore`.
#[verifier::ext_equal]
pub ghost struct CredentialStoreModel {
    pub ssid: Option<Seq<char>>,
    pub password: Option<Seq<char>>,
}

impl View for CredentialStore {
    type V = CredentialStoreModel;

    open spec fn view(&self) -> CredentialStoreModel {
        CredentialStoreModel {
            ssid: match self.ssid {
                Some(ref s) => Some(s@),
                None => None,
            },
            password: match self.password {
                Some(ref s) => Some(s@),
                None => None,
            },
        }
    }
}

/// One entry read fail-open: an absent value is the empty string, never an
/// error.
pub open spec fn spec_loaded(e: Option<Seq<char>>) -> Seq<char> {
    match e {
        Some(s) => s,
        None => Seq::empty(),
    }
}

/// The store after both entries were written.
pub open spec fn spec_saved(
    st: CredentialStoreModel,
    ssid: Seq<char>,
    password: Seq<char>,
) -> CredentialStoreModel {
    CredentialStoreModel { ssid: Some(ssid), password: Some(password) }
}

/// Saved credentials load back exactly as they were written: writing a pair
/// and reading it afterwards yields that pair.
pub proof fn lemma_credentials_round_trip(
    st: CredentialStoreModel,
    ssid: Seq<char>,
    password: Seq<char>,
)
    ensures
        spec_loaded(spec_saved(st, ssid, password).ssid) == ssid,
        spec_loaded(spec_saved(st, ssid, password).password) == password,
{
}

/// Reads the stored credentials, fail-open.
pub fn load_credentials(store: &CredentialStore) -> (r: (String, String))
    ensures
        r.0@ == spec_loaded(store@.ssid),
        r.1@ == spec_loaded(store@.password),
{
    let ssid = match &store.ssid {
        Some(s) => s.clone(),
        None => String::new(),
    };
    let password = match &store.password {
        Some(s) => s.clone(),
        None => String::new(),
    };
    (ssid, password)
}

/// Writes both credential entries.
pub fn save_credentials(store: &mut CredentialStore, ssid: &str, password: &str)
    ensures
        final(store)@ == spec_saved(old(store)@, ssid@, password@),
{
    store.ssid = Some(clone_str(ssid));
    store.password = Some(clone_str(password));
}

/// Copies a string slice into an owned string.
fn clone_str(s: &str) -> (r: String)
    ensures
        r@ == s@,
{
    String::from_str(s)
}

/// A fresh manager, holding the credentials loaded at startup.
pub fn init_wifi_manager(loaded_ssid: String, loaded_password: String) -> (m: WifiManager)
    ensures
        m@.state is Disconnected,
        m@.ssid == loaded_ssid@,
        m@.password == loaded_password@,
{
    WifiManager { state: WifiState::Disconnected, ssid: loaded_ssid, password: loaded_password }
}

/// Whether startup should immediately connect: exactly when a saved SSID was
/// loaded.
pub fn should_auto_connect(m: &WifiManager) -> (b: bool)
    ensures
        b == (m@.ssid.len() > 0),
{
    m.ssid.as_str().unicode_len() > 0
}

/// Both credentials fit the persisted entry size.
pub open spec fn spec_cred_ok(ssid: Seq<char>, password: Seq<char>) -> bool {
    encode_utf8(ssid).len() <= CREDENTIAL_MAX_BYTES && encode_utf8(password).len()
        <= CREDENTIAL_MAX_BYTES
}

/// The manager after a connect attempt was opened: the credentials are
/// recorded; an oversized SSID or password resolves to the error state at
/// once, before any radio work; otherwise the attempt is in flight.
pub open spec fn spec_start_connect(
    m: WifiManagerModel,
    ssid: Seq<char>,
    password: Seq<char>,
) -> WifiManagerModel {
    if encode_utf8(ssid).len() > CREDENTIAL_MAX_BYTES {
        WifiManagerModel { state: WifiStateModel::Error("SSID too long"@), ssid, password }
    } else if encode_utf8(password).len() > CREDENTIAL_MAX_BYTES {
        WifiManagerModel { state: WifiStateModel::Error("Password too long"@), ssid, password }
    } else {
        WifiManagerModel { state: WifiStateModel::Connecting, ssid, password }
    }
}

/// Opens a connect attempt. Returns whether the radio steps may proceed; when
/// they may not (oversized credentials or no manager), no radio call is due.
pub fn start_connect(s: &mut Singleton<WifiManager>, ssid: &str, password: &str) -> (proceed:
    bool)
    ensures
        old(s).is_init() ==> final(s).is_init() && final(s).state()@ == spec_start_connect(
            old(s).state()@,
            ssid@,
            password@,
        ),
        old(s).is_init() ==> proceed == spec_cred_ok(ssid@, password@),
        !old(s).is_init() ==> *final(s) == *old(s) && !proceed,
{
    match s.slot.take() {
        None => false,
        Some(mut m) => {
            m.ssid = clone_str(ssid);
            m.password = clone_str(password);
            let proceed: bool = if ssid.as_bytes().len() > CREDENTIAL_MAX_BYTES {
                m.state = WifiState::Error(clone_str("SSID too long"));
                false
            } else if password.as_bytes().len() > CREDENTIAL_MAX_BYTES {
                m.state = WifiState::Error(clone_str("Password too long"));
                false
            } else {
                m.state = WifiState::Connecting;
                true
            };
            s.slot = Some(m);
            proceed
        },
    }
}

/// What the radio steps of one connect attempt came to: either an address and
/// a signal strength, or the first failing step's message.
pub enum ConnectOutcome {
    /// Every step succeeded.
    Success { ip: [u8; 4], rssi: i8 },
    /// Some step failed, with its message.
    Failure(String),
}

/// The mathematical shadow of a `ConnectOutcome`.
#[verifier::ext_equal]
pub ghost enum ConnectOutcomeModel {
    Success { ip: [u8; 4], rssi: i8 },
    Failure(Seq<char>),
}

impl View for ConnectOutcome {
    type V = ConnectOutcomeModel;

    open spec fn view(&self) -> ConnectOutcomeModel {
        match self {
            ConnectOutcome::Success { ip, rssi } => ConnectOutcomeModel::Success {
                ip: *ip,
                rssi: *rssi,
            },
            ConnectOutcome::Failure(msg) => ConnectOutcomeModel::Failure(msg@),
        }
    }
}

/// The manager and the store after a connect attempt resolved: success is
/// recorded with the address and signal strength and persists the attempt's
/// credentials; failure is recorded as the error state and persists nothing.
pub open spec fn spec_connect_finish(
    m: WifiManagerModel,
    st: CredentialStoreModel,
    e: ConnectOutcomeModel,
) -> (WifiManagerModel, CredentialStoreModel) {
    match e {
        ConnectOutcomeModel::Success { ip, rssi } => (
            WifiManagerModel {
                state: WifiStateModel::Connected { ip, rssi },
                ssid: m.ssid,
                password: m.password,
            },
            spec_saved(st, m.ssid, m.password),
        ),
        ConnectOutcomeModel::Failure(msg) => (
            WifiManagerModel {
                state: WifiStateModel::Error(msg),
                ssid: m.ssid,
                password: m.password,
            },
            st,
        ),
    }
}

/// Resolves a connect attempt with the radio steps' outcome. Returns whether
/// the attempt succeeded.
pub fn connect_finish(
    s: &mut Singleton<WifiManager>,
    store: &mut CredentialStore,
    outcome: ConnectOutcome,
) -> (ok: bool)
    ensures
        old(s).is_init() ==> final(s).is_init() && (
        final(s).state()@,
        final(store)@,
        ) == spec_connect_finish(old(s).state()@, old(store)@, outcome@),
        !old(s).is_init() ==> *final(s) == *old(s) && *final(store) == *old(store),
        ok == (outcome is Success),
{
    match s.slot.take() {
        None => {
            match outcome {
                ConnectOutcome::Success { .. } => true,
                ConnectOutcome::Failure(_) => false,
            }
        },
        Some(mut m) => {
            let ok: bool = match outcome {
                ConnectOutcome::Success { ip, rssi } => {
                    m.state = WifiState::Connected { ip, rssi };
                    let ssid = m.ssid.clone();
                    let password = m.password.clone();
                    save_credentials(store, ssid.as_str(), password.as_str());
                    true
                },
                ConnectOutcome::Failure(msg) => {
                    m.state = WifiState::Error(msg);
                    false
                },
            };
            s.slot = Some(m);
            ok
        },
    }
}

/// A connect attempt always resolves before control returns: whatever state
/// it starts from and however the radio steps end, the state afterwards is
/// either connected or the error state — an attempt that may not proceed has
/// already resolved to the error state, and one that proceeds resolves by its
/// outcome. No in-flight state lingers.
pub proof fn lemma_connect_resolves(
    m: WifiManagerModel,
    st: CredentialStoreModel,
    ssid: Seq<char>,
    password: Seq<char>,
    e: ConnectOutcomeModel,
)
    ensures
        ({
            let opened = spec_start_connect(m, ssid, password);
            let resolved = if spec_cred_ok(ssid, password) {
                spec_connect_finish(opened, st, e).0
            } else {
                opened
            };
            resolved.state is Connected || resolved.state is Error
        }),
{
}

/// Credentials are persisted exactly by a successful connect: resolving an
/// attempt writes the attempt's credentials to the store on success and
/// leaves the store exactly as it was on failure.
pub proof fn lemma_persist_only_on_success(
    m: WifiManagerModel,
    st: CredentialStoreModel,
    e: ConnectOutcomeModel,
)
    ensures
        e is Success ==> spec_connect_finish(m, st, e).1 == spec_saved(st, m.ssid, m.password),
        e is Failure ==> spec_connect_finish(m, st, e).1 == st,
{
}

/// Reads the current state as an owned snapshot.
pub fn get_state(s: &Singleton<WifiManager>) -> (st: WifiState)
    ensures
        s.is_init() ==> st@ == s.state()@.state,
        !s.is_init() ==> st@ is Uninitialized,
{
    match &s.slot {
        None => WifiState::Uninitialized,
        Some(m) => match &m.state {
            WifiState::Uninitialized => WifiState::Uninitialized,
            WifiState::Disconnected => WifiState::Disconnected,
            WifiState::Connecting => WifiState::Connecting,
            WifiState::Connected { ip, rssi } => WifiState::Connected { ip: *ip, rssi: *rssi },
            WifiState::Error(msg) => WifiState::Error(msg.clone()),
        },
    }
}

/// A status snapshot handed across the foreign-call boundary.
pub struct WifiStatus {
    /// 0 uninitialized, 1 disconnected, 2 connecting, 3 connected, 4 error.
    pub state: i32,
    /// Address bytes; meaningful only when connected.
    pub ip: [u8; 4],
    /// Signal strength in dBm; 0 when not connected.
    pub rssi: i8,
}

/// The status code of a connection state.
pub open spec fn spec_state_code(st: WifiStateModel) -> int {
    match st {
        WifiStateModel::Uninitialized => 0,
        WifiStateModel::Disconnected => 1,
        WifiStateModel::Connecting => 2,
        WifiStateModel::Connected { .. } => 3,
        WifiStateModel::Error(_) => 4,
    }
}

/// The state observed through the holder: the held manager's state, or
/// uninitialized while the holder is empty.
pub open spec fn spec_observed_state(s: Singleton<WifiManager>) -> WifiStateModel {
    if s.is_init() {
        s.state()@.state
    } else {
        WifiStateModel::Uninitialized
    }
}

/// Fills a status snapshot: one whole value copied out of the one current
/// state, so its fields can never mix two different states.
pub fn wifi_get_status(s: &Singleton<WifiManager>) -> (st: WifiStatus)
    ensures
        st.state == spec_state_code(spec_observed_state(*s)),
        spec_observed_state(*s) matches WifiStateModel::Connected { ip, rssi } ==> st.ip == ip
            && st.rssi == rssi,
        !(spec_observed_state(*s) is Connected) ==> st.ip == [0u8, 0u8, 0u8, 0u8] && st.rssi == 0,
{
    match &s.slot {
        None => WifiStatus { state: 0, ip: [0u8, 0u8, 0u8, 0u8], rssi: 0 },
        Some(m) => match &m.state {
            WifiState::Uninitialized => WifiStatus { state: 0, ip: [0u8, 0u8, 0u8, 0u8], rssi: 0 },
            WifiState::Disconnected => WifiStatus { state: 1, ip: [0u8, 0u8, 0u8, 0u8], rssi: 0 },
            WifiState::Connecting => WifiStatus { state: 2, ip: [0u8, 0u8, 0u8, 0u8], rssi: 0 },
            WifiState::Connected { ip, rssi } => WifiStatus { state: 3, ip: *ip, rssi: *rssi },
            WifiState::Error(_) => WifiStatus { state: 4, ip: [0u8, 0u8, 0u8, 0u8], rssi: 0 },
        },
    }
}

/// Records the driver's answer to a disconnect request: on success the state
/// becomes disconnected; on failure the state is left exactly as it was and
/// the failure is only reported to the caller. Returns 0 on success, -1 on
/// failure or while uninitialized.
pub fn wifi_disconnect(s: &mut Singleton<WifiManager>, radio_ok: bool) -> (r: i32)
    ensures
        !old(s).is_init() ==> *final(s) == *old(s) && r == -1,
        old(s).is_init() && radio_ok ==> final(s).is_init() && final(s).state()@
            == (WifiManagerModel {
            state: WifiStateModel::Disconnected,
            ..old(s).state()@
        }) && r == 0,
        old(s).is_init() && !radio_ok ==> *final(s) == *old(s) && r == -1,
{
    match s.slot.take() {
        None => -1,
        Some(mut m) => {
            let r: i32 = if radio_ok {
                m.state = WifiState::Disconnected;
                0
            } else {
                -1
            };
            s.slot = Some(m);
            r
        },
    }
}

/// Whether the state is connected: 1 when it is, 0 otherwise.
pub fn wifi_is_connected(s: &Singleton<WifiManager>) -> (r: i32)
    ensures
        r == 1 <==> spec_observed_state(*s) is Connected,
        r == 0 <==> !(spec_observed_state(*s) is Connected),
{
    match &s.slot {
        Some(m) => match &m.state {
            WifiState::Connected { .. } => 1,
            _ => 0,
        },
        None => 0,
    }
}

/// The cached signal strength of the connected state, or 0 when not
/// connected.
pub fn wifi_get_rssi(s: &Singleton<WifiManager>) -> (r: i8)
    ensures
        spec_observed_state(*s) matches WifiStateModel::Connected { rssi, .. } ==> r == rssi,
        !(spec_observed_state(*s) is Connected) ==> r == 0,
{
    match &s.slot {
        Some(m) => match &m.state {
            WifiState::Connected { rssi, .. } => *rssi,
            _ => 0,
        },
        None => 0,
    }
}

/// The current SSID, or the empty string while uninitialized or while no SSID
/// is recorded.
pub fn wifi_get_ssid(s: &Singleton<WifiManager>) -> (r: String)
    ensures
        s.is_init() ==> r@ == s.state()@.ssid,
        !s.is_init() ==> r@.len() == 0,
{
    match &s.slot {
        Some(m) => m.ssid.clone(),
        None => String::new(),
    }
}

/// The authentication mode of a scanned network, as the library's own kind;
/// the embedding application converts the radio's value variant by variant.
pub enum AuthKind {
    /// No authentication.
    Open,
    /// WEP.
    Wep,
    /// WPA.
    Wpa,
    /// WPA2 personal.
    Wpa2Personal,
    /// WPA2 with enterprise authentication.
    Wpa2Enterprise,
    /// WPA3 personal.
    Wpa3Personal,
    /// Any mode the mapping does not recognize.
    Other,
}

/// One network as the radio's scan reported it.
pub struct ScanNetwork {
    /// Network name.
    pub ssid: String,
    /// Signal strength in dBm.
    pub rssi: i8,
    /// Authentication mode.
    pub auth: AuthKind,
}

/// One scan entry handed across the foreign-call boundary.
pub struct WifiScanResult {
    /// Network name.
    pub ssid: String,
    /// Signal strength in dBm.
    pub rssi: i8,
    /// 0 open, 1 WEP, 2 WPA, 3 WPA2, 4 WPA3; unrecognized modes read as WPA2.
    pub auth_mode: u8,
}

/// The numeric code of an authentication mode; an unrecognized mode defaults
/// to the WPA2 code.
pub open spec fn spec_auth_code(a: AuthKind) -> u8 {
    match a {
        AuthKind::Open => 0,
        AuthKind::Wep => 1,
        AuthKind::Wpa => 2,
        AuthKind::Wpa2Personal => 3,
        AuthKind::Wpa2Enterprise => 3,
        AuthKind::Wpa3Personal => 4,
        AuthKind::Other => 3,
    }
}

/// Maps one authentication mode to its code.
pub fn auth_mode_code(a: &AuthKind) -> (c: u8)
    ensures
        c == spec_auth_code(*a),
{
    match a {
        AuthKind::Open => 0,
        AuthKind::Wep => 1,
        AuthKind::Wpa => 2,
        AuthKind::Wpa2Personal => 3,
        AuthKind::Wpa2Enterprise => 3,
        AuthKind::Wpa3Personal => 4,
        AuthKind::Other => 3,
    }
}

/// Turns the radio's raw scan list into result entries: the first
/// `max_results` networks in the order the radio reported them — no
/// re-sorting, no deduplication — each with its authentication mode coded.
pub fn wifi_scan(networks: &Vec<ScanNetwork>, max_results: usize) -> (out: Vec<WifiScanResult>)
    ensures
        out@.len() == if networks@.len() < max_results {
            networks@.len()
        } else {
            max_results as nat
        },
        forall|i: int|
            0 <= i < out@.len() ==> (#[trigger] out@[i]).ssid@ == networks@[i].ssid@
                && out@[i].rssi == networks@[i].rssi && out@[i].auth_mode == spec_auth_code(
                networks@[i].auth,
            ),
{
    let count: usize = if networks.len() < max_results {
        networks.len()
    } else {
        max_results
    };
    let mut out: Vec<WifiScanResult> = Vec::new();
    let mut i: usize = 0;
    while i < count
        invariant
            i <= count,
            count <= networks@.len(),
            out@.len() == i,
            forall|j: int|
                0 <= j < i ==> (#[trigger] out@[j]).ssid@ == networks@[j].ssid@
                    && out@[j].rssi == networks@[j].rssi && out@[j].auth_mode == spec_auth_code(
                    networks@[j].auth,
                ),
        decreases count - i,
    {
        let net = &networks[i];
        let entry = WifiScanResult {
            ssid: net.ssid.clone(),
            rssi: net.rssi,
            auth_mode: auth_mode_code(&net.auth),
        };
        out.push(entry);
        i = i + 1;
    }
    out
}

/// The signal strength taken from the first scan entry after connecting, or a
/// moderate default when the scan gave nothing.
pub fn rssi_from_scan(first: Option<i8>) -> (r: i8)
    ensures
        r == match first {
            Some(v) => v,
            None => -50i8,
        },
{
    match first {
        Some(v) => v,
        None => -50,
    }
}

} // verus!
