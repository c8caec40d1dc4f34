//! The NFC manager: card-presence state over a debounced poll loop.
//!
//! The card driver itself (field control, card activation) lives outside this
//! crate; the manager decides when hardware work is due, records what each
//! operation came to, and hands out status snapshots. Real hardware work
//! happens only on every tenth poll call, and the cached card data outlives
//! the card's presence exactly as far as the transition rules say.

use vstd::prelude::*;
use crate::singleton::Singleton;
use crate::text::push_char;

verus! {

/// Card type code: nothing recognized.
pub const CARD_TYPE_UNKNOWN: u8 = 0;

/// Card type code: an NTAG family tag.
pub const CARD_TYPE_NTAG: u8 = 1;

/// Card type code: MIFARE Classic 1K.
pub const CARD_TYPE_MIFARE_1K: u8 = 2;

/// Card type code: MIFARE Classic 4K.
pub const CARD_TYPE_MIFARE_4K: u8 = 3;

/// A value-copied snapshot of one detected card.
#[derive(Clone, Copy)]
pub struct CardInfo {
    /// UID bytes; only the first `uid_len` are meaningful.
    pub uid: [u8; 10],
    /// UID length: 4, 7 or 10.
    pub uid_len: u8,
    /// Answer-to-request bytes.
    pub atqa: [u8; 2],
    /// Select-acknowledge byte.
    pub sak: u8,
    /// One of the card type codes.
    pub card_type: u8,
}

/// A card snapshot carries one of the three valid UID lengths.
pub open spec fn card_wf(c: CardInfo) -> bool {
    c.uid_len == 4 || c.uid_len == 7 || c.uid_len == 10
}

/// The classification priority: NTAG wins over MIFARE Classic 1K, which wins
/// over MIFARE Classic 4K; anything else is unknown.
pub open spec fn spec_classify(is_ntag: bool, is_mifare_1k: bool, is_mifare_4k: bool) -> u8 {
    if is_ntag {
        CARD_TYPE_NTAG
    } else if is_mifare_1k {
        CARD_TYPE_MIFARE_1K
    } else if is_mifare_4k {
        CARD_TYPE_MIFARE_4K
    } else {
        CARD_TYPE_UNKNOWN
    }
}

/// Classifies a card from its capability predicates, first match winning: a
/// card satisfying both the NTAG and a MIFARE predicate classifies as NTAG.
pub fn classify_card(is_ntag: bool, is_mifare_1k: bool, is_mifare_4k: bool) -> (t: u8)
    ensures
        t == spec_classify(is_ntag, is_mifare_1k, is_mifare_4k),
        is_ntag ==> t == CARD_TYPE_NTAG,
{
    if is_ntag {
        CARD_TYPE_NTAG
    } else if is_mifare_1k {
        CARD_TYPE_MIFARE_1K
    } else if is_mifare_4k {
        CARD_TYPE_MIFARE_4K
    } else {
        CARD_TYPE_UNKNOWN
    }
}

/// Builds a card snapshot from the activation fields and the capability
/// predicates the driver's card object answers.
pub fn card_info_from_parts(
    uid: [u8; 10],
    uid_len: u8,
    atqa: [u8; 2],
    sak: u8,
    is_ntag: bool,
    is_mifare_1k: bool,
    is_mifare_4k: bool,
) -> (c: CardInfo)
    requires
        uid_len == 4 || uid_len == 7 || uid_len == 10,
    ensures
        c.uid == uid,
        c.uid_len == uid_len,
        c.atqa == atqa,
        c.sak == sak,
        c.card_type == spec_classify(is_ntag, is_mifare_1k, is_mifare_4k),
        card_wf(c),
{
    CardInfo {
        uid,
        uid_len,
        atqa,
        sak,
        card_type: classify_card(is_ntag, is_mifare_1k, is_mifare_4k),
    }
}

/// The manager state: presence flags, the cached card, and the poll counter.
pub struct NfcManagerState {
    /// Whether the driver reported a completed initialization.
    pub initialized: bool,
    /// The driver's firmware version as (major, minor, patch).
    pub firmware_version: (u8, u8, u8),
    /// The last card seen; survives removal and driver errors.
    pub last_card: Option<CardInfo>,
    /// Whether the RF field is on.
    pub rf_on: bool,
    /// Whether a card is currently present.
    pub card_present: bool,
    /// Monotonic poll counter; wraps at the integer boundary.
    pub poll_count: u32,
}

/// A status snapshot handed across the foreign-call boundary.
pub struct NfcStatus {
    /// Whether the manager holds an initialized driver state.
    pub initialized: bool,
    /// Whether the RF field is on.
    pub rf_on: bool,
    /// Whether a card is currently present.
    pub card_present: bool,
    /// Firmware major version.
    pub firmware_major: u8,
    /// Firmware minor version.
    pub firmware_minor: u8,
    /// Firmware patch version.
    pub firmware_patch: u8,
}

/// Moves a fresh manager state into the holder, replacing any prior one:
/// no card seen, field off, counter at zero.
pub fn init_nfc_manager(
    s: &mut Singleton<NfcManagerState>,
    initialized: bool,
    firmware_version: (u8, u8, u8),
)
    ensures
        final(s).is_init(),
        final(s).state() == (NfcManagerState {
            initialized,
            firmware_version,
            last_card: None,
            rf_on: false,
            card_present: false,
            poll_count: 0,
        }),
{
    s.init(
        NfcManagerState {
            initialized,
            firmware_version,
            last_card: None,
            rf_on: false,
            card_present: false,
            poll_count: 0,
        },
    );
}

/// What one poll call asks the hardware to do.
pub enum NfcAction {
    /// Nothing: the call was debounced away.
    Idle,
    /// Enable the RF field, and poll for a card once that succeeded.
    EnableRf,
    /// Poll for a card; the field is already on.
    PollCard,
}

/// The poll counter advanced by one, wrapping.
pub open spec fn spec_wrap_inc(c: u32) -> u32 {
    if c == u32::MAX {
        0
    } else {
        (c + 1) as u32
    }
}

/// One poll call: the counter always advances; hardware work is due only when
/// the advanced counter is a multiple of the poll interval, and enabling the
/// field is requested only while it is off — an already-enabled field is
/// never enabled again.
pub open spec fn spec_poll_step(m: NfcManagerState) -> (NfcManagerState, NfcAction) {
    let m1 = NfcManagerState {
        initialized: m.initialized,
        firmware_version: m.firmware_version,
        last_card: m.last_card,
        rf_on: m.rf_on,
        card_present: m.card_present,
        poll_count: spec_wrap_inc(m.poll_count),
    };
    if spec_wrap_inc(m.poll_count) % crate::NFC_POLL_INTERVAL != 0 {
        (m1, NfcAction::Idle)
    } else if !m.rf_on {
        (m1, NfcAction::EnableRf)
    } else {
        (m1, NfcAction::PollCard)
    }
}

/// Advances the poll cycle and says what hardware work is due. With an empty
/// holder nothing changes and nothing is due.
pub fn poll_nfc(s: &mut Singleton<NfcManagerState>) -> (action: NfcAction)
    ensures
        !old(s).is_init() ==> *final(s) == *old(s) && action is Idle,
        old(s).is_init() ==> final(s).is_init() && (final(s).state(), action) == spec_poll_step(
            old(s).state(),
        ),
{
    match s.slot.take() {
        None => NfcAction::Idle,
        Some(mut m) => {
            m.poll_count = if m.poll_count == u32::MAX {
                0
            } else {
                m.poll_count + 1
            };
            let action: NfcAction = if m.poll_count % crate::NFC_POLL_INTERVAL != 0 {
                NfcAction::Idle
            } else if !m.rf_on {
                NfcAction::EnableRf
            } else {
                NfcAction::PollCard
            };
            s.slot = Some(m);
            action
        },
    }
}

/// Enabling the RF field when it is already enabled is idempotent: a poll
/// cycle over a state whose field is on never requests another enable.
pub proof fn lemma_rf_enable_idempotent(m: NfcManagerState)
    requires
        m.rf_on,
    ensures
        !(spec_poll_step(m).1 is EnableRf),
        spec_poll_step(m).0.rf_on,
{
}

/// The state after `n` poll calls in a row.
pub open spec fn spec_poll_iter(m: NfcManagerState, n: nat) -> NfcManagerState
    decreases n,
{
    if n == 0 {
        m
    } else {
        spec_poll_step(spec_poll_iter(m, (n - 1) as nat)).0
    }
}

/// Poll calls only advance the counter.
proof fn lemma_poll_iter_count(m: NfcManagerState, n: nat)
    requires
        m.poll_count + n <= u32::MAX,
    ensures
        spec_poll_iter(m, n).poll_count == m.poll_count + n,
        spec_poll_iter(m, n).rf_on == m.rf_on,
    decreases n,
{
    if n > 0 {
        lemma_poll_iter_count(m, (n - 1) as nat);
    }
}

/// The poll debounce cadence: starting from a counter at a multiple of the
/// poll interval, the next nine calls ask for no hardware work at all, and
/// the tenth asks for exactly one operation. (Stated below the counter's wrap
/// boundary; the interval does not divide the wrap modulus, so a sequence
/// that wraps restarts its cadence.)
pub proof fn lemma_poll_debounce(m: NfcManagerState, k: nat)
    requires
        m.poll_count % crate::NFC_POLL_INTERVAL as u32 == 0,
        m.poll_count + crate::NFC_POLL_INTERVAL <= u32::MAX,
        1 <= k <= crate::NFC_POLL_INTERVAL,
    ensures
        k < crate::NFC_POLL_INTERVAL ==> spec_poll_step(spec_poll_iter(m, (k - 1) as nat)).1
            is Idle,
        k == crate::NFC_POLL_INTERVAL ==> !(spec_poll_step(
            spec_poll_iter(m, (k - 1) as nat),
        ).1 is Idle),
{
    lemma_poll_iter_count(m, (k - 1) as nat);
    let prev = spec_poll_iter(m, (k - 1) as nat);
    let n = crate::NFC_POLL_INTERVAL as int;
    assert(prev.poll_count < u32::MAX);
    assert(spec_wrap_inc(prev.poll_count) == m.poll_count + k);
    vstd::arithmetic::div_mod::lemma_add_mod_noop(m.poll_count as int, k as int, n);
    if k < crate::NFC_POLL_INTERVAL {
        vstd::arithmetic::div_mod::lemma_small_mod(k, crate::NFC_POLL_INTERVAL as nat);
        assert((m.poll_count + k) % n == k);
    } else {
        assert((m.poll_count + k) % n == 0);
    }
}

/// What one card-activation attempt came to.
pub enum NfcCardEvent {
    /// A card answered; its snapshot.
    Detected(CardInfo),
    /// No card answered.
    NoCard,
    /// The driver timed out, which is normal while no card is present.
    Timeout,
    /// The driver failed some other way.
    Failed,
}

/// The presence transition a card event caused, for the caller's event log.
pub enum PresenceChange {
    /// A card appeared where none was present.
    Appeared,
    /// The present card went away.
    Removed,
    /// No transition worth reporting.
    Unchanged,
}

/// A card event applied to the state: a detection caches the card and sets
/// presence; every other outcome clears presence but leaves the cached card
/// untouched, so stale card data survives removal and driver errors alike.
pub open spec fn spec_card_event(m: NfcManagerState, e: NfcCardEvent) -> NfcManagerState {
    match e {
        NfcCardEvent::Detected(c) => NfcManagerState {
            initialized: m.initialized,
            firmware_version: m.firmware_version,
            last_card: Some(c),
            rf_on: m.rf_on,
            card_present: true,
            poll_count: m.poll_count,
        },
        _ => NfcManagerState {
            initialized: m.initialized,
            firmware_version: m.firmware_version,
            last_card: m.last_card,
            rf_on: m.rf_on,
            card_present: false,
            poll_count: m.poll_count,
        },
    }
}

/// The presence transition a card event causes: an appearance is reported on
/// a detection without prior presence; a removal only on a definite
/// no-card answer with prior presence, never on a timeout or failure.
pub open spec fn spec_presence_change(m: NfcManagerState, e: NfcCardEvent) -> PresenceChange {
    match e {
        NfcCardEvent::Detected(_) => if !m.card_present {
            PresenceChange::Appeared
        } else {
            PresenceChange::Unchanged
        },
        NfcCardEvent::NoCard => if m.card_present {
            PresenceChange::Removed
        } else {
            PresenceChange::Unchanged
        },
        _ => PresenceChange::Unchanged,
    }
}

/// Records the outcome of the RF-field enable. Returns whether the poll cycle
/// may go on to card activation.
pub fn nfc_rf_enabled(s: &mut Singleton<NfcManagerState>, ok: bool) -> (proceed: bool)
    ensures
        !old(s).is_init() ==> *final(s) == *old(s) && !proceed,
        old(s).is_init() && ok ==> final(s).is_init() && final(s).state() == (NfcManagerState {
            rf_on: true,
            ..old(s).state()
        }) && proceed,
        old(s).is_init() && !ok ==> *final(s) == *old(s) && !proceed,
{
    match s.slot.take() {
        None => false,
        Some(mut m) => {
            if ok {
                m.rf_on = true;
            }
            s.slot = Some(m);
            ok
        },
    }
}

/// Records the outcome of one card-activation attempt and reports the
/// presence transition it caused.
pub fn nfc_card_event(s: &mut Singleton<NfcManagerState>, e: NfcCardEvent) -> (change:
    PresenceChange)
    ensures
        !old(s).is_init() ==> *final(s) == *old(s) && change is Unchanged,
        old(s).is_init() ==> final(s).is_init() && final(s).state() == spec_card_event(
            old(s).state(),
            e,
        ) && change == spec_presence_change(old(s).state(), e),
{
    match s.slot.take() {
        None => PresenceChange::Unchanged,
        Some(mut m) => {
            let change: PresenceChange = match e {
                NfcCardEvent::Detected(c) => {
                    let change: PresenceChange = if !m.card_present {
                        PresenceChange::Appeared
                    } else {
                        PresenceChange::Unchanged
                    };
                    m.card_present = true;
                    m.last_card = Some(c);
                    change
                },
                NfcCardEvent::NoCard => {
                    let change: PresenceChange = if m.card_present {
                        PresenceChange::Removed
                    } else {
                        PresenceChange::Unchanged
                    };
                    m.card_present = false;
                    change
                },
                _ => {
                    m.card_present = false;
                    PresenceChange::Unchanged
                },
            };
            s.slot = Some(m);
            change
        },
    }
}

/// Fills a status snapshot: one whole value copied out of the one current
/// state, so its fields can never mix two different states; an empty holder
/// reads as all-off defaults.
pub fn nfc_get_status(s: &Singleton<NfcManagerState>) -> (st: NfcStatus)
    ensures
        s.is_init() ==> st == (NfcStatus {
            initialized: s.state().initialized,
            rf_on: s.state().rf_on,
            card_present: s.state().card_present,
            firmware_major: s.state().firmware_version.0,
            firmware_minor: s.state().firmware_version.1,
            firmware_patch: s.state().firmware_version.2,
        }),
        !s.is_init() ==> st == (NfcStatus {
            initialized: false,
            rf_on: false,
            card_present: false,
            firmware_major: 0,
            firmware_minor: 0,
            firmware_patch: 0,
        }),
{
    match &s.slot {
        Some(m) => NfcStatus {
            initialized: m.initialized,
            rf_on: m.rf_on,
            card_present: m.card_present,
            firmware_major: m.firmware_version.0,
            firmware_minor: m.firmware_version.1,
            firmware_patch: m.firmware_version.2,
        },
        None => NfcStatus {
            initialized: false,
            rf_on: false,
            card_present: false,
            firmware_major: 0,
            firmware_minor: 0,
            firmware_patch: 0,
        },
    }
}

/// One hex digit, uppercase.
pub open spec fn spec_hex_digit(n: u8) -> char {
    if n == 0 {
        '0'
    } else if n == 1 {
        '1'
    } else if n == 2 {
        '2'
    } else if n == 3 {
        '3'
    } else if n == 4 {
        '4'
    } else if n == 5 {
        '5'
    } else if n == 6 {
        '6'
    } else if n == 7 {
        '7'
    } else if n == 8 {
        '8'
    } else if n == 9 {
        '9'
    } else if n == 10 {
        'A'
    } else if n == 11 {
        'B'
    } else if n == 12 {
        'C'
    } else if n == 13 {
        'D'
    } else if n == 14 {
        'E'
    } else {
        'F'
    }
}

/// Computes one hex digit.
fn hex_digit(n: u8) -> (c: char)
    requires
        n < 16,
    ensures
        c == spec_hex_digit(n),
{
    if n == 0 {
        '0'
    } else if n == 1 {
        '1'
    } else if n == 2 {
        '2'
    } else if n == 3 {
        '3'
    } else if n == 4 {
        '4'
    } else if n == 5 {
        '5'
    } else if n == 6 {
        '6'
    } else if n == 7 {
        '7'
    } else if n == 8 {
        '8'
    } else if n == 9 {
        '9'
    } else if n == 10 {
        'A'
    } else if n == 11 {
        'B'
    } else if n == 12 {
        'C'
    } else if n == 13 {
        'D'
    } else if n == 14 {
        'E'
    } else {
        'F'
    }
}

/// Bytes as uppercase hex pairs joined by colons.
pub open spec fn spec_colon_hex(bytes: Seq<u8>) -> Seq<char>
    decreases bytes.len(),
{
    if bytes.len() == 0 {
        Seq::empty()
    } else if bytes.len() == 1 {
        seq![spec_hex_digit(bytes[0] / 16), spec_hex_digit(bytes[0] % 16)]
    } else {
        spec_colon_hex(bytes.drop_last()) + seq![
            ':',
            spec_hex_digit(bytes.last() / 16),
            spec_hex_digit(bytes.last() % 16),
        ]
    }
}

/// Formats a card's UID as colon-separated uppercase hex pairs.
pub fn uid_hex_string(card: &CardInfo) -> (r: String)
    requires
        card.uid_len <= 10,
    ensures
        r@ == spec_colon_hex(card.uid@.take(card.uid_len as int)),
{
    let n = card.uid_len as usize;
    let mut out = String::new();
    let mut i: usize = 0;
    while i < n
        invariant
            i <= n,
            n <= 10,
            n == card.uid_len,
            out@ == spec_colon_hex(card.uid@.take(i as int)),
        decreases n - i,
    {
        if i > 0 {
            push_char(&mut out, ':');
        }
        let b = card.uid[i];
        push_char(&mut out, hex_digit(b / 16));
        push_char(&mut out, hex_digit(b % 16));
        i = i + 1;
        proof {
            let taken = card.uid@.take(i as int);
            assert(taken.drop_last() =~= card.uid@.take(i - 1));
            assert(taken.last() == card.uid@[i - 1]);
            assert(out@ =~= spec_colon_hex(taken));
        }
    }
    assert(card.uid@.take(n as int) == card.uid@.take(card.uid_len as int));
    out
}

/// The space a formatted UID needs: two digits per byte plus the separating
/// colons.
pub open spec fn spec_uid_hex_needed(len: int) -> int {
    if len > 0 {
        2 * len + (len - 1)
    } else {
        0
    }
}

/// Formats the cached card's UID when it fits a buffer of the given capacity:
/// the empty string while the holder is empty, no card was cached, the
/// capacity is under three, the formatted text would not fit, or the cached
/// length is out of range.
pub fn nfc_get_uid_hex(s: &Singleton<NfcManagerState>, buf_len: usize) -> (r: String)
    ensures
        ({
            let fits = s.is_init() && buf_len >= 3 && match s.state().last_card {
                Some(c) => c.uid_len <= 10 && spec_uid_hex_needed(c.uid_len as int) <= buf_len,
                None => false,
            };
            if fits {
                r@ == spec_colon_hex(
                    s.state().last_card->0.uid@.take(s.state().last_card->0.uid_len as int),
                )
            } else {
                r@.len() == 0
            }
        }),
{
    if buf_len < 3 {
        return String::new();
    }
    match &s.slot {
        None => String::new(),
        Some(m) => match &m.last_card {
            None => String::new(),
            Some(c) => {
                if c.uid_len > 10 {
                    return String::new();
                }
                let ul = c.uid_len as usize;
                let needed: usize = if ul > 0 {
                    ul * 2 + (ul - 1)
                } else {
                    0
                };
                if needed > buf_len {
                    return String::new();
                }
                uid_hex_string(c)
            },
        },
    }
}

/// Whether the manager holds an initialized driver state.
pub fn nfc_is_initialized(s: &Singleton<NfcManagerState>) -> (r: bool)
    ensures
        r == (s.is_init() && s.state().initialized),
{
    match &s.slot {
        Some(m) => m.initialized,
        None => false,
    }
}

/// Whether a card is currently present.
pub fn nfc_card_present(s: &Singleton<NfcManagerState>) -> (r: bool)
    ensures
        r == (s.is_init() && s.state().card_present),
{
    match &s.slot {
        Some(m) => m.card_present,
        None => false,
    }
}

/// The cached card snapshot, present or stale; nothing while no card was ever
/// cached or the holder is empty.
pub fn nfc_get_card_info(s: &Singleton<NfcManagerState>) -> (r: Option<CardInfo>)
    ensures
        s.is_init() ==> r == s.state().last_card,
        !s.is_init() ==> r is None,
{
    match &s.slot {
        Some(m) => m.last_card,
        None => None,
    }
}

/// The driver's firmware version, or all zeroes while the holder is empty.
pub fn nfc_get_firmware_version(s: &Singleton<NfcManagerState>) -> (r: (u8, u8, u8))
    ensures
        s.is_init() ==> r == s.state().firmware_version,
        !s.is_init() ==> r == (0u8, 0u8, 0u8),
{
    match &s.slot {
        Some(m) => m.firmware_version,
        None => (0, 0, 0),
    }
}

} // verus!
