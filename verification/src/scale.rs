//! The scale manager: calibration state and weight snapshots.
//!
//! The load-cell chip driver (register programming, conversion arithmetic)
//! lives outside this crate; weights cross the boundary as integer
//! milligrams, and the calibration factor as parts per thousand. The manager
//! records what each driver operation came to and hands out status snapshots.

use vstd::prelude::*;
use crate::singleton::Singleton;

verus! {

/// The calibration pair the driver derives and the manager keeps.
#[derive(Clone, Copy)]
pub struct ScaleCalibration {
    /// Raw reading captured as the zero point.
    pub zero_offset: i32,
    /// Conversion factor from raw counts to weight, in parts per thousand.
    pub cal_factor_milli: i32,
}

/// The manager state for the scale.
#[derive(Clone, Copy)]
pub struct ScaleState {
    /// Whether the driver reported a completed initialization.
    pub initialized: bool,
    /// The last raw converter reading.
    pub last_raw: i32,
    /// The last converted weight, in milligrams.
    pub weight_milligrams: i32,
    /// Whether the reading was stable.
    pub stable: bool,
    /// Current calibration.
    pub calibration: ScaleCalibration,
}

/// What one driver weight read yields.
#[derive(Clone, Copy)]
pub struct ScaleReading {
    /// Raw converter reading.
    pub raw: i32,
    /// Converted weight, in milligrams.
    pub weight_milligrams: i32,
    /// Whether the reading was stable.
    pub stable: bool,
}

/// A status snapshot handed across the foreign-call boundary.
pub struct ScaleStatus {
    /// Whether the scale was initialized.
    pub initialized: bool,
    /// Last converted weight, in milligrams.
    pub weight_milligrams: i32,
    /// Last raw converter reading.
    pub raw_value: i32,
    /// Whether the reading was stable.
    pub stable: bool,
    /// Raw reading captured as the zero point.
    pub tare_offset: i32,
    /// Conversion factor, in parts per thousand.
    pub cal_factor_milli: i32,
}

/// Moves a driver state into the holder, replacing any prior one.
pub fn init_scale_manager(s: &mut Singleton<ScaleState>, state: ScaleState)
    ensures
        final(s).is_init(),
        final(s).state() == state,
{
    s.init(state);
}

/// Whether a poll should read the driver at all: only an initialized manager
/// polls hardware.
pub fn scale_ready(s: &Singleton<ScaleState>) -> (r: bool)
    ensures
        r == (s.is_init() && s.state().initialized),
{
    match &s.slot {
        Some(m) => m.initialized,
        None => false,
    }
}

/// One poll outcome applied to the state: a successful read updates the raw
/// value, the weight and the stability flag; a failed read changes nothing.
pub open spec fn spec_poll_scale(m: ScaleState, reading: Option<ScaleReading>) -> ScaleState {
    if m.initialized {
        match reading {
            Some(rd) => ScaleState {
                initialized: m.initialized,
                last_raw: rd.raw,
                weight_milligrams: rd.weight_milligrams,
                stable: rd.stable,
                calibration: m.calibration,
            },
            None => m,
        }
    } else {
        m
    }
}

/// Records one poll's outcome; a read error is treated as no data, never
/// surfaced as an error.
pub fn poll_scale(s: &mut Singleton<ScaleState>, reading: Option<ScaleReading>)
    ensures
        !old(s).is_init() ==> *final(s) == *old(s),
        old(s).is_init() ==> final(s).is_init() && final(s).state() == spec_poll_scale(
            old(s).state(),
            reading,
        ),
{
    match s.slot.take() {
        None => {
        },
        Some(mut m) => {
            if m.initialized {
                match reading {
                    Some(rd) => {
                        m.last_raw = rd.raw;
                        m.weight_milligrams = rd.weight_milligrams;
                        m.stable = rd.stable;
                    },
                    None => {
                    },
                }
            }
            s.slot = Some(m);
        },
    }
}

/// Fills a status snapshot: one whole value copied out of the one current
/// state; an empty holder reads as zeroed defaults with a unit conversion
/// factor.
pub fn scale_get_status(s: &Singleton<ScaleState>) -> (st: ScaleStatus)
    ensures
        s.is_init() ==> st == (ScaleStatus {
            initialized: s.state().initialized,
            weight_milligrams: s.state().weight_milligrams,
            raw_value: s.state().last_raw,
            stable: s.state().stable,
            tare_offset: s.state().calibration.zero_offset,
            cal_factor_milli: s.state().calibration.cal_factor_milli,
        }),
        !s.is_init() ==> st == (ScaleStatus {
            initialized: false,
            weight_milligrams: 0,
            raw_value: 0,
            stable: false,
            tare_offset: 0,
            cal_factor_milli: 1000,
        }),
{
    match &s.slot {
        Some(m) => ScaleStatus {
            initialized: m.initialized,
            weight_milligrams: m.weight_milligrams,
            raw_value: m.last_raw,
            stable: m.stable,
            tare_offset: m.calibration.zero_offset,
            cal_factor_milli: m.calibration.cal_factor_milli,
        },
        None => ScaleStatus {
            initialized: false,
            weight_milligrams: 0,
            raw_value: 0,
            stable: false,
            tare_offset: 0,
            cal_factor_milli: 1000,
        },
    }
}

/// The last converted weight in milligrams, or 0 while uninitialized.
pub fn scale_get_weight(s: &Singleton<ScaleState>) -> (r: i32)
    ensures
        s.is_init() ==> r == s.state().weight_milligrams,
        !s.is_init() ==> r == 0,
{
    match &s.slot {
        Some(m) => m.weight_milligrams,
        None => 0,
    }
}

/// The last raw converter reading, or 0 while uninitialized.
pub fn scale_get_raw(s: &Singleton<ScaleState>) -> (r: i32)
    ensures
        s.is_init() ==> r == s.state().last_raw,
        !s.is_init() ==> r == 0,
{
    match &s.slot {
        Some(m) => m.last_raw,
        None => 0,
    }
}

/// Whether the scale was initialized.
pub fn scale_is_initialized(s: &Singleton<ScaleState>) -> (r: bool)
    ensures
        r == (s.is_init() && s.state().initialized),
{
    match &s.slot {
        Some(m) => m.initialized,
        None => false,
    }
}

/// Whether the last reading was stable; false while uninitialized.
pub fn scale_is_stable(s: &Singleton<ScaleState>) -> (r: bool)
    ensures
        r == (s.is_init() && s.state().stable),
{
    match &s.slot {
        Some(m) => m.stable,
        None => false,
    }
}

/// The zero-point offset, or 0 while uninitialized.
pub fn scale_get_tare_offset(s: &Singleton<ScaleState>) -> (r: i32)
    ensures
        s.is_init() ==> r == s.state().calibration.zero_offset,
        !s.is_init() ==> r == 0,
{
    match &s.slot {
        Some(m) => m.calibration.zero_offset,
        None => 0,
    }
}

/// Records a tare: the raw reading the driver captured becomes the new zero
/// point. A failed capture leaves the state exactly as it was. Returns 0 on
/// success, -1 on failure or while uninitialized.
pub fn scale_tare(s: &mut Singleton<ScaleState>, captured_raw: Option<i32>) -> (r: i32)
    ensures
        !old(s).is_init() ==> *final(s) == *old(s) && r == -1,
        old(s).is_init() ==> final(s).is_init() && match captured_raw {
            Some(raw) => final(s).state() == (ScaleState {
                calibration: ScaleCalibration {
                    zero_offset: raw,
                    cal_factor_milli: old(s).state().calibration.cal_factor_milli,
                },
                ..old(s).state()
            }) && r == 0,
            None => *final(s) == *old(s) && r == -1,
        },
{
    match s.slot.take() {
        None => -1,
        Some(mut m) => {
            let r: i32 = match captured_raw {
                Some(raw) => {
                    m.calibration.zero_offset = raw;
                    0
                },
                None => -1,
            };
            s.slot = Some(m);
            r
        },
    }
}

/// Records a calibration: the factor the driver derived from the raw delta at
/// a known reference weight becomes the new conversion factor. A failed
/// derivation leaves the state exactly as it was. Returns 0 on success, -1 on
/// failure or while uninitialized.
pub fn scale_calibrate(s: &mut Singleton<ScaleState>, derived_factor_milli: Option<i32>) -> (r:
    i32)
    ensures
        !old(s).is_init() ==> *final(s) == *old(s) && r == -1,
        old(s).is_init() ==> final(s).is_init() && match derived_factor_milli {
            Some(factor) => final(s).state() == (ScaleState {
                calibration: ScaleCalibration {
                    zero_offset: old(s).state().calibration.zero_offset,
                    cal_factor_milli: factor,
                },
                ..old(s).state()
            }) && r == 0,
            None => *final(s) == *old(s) && r == -1,
        },
{
    match s.slot.take() {
        None => -1,
        Some(mut m) => {
            let r: i32 = match derived_factor_milli {
                Some(factor) => {
                    m.calibration.cal_factor_milli = factor;
                    0
                },
                None => -1,
            };
            s.slot = Some(m);
            r
        },
    }
}

} // verus!
