use spoolbuddy::scale::{
    init_scale_manager, poll_scale, scale_calibrate, scale_get_raw, scale_get_status,
    scale_get_tare_offset, scale_get_weight, scale_is_initialized, scale_is_stable, scale_ready,
    scale_tare, ScaleCalibration, ScaleReading, ScaleState,
};
use spoolbuddy::singleton::Singleton;

fn fresh_scale() -> Singleton<ScaleState> {
    let mut s: Singleton<ScaleState> = Singleton::empty();
    init_scale_manager(
        &mut s,
        ScaleState {
            initialized: true,
            last_raw: 0,
            weight_milligrams: 0,
            stable: false,
            calibration: ScaleCalibration { zero_offset: 0, cal_factor_milli: 1000 },
        },
    );
    s
}

#[test]
fn poll_updates_reading_fields_only() {
    let mut s = fresh_scale();
    assert!(scale_ready(&s));
    poll_scale(&mut s, Some(ScaleReading { raw: 81234, weight_milligrams: 12500, stable: true }));
    assert_eq!(scale_get_raw(&s), 81234);
    assert_eq!(scale_get_weight(&s), 12500);
    assert!(scale_is_stable(&s));
    assert_eq!(scale_get_tare_offset(&s), 0);
}

#[test]
fn poll_error_is_treated_as_no_data() {
    let mut s = fresh_scale();
    poll_scale(&mut s, Some(ScaleReading { raw: 100, weight_milligrams: 200, stable: true }));
    poll_scale(&mut s, None);
    assert_eq!(scale_get_raw(&s), 100);
    assert_eq!(scale_get_weight(&s), 200);
}

#[test]
fn tare_captures_zero_offset_only_on_success() {
    let mut s = fresh_scale();
    assert_eq!(scale_tare(&mut s, Some(4321)), 0);
    assert_eq!(scale_get_tare_offset(&s), 4321);
    assert_eq!(scale_tare(&mut s, None), -1);
    assert_eq!(scale_get_tare_offset(&s), 4321);
    let mut empty: Singleton<ScaleState> = Singleton::empty();
    assert_eq!(scale_tare(&mut empty, Some(1)), -1);
}

#[test]
fn calibrate_sets_factor_only_on_success() {
    let mut s = fresh_scale();
    assert_eq!(scale_calibrate(&mut s, Some(2150)), 0);
    assert_eq!(scale_get_status(&s).cal_factor_milli, 2150);
    assert_eq!(scale_calibrate(&mut s, None), -1);
    assert_eq!(scale_get_status(&s).cal_factor_milli, 2150);
    let mut empty: Singleton<ScaleState> = Singleton::empty();
    assert_eq!(scale_calibrate(&mut empty, Some(1)), -1);
}

#[test]
fn status_snapshot_defaults_when_uninitialized() {
    let empty: Singleton<ScaleState> = Singleton::empty();
    let st = scale_get_status(&empty);
    assert!(!st.initialized);
    assert_eq!(st.weight_milligrams, 0);
    assert_eq!(st.raw_value, 0);
    assert!(!st.stable);
    assert_eq!(st.tare_offset, 0);
    assert_eq!(st.cal_factor_milli, 1000);
    assert!(!scale_is_initialized(&empty));
    assert!(!scale_ready(&empty));
    assert_eq!(scale_get_weight(&empty), 0);
    assert_eq!(scale_get_raw(&empty), 0);
    assert!(!scale_is_stable(&empty));
}

#[test]
fn reinit_overwrites_the_held_state() {
    let mut s = fresh_scale();
    poll_scale(&mut s, Some(ScaleReading { raw: 9, weight_milligrams: 9, stable: true }));
    init_scale_manager(
        &mut s,
        ScaleState {
            initialized: true,
            last_raw: 0,
            weight_milligrams: 0,
            stable: false,
            calibration: ScaleCalibration { zero_offset: 0, cal_factor_milli: 1000 },
        },
    );
    assert_eq!(scale_get_raw(&s), 0);
    assert_eq!(scale_get_weight(&s), 0);
    assert!(!scale_is_stable(&s));
}

#[test]
fn poll_without_driver_init_changes_nothing() {
    let mut s: Singleton<ScaleState> = Singleton::empty();
    init_scale_manager(
        &mut s,
        ScaleState {
            initialized: false,
            last_raw: 0,
            weight_milligrams: 0,
            stable: false,
            calibration: ScaleCalibration { zero_offset: 0, cal_factor_milli: 1000 },
        },
    );
    assert!(!scale_ready(&s));
    poll_scale(&mut s, Some(ScaleReading { raw: 5, weight_milligrams: 6, stable: true }));
    assert_eq!(scale_get_raw(&s), 0);
    assert_eq!(scale_get_weight(&s), 0);
}

#[test]
fn status_snapshot_mirrors_live_state() {
    let mut s = fresh_scale();
    poll_scale(&mut s, Some(ScaleReading { raw: 777, weight_milligrams: 1500, stable: true }));
    scale_tare(&mut s, Some(50));
    let st = scale_get_status(&s);
    assert!(st.initialized);
    assert_eq!(st.raw_value, 777);
    assert_eq!(st.weight_milligrams, 1500);
    assert!(st.stable);
    assert_eq!(st.tare_offset, 50);
    assert!(scale_is_initialized(&s));
}
