//! Unit conversions: exact micro-unit values, checked against the
//! datasheet's mg and degree-Celsius figures.

use iis2dlpc::convert::{
    from_fs16_lp1_to_ug, from_fs16_to_ug, from_fs2_lp1_to_ug, from_fs2_to_ug,
    from_fs4_lp1_to_ug, from_fs4_to_ug, from_fs8_lp1_to_ug, from_fs8_to_ug,
    from_lsb_to_ucelsius,
};

#[test]
fn fs2_conversion_matches_datasheet() {
    // 100 LSB at +/-2 g is 24.4 mg under the 0.244 mg/LSB sensitivity.
    let ug = from_fs2_to_ug(100);
    assert_eq!(ug, 24400);
    let mg = ug as f32 / 1000.0;
    assert!((mg - 24.4).abs() < 1e-4);
}

#[test]
fn full_scale_conversions() {
    assert_eq!(from_fs2_to_ug(1), 244);
    assert_eq!(from_fs4_to_ug(1), 488);
    assert_eq!(from_fs8_to_ug(1), 976);
    assert_eq!(from_fs16_to_ug(1), 1952);
    assert_eq!(from_fs2_to_ug(-100), -24400);
    assert_eq!(from_fs16_to_ug(1000), 1952000);
}

#[test]
fn low_power_mode_1_conversions() {
    assert_eq!(from_fs2_lp1_to_ug(1), 976);
    assert_eq!(from_fs4_lp1_to_ug(1), 1952);
    assert_eq!(from_fs8_lp1_to_ug(1), 3904);
    assert_eq!(from_fs16_lp1_to_ug(1), 7808);
    assert_eq!(from_fs16_lp1_to_ug(-32768), -32768 * 7808);
}

#[test]
fn temperature_conversion() {
    // Zero LSB is 25 degrees; 16 LSB is one degree.
    assert_eq!(from_lsb_to_ucelsius(0), 25_000_000);
    assert_eq!(from_lsb_to_ucelsius(16), 26_000_000);
    assert_eq!(from_lsb_to_ucelsius(-16), 24_000_000);
    assert_eq!(from_lsb_to_ucelsius(400), 50_000_000);
    let c = from_lsb_to_ucelsius(8) as f32 / 1_000_000.0;
    assert!((c - 25.5).abs() < 1e-5);
}
