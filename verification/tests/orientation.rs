use display_layout::orientation::Orientation;
use display_layout::orientation::{DMDO_180, DMDO_270, DMDO_90, DMDO_DEFAULT};

#[test]
fn native_codes_are_the_documented_values() {
    assert_eq!(DMDO_DEFAULT, 0);
    assert_eq!(DMDO_90, 1);
    assert_eq!(DMDO_180, 2);
    assert_eq!(DMDO_270, 3);
}

#[test]
fn every_orientation_round_trips_through_its_native_code() {
    let all = [
        Orientation::Zero,
        Orientation::Cw90,
        Orientation::Cw180,
        Orientation::Cw270,
    ];
    for o in all {
        assert_eq!(Orientation::from_native(o.to_native()), Some(o));
    }
}

#[test]
fn every_valid_native_code_round_trips() {
    for code in 0..4u32 {
        let o = Orientation::from_native(code).expect("valid code must decode");
        assert_eq!(o.to_native(), code);
    }
}

#[test]
fn from_native_rejects_unknown_codes() {
    for code in [4u32, 5, 7, 90, 180, 270, u32::MAX] {
        assert_eq!(Orientation::from_native(code), None);
    }
}

#[test]
fn degrees_name_the_clockwise_angle() {
    assert_eq!(Orientation::Zero.degrees(), 0);
    assert_eq!(Orientation::Cw90.degrees(), 90);
    assert_eq!(Orientation::Cw180.degrees(), 180);
    assert_eq!(Orientation::Cw270.degrees(), 270);
}
