use display_layout::device::{
    device_id_valid, list_devices, DeviceReport, EnumerationEnd, DISPLAY_DEVICE_ACTIVE,
};
use display_layout::errors::DisplayError;
use display_layout::modes::{list_modes, ModeDescriptor, REQUIRED_COLOR_DEPTH};
use display_layout::settings::DevMode;

fn mode(width: u32, height: u32, refresh_hz: u32, bits_per_pel: u32) -> DevMode {
    DevMode {
        width,
        height,
        refresh_hz,
        bits_per_pel,
        position_x: 0,
        position_y: 0,
        orientation_code: 0,
    }
}

#[test]
fn list_devices_keeps_names_and_reads_the_active_bit() {
    let reports = vec![
        DeviceReport { name: String::from("\\\\.\\DISPLAY1"), state_flags: DISPLAY_DEVICE_ACTIVE },
        DeviceReport { name: String::from("\\\\.\\DISPLAY2"), state_flags: 0 },
        DeviceReport { name: String::from("\\\\.\\DISPLAY3"), state_flags: 0x5 },
    ];
    let devices = list_devices(&reports, EnumerationEnd::NoMoreDevices).expect("must list");
    assert_eq!(devices.len(), 3);
    assert_eq!(devices[0].id, "\\\\.\\DISPLAY1");
    assert!(devices[0].active);
    assert_eq!(devices[1].id, "\\\\.\\DISPLAY2");
    assert!(!devices[1].active);
    assert!(devices[2].active);
}

#[test]
fn list_devices_reports_a_failed_enumeration() {
    let reports = vec![DeviceReport { name: String::from("\\\\.\\DISPLAY1"), state_flags: 1 }];
    let res = list_devices(&reports, EnumerationEnd::OsFailure);
    assert_eq!(res.unwrap_err(), DisplayError::EnumerationError);
}

#[test]
fn list_devices_of_nothing_is_empty() {
    let devices =
        list_devices(&Vec::new(), EnumerationEnd::NoMoreDevices).expect("must list");
    assert!(devices.is_empty());
}

#[test]
fn device_id_valid_rejects_interior_zero_bytes() {
    assert!(device_id_valid("\\\\.\\DISPLAY1"));
    assert!(device_id_valid(""));
    assert!(!device_id_valid("bad\0id"));
}

#[test]
fn list_modes_keeps_only_the_required_color_depth() {
    assert_eq!(REQUIRED_COLOR_DEPTH, 32);
    let reports = vec![
        mode(3440, 1440, 100, 32),
        mode(1024, 768, 60, 16),
        mode(2560, 1440, 60, 32),
        mode(640, 480, 60, 8),
    ];
    let listed = list_modes(&reports, EnumerationEnd::NoMoreDevices).expect("must list");
    assert_eq!(
        listed,
        vec![
            ModeDescriptor { width: 3440, height: 1440, refresh_hz: 100 },
            ModeDescriptor { width: 2560, height: 1440, refresh_hz: 60 },
        ]
    );
}

#[test]
fn list_modes_with_no_qualifying_mode_is_empty_not_an_error() {
    let reports = vec![mode(1024, 768, 60, 16), mode(640, 480, 60, 8)];
    let listed = list_modes(&reports, EnumerationEnd::NoMoreDevices).expect("must list");
    assert!(listed.is_empty());
}

#[test]
fn list_modes_reports_a_failed_enumeration() {
    let reports = vec![mode(3440, 1440, 100, 32)];
    assert_eq!(
        list_modes(&reports, EnumerationEnd::OsFailure),
        Err(DisplayError::EnumerationError)
    );
}
