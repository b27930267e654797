//! Display devices as the system enumerates them.
//!
//! The system is queried one device index at a time and answers with a raw
//! report, with "no more devices", or with a failure. The end of the list and
//! a failure are distinct signals and must stay distinct: only a failure is an
//! error, an exhausted list is a normal result.

use vstd::prelude::*;

use vstd::string::StringSliceAdditionalSpecFns;

use crate::errors::DisplayError;

verus! {

/// State-flag bit: the device is attached to the desktop and in use.
pub const DISPLAY_DEVICE_ACTIVE: u32 = 0x1;

/// One raw answer of the device-enumeration call: the device's name and its
/// state-flag bits, as the system reports them.
#[derive(Clone, Debug)]
pub struct DeviceReport {
    pub name: String,
    pub state_flags: u32,
}

/// A display device: its system-assigned identifier and whether it is
/// currently active.
#[derive(Clone, Debug)]
pub struct DisplayDevice {
    pub id: String,
    pub active: bool,
}

/// How the enumeration stopped: the list was exhausted, or the call failed.
#[derive(Clone, Copy, Debug, PartialEq, Eq, Structural)]
pub enum EnumerationEnd {
    NoMoreDevices,
    OsFailure,
}

/// Whether a device's state flags mark it active.
pub open spec fn spec_device_active(state_flags: u32) -> bool {
    state_flags & DISPLAY_DEVICE_ACTIVE == DISPLAY_DEVICE_ACTIVE
}

/// Whether a device identifier can be handed to the system's calls: the
/// native interface takes it as a zero-terminated byte string, so an interior
/// zero byte makes the identifier malformed.
pub open spec fn spec_device_id_valid(bytes: Seq<u8>) -> bool {
    forall|i: int| 0 <= i < bytes.len() ==> bytes[i] != 0
}

/// Check that a device identifier holds no interior zero byte.
pub fn device_id_valid(id: &str) -> (ok: bool)
    ensures
        ok == spec_device_id_valid(id.spec_bytes()),
{
    let bytes = id.as_bytes();
    let mut i: usize = 0;
    while i < bytes.len()
        invariant
            i <= bytes@.len(),
            bytes@ == id.spec_bytes(),
            forall|j: int| 0 <= j < i ==> bytes@[j] != 0,
        decreases bytes@.len() - i,
    {
        if bytes[i] == 0 {
            return false;
        }
        i = i + 1;
    }
    true
}

/// Turn the raw enumeration answers into the device list. A failed
/// enumeration yields an error and no devices at all; an exhausted list yields
/// every reported device in reported order, each marked active exactly when
/// its state flags carry the active bit.
pub fn list_devices(reports: &Vec<DeviceReport>, end: EnumerationEnd) -> (res: Result<
    Vec<DisplayDevice>,
    DisplayError,
>)
    ensures
        res is Err <==> end == EnumerationEnd::OsFailure,
        res matches Err(e) ==> e == DisplayError::EnumerationError,
        res matches Ok(devices) ==> {
            &&& devices@.len() == reports@.len()
            &&& forall|i: int|
                0 <= i < reports@.len() ==> (#[trigger] devices@[i]).id@ == reports@[i].name@
                    && devices@[i].active == spec_device_active(reports@[i].state_flags)
        },
{
    match end {
        EnumerationEnd::OsFailure => Err(DisplayError::EnumerationError),
        EnumerationEnd::NoMoreDevices => {
            let mut devices: Vec<DisplayDevice> = Vec::new();
            let mut i: usize = 0;
            while i < reports.len()
                invariant
                    i <= reports@.len(),
                    devices@.len() == i,
                    forall|j: int|
                        0 <= j < i ==> (#[trigger] devices@[j]).id@ == reports@[j].name@
                            && devices@[j].active == spec_device_active(reports@[j].state_flags),
                decreases reports@.len() - i,
            {
                let report = &reports[i];
                devices.push(
                    DisplayDevice {
                        id: report.name.clone(),
                        active: report.state_flags & DISPLAY_DEVICE_ACTIVE == DISPLAY_DEVICE_ACTIVE,
                    },
                );
                i = i + 1;
            }
            Ok(devices)
        },
    }
}

} // verus!
