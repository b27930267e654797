//! Per-device display settings and the two-phase change protocol.
//!
//! A change is first *staged* for one device — the system records it without
//! making it visible — and later *committed*, which turns every staged change
//! into one atomic system-wide update. This module builds the exact native
//! request records for both steps, decodes the record a device reports as its
//! current settings, and interprets the status codes the system answers with.

use vstd::prelude::*;

use crate::errors::DisplayError;
use crate::orientation::Orientation;

verus! {

/// Field bit: the request carries a desktop position.
pub const DM_POSITION: u32 = 0x20;

/// Field bit: the request carries a display orientation.
pub const DM_DISPLAYORIENTATION: u32 = 0x80;

/// Field bit: the request carries a width in pixels.
pub const DM_PELSWIDTH: u32 = 0x80000;

/// Field bit: the request carries a height in pixels.
pub const DM_PELSHEIGHT: u32 = 0x100000;

/// Field bit: the request carries a refresh rate.
pub const DM_DISPLAYFREQUENCY: u32 = 0x400000;

/// Request flag: also write the change to persistent configuration.
pub const CDS_UPDATEREGISTRY: u32 = 0x1;

/// Request flag: the change is a session-only, full-screen override.
pub const CDS_FULLSCREEN: u32 = 0x4;

/// Request flag: stage the change without resetting the system yet.
pub const CDS_NORESET: u32 = 0x10000000;

/// The status code the system answers when a change request succeeds.
pub const DISP_CHANGE_SUCCESSFUL: i32 = 0;

/// One native mode record, as the system reports it and as change requests
/// carry it. Fields a given exchange does not use are zero.
#[derive(Clone, Copy, Debug, PartialEq, Eq, Structural)]
pub struct DevMode {
    pub width: u32,
    pub height: u32,
    pub refresh_hz: u32,
    pub bits_per_pel: u32,
    pub position_x: i32,
    pub position_y: i32,
    pub orientation_code: u32,
}

/// A full desired or applied configuration for one device: a mode plus its
/// position in the shared virtual desktop and its rotation.
#[derive(Clone, Copy, Debug, PartialEq, Eq, Structural)]
pub struct DisplaySettings {
    pub width: u32,
    pub height: u32,
    pub refresh_hz: u32,
    pub position_x: i32,
    pub position_y: i32,
    pub orientation: Orientation,
}

/// The reset form: all-zero settings ask the system to return the device to
/// its default configuration.
pub open spec fn spec_reset_settings() -> DisplaySettings {
    DisplaySettings {
        width: 0,
        height: 0,
        refresh_hz: 0,
        position_x: 0,
        position_y: 0,
        orientation: Orientation::Zero,
    }
}

/// Build the reset form of [`DisplaySettings`].
pub fn reset_settings() -> (s: DisplaySettings)
    ensures
        s == spec_reset_settings(),
{
    DisplaySettings {
        width: 0,
        height: 0,
        refresh_hz: 0,
        position_x: 0,
        position_y: 0,
        orientation: Orientation::Zero,
    }
}

/// One fully assembled native change request: which fields are meaningful,
/// their values, and the flags selecting staging and permanence.
#[derive(Clone, Copy, Debug, PartialEq, Eq, Structural)]
pub struct ChangeRequest {
    pub fields: u32,
    pub mode: DevMode,
    pub flags: u32,
}

/// The request that stages `settings` for one device: every display field is
/// marked meaningful, the mode record echoes the settings exactly, and the
/// flags keep the change invisible until the commit step.
pub open spec fn spec_stage_request(settings: DisplaySettings, permanent: bool) -> ChangeRequest {
    ChangeRequest {
        fields: DM_PELSWIDTH | DM_PELSHEIGHT | DM_DISPLAYFREQUENCY | DM_POSITION
            | DM_DISPLAYORIENTATION,
        mode: DevMode {
            width: settings.width,
            height: settings.height,
            refresh_hz: settings.refresh_hz,
            bits_per_pel: 0,
            position_x: settings.position_x,
            position_y: settings.position_y,
            orientation_code: settings.orientation.spec_to_native(),
        },
        flags: CDS_NORESET | (if permanent {
            CDS_UPDATEREGISTRY
        } else {
            CDS_FULLSCREEN
        }),
    }
}

/// Assemble the native request that stages `settings` for one device without
/// yet committing it system-wide. `permanent` selects whether the change also
/// reaches persistent configuration.
pub fn stage_request(settings: &DisplaySettings, permanent: bool) -> (req: ChangeRequest)
    ensures
        req == spec_stage_request(*settings, permanent),
{
    ChangeRequest {
        fields: DM_PELSWIDTH | DM_PELSHEIGHT | DM_DISPLAYFREQUENCY | DM_POSITION
            | DM_DISPLAYORIENTATION,
        mode: DevMode {
            width: settings.width,
            height: settings.height,
            refresh_hz: settings.refresh_hz,
            bits_per_pel: 0,
            position_x: settings.position_x,
            position_y: settings.position_y,
            orientation_code: settings.orientation.to_native(),
        },
        flags: CDS_NORESET | (if permanent {
            CDS_UPDATEREGISTRY
        } else {
            CDS_FULLSCREEN
        }),
    }
}

/// The request that changes only the default display's mode, applied at once
/// rather than staged. A zero width is the reset form and then also asks the
/// system to choose the position.
pub open spec fn spec_default_change_request(
    width: u32,
    height: u32,
    refresh_hz: u32,
    permanent: bool,
) -> ChangeRequest {
    ChangeRequest {
        fields: (DM_PELSWIDTH | DM_PELSHEIGHT | DM_DISPLAYFREQUENCY) | (if width == 0 {
            DM_POSITION
        } else {
            0
        }),
        mode: DevMode {
            width,
            height,
            refresh_hz,
            bits_per_pel: 0,
            position_x: 0,
            position_y: 0,
            orientation_code: 0,
        },
        flags: if permanent {
            CDS_UPDATEREGISTRY
        } else {
            CDS_FULLSCREEN
        },
    }
}

/// Assemble the native request that changes the default display's mode in one
/// step, without the stage-and-commit split.
pub fn default_change_request(width: u32, height: u32, refresh_hz: u32, permanent: bool) -> (req:
    ChangeRequest)
    ensures
        req == spec_default_change_request(width, height, refresh_hz, permanent),
{
    ChangeRequest {
        fields: (DM_PELSWIDTH | DM_PELSHEIGHT | DM_DISPLAYFREQUENCY) | (if width == 0 {
            DM_POSITION
        } else {
            0
        }),
        mode: DevMode {
            width,
            height,
            refresh_hz,
            bits_per_pel: 0,
            position_x: 0,
            position_y: 0,
            orientation_code: 0,
        },
        flags: if permanent {
            CDS_UPDATEREGISTRY
        } else {
            CDS_FULLSCREEN
        },
    }
}

/// What reading a device's current settings yields: the mode record the
/// system reported, decoded field for field. No record at all means the
/// device has no current settings; a rotation code outside the defined values
/// is a hard error, never coerced to the default orientation.
pub open spec fn spec_current_settings(reply: Option<DevMode>) -> Result<
    DisplaySettings,
    DisplayError,
> {
    match reply {
        None => Err(DisplayError::NotFound),
        Some(mode) => match Orientation::spec_from_native(mode.orientation_code) {
            None => Err(DisplayError::InvalidOrientation),
            Some(orientation) => Ok(
                DisplaySettings {
                    width: mode.width,
                    height: mode.height,
                    refresh_hz: mode.refresh_hz,
                    position_x: mode.position_x,
                    position_y: mode.position_y,
                    orientation,
                },
            ),
        },
    }
}

/// Decode the mode record the system reports as a device's current settings,
/// `reply` being `None` when the system reported no record for the device.
pub fn current_settings(reply: Option<DevMode>) -> (res: Result<DisplaySettings, DisplayError>)
    ensures
        res == spec_current_settings(reply),
{
    match reply {
        None => Err(DisplayError::NotFound),
        Some(mode) => match Orientation::from_native(mode.orientation_code) {
            None => Err(DisplayError::InvalidOrientation),
            Some(orientation) => Ok(
                DisplaySettings {
                    width: mode.width,
                    height: mode.height,
                    refresh_hz: mode.refresh_hz,
                    position_x: mode.position_x,
                    position_y: mode.position_y,
                    orientation,
                },
            ),
        },
    }
}

/// How the system's answer to one staged change reads: success exactly on the
/// successful status code, any other code a per-device rejection.
pub open spec fn spec_stage_status(code: i32) -> Result<(), DisplayError> {
    if code == DISP_CHANGE_SUCCESSFUL {
        Ok(())
    } else {
        Err(DisplayError::ApplyRejected(code))
    }
}

/// Interpret the status code the system answered one staged change with.
pub fn stage_status(code: i32) -> (res: Result<(), DisplayError>)
    ensures
        res == spec_stage_status(code),
{
    if code == DISP_CHANGE_SUCCESSFUL {
        Ok(())
    } else {
        Err(DisplayError::ApplyRejected(code))
    }
}

/// How the system's answer to the final commit reads: success exactly on the
/// successful status code, any other code a rejection of the combined
/// configuration.
pub open spec fn spec_commit_status(code: i32) -> Result<(), DisplayError> {
    if code == DISP_CHANGE_SUCCESSFUL {
        Ok(())
    } else {
        Err(DisplayError::CommitRejected(code))
    }
}

/// Interpret the status code the system answered the final commit with.
pub fn commit_status(code: i32) -> (res: Result<(), DisplayError>)
    ensures
        res == spec_commit_status(code),
{
    if code == DISP_CHANGE_SUCCESSFUL {
        Ok(())
    } else {
        Err(DisplayError::CommitRejected(code))
    }
}

/// Law: staging settings and reading them back is the identity. The mode
/// record a stage request carries decodes to exactly the staged settings —
/// width, height, refresh rate, position and orientation all survive.
pub proof fn lemma_stage_then_read(settings: DisplaySettings, permanent: bool)
    ensures
        spec_current_settings(Some(spec_stage_request(settings, permanent).mode))
            == Ok::<DisplaySettings, DisplayError>(settings),
{
    crate::orientation::lemma_orientation_round_trip(settings.orientation);
}

} // verus!
