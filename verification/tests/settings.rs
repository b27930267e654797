use display_layout::errors::DisplayError;
use display_layout::orientation::Orientation;
use display_layout::settings::{
    commit_status, current_settings, default_change_request, reset_settings, stage_request,
    stage_status, ChangeRequest, DevMode, DisplaySettings, CDS_FULLSCREEN, CDS_NORESET,
    CDS_UPDATEREGISTRY, DISP_CHANGE_SUCCESSFUL, DM_DISPLAYFREQUENCY, DM_DISPLAYORIENTATION,
    DM_PELSHEIGHT, DM_PELSWIDTH, DM_POSITION,
};

fn sample_settings() -> DisplaySettings {
    DisplaySettings {
        width: 3440,
        height: 1440,
        refresh_hz: 100,
        position_x: 0,
        position_y: 0,
        orientation: Orientation::Zero,
    }
}

#[test]
fn stage_request_marks_every_display_field() {
    let req: ChangeRequest = stage_request(&sample_settings(), true);
    assert_eq!(
        req.fields,
        DM_PELSWIDTH | DM_PELSHEIGHT | DM_DISPLAYFREQUENCY | DM_POSITION | DM_DISPLAYORIENTATION
    );
    assert_eq!(req.mode.width, 3440);
    assert_eq!(req.mode.height, 1440);
    assert_eq!(req.mode.refresh_hz, 100);
    assert_eq!(req.mode.position_x, 0);
    assert_eq!(req.mode.position_y, 0);
    assert_eq!(req.mode.orientation_code, 0);
}

#[test]
fn stage_request_stages_without_reset() {
    let permanent = stage_request(&sample_settings(), true);
    assert_eq!(permanent.flags, CDS_NORESET | CDS_UPDATEREGISTRY);
    let session_only = stage_request(&sample_settings(), false);
    assert_eq!(session_only.flags, CDS_NORESET | CDS_FULLSCREEN);
}

#[test]
fn stage_request_carries_the_rotation_code() {
    let mut settings = sample_settings();
    settings.orientation = Orientation::Cw270;
    let req = stage_request(&settings, true);
    assert_eq!(req.mode.orientation_code, 3);
}

#[test]
fn default_change_request_asks_for_position_only_on_reset() {
    let plain = default_change_request(2560, 1440, 60, true);
    assert_eq!(plain.fields, DM_PELSWIDTH | DM_PELSHEIGHT | DM_DISPLAYFREQUENCY);
    assert_eq!(plain.flags, CDS_UPDATEREGISTRY);
    assert_eq!(plain.mode.width, 2560);

    let reset = default_change_request(0, 0, 0, false);
    assert_eq!(
        reset.fields,
        DM_PELSWIDTH | DM_PELSHEIGHT | DM_DISPLAYFREQUENCY | DM_POSITION
    );
    assert_eq!(reset.flags, CDS_FULLSCREEN);
}

#[test]
fn reset_settings_is_the_all_zero_form() {
    let r = reset_settings();
    assert_eq!(r.width, 0);
    assert_eq!(r.height, 0);
    assert_eq!(r.refresh_hz, 0);
    assert_eq!(r.position_x, 0);
    assert_eq!(r.position_y, 0);
    assert_eq!(r.orientation, Orientation::Zero);
}

#[test]
fn current_settings_without_a_record_is_not_found() {
    assert_eq!(current_settings(None), Err(DisplayError::NotFound));
}

#[test]
fn current_settings_rejects_an_unknown_rotation_code() {
    let mode = DevMode {
        width: 1920,
        height: 1080,
        refresh_hz: 60,
        bits_per_pel: 32,
        position_x: 0,
        position_y: 0,
        orientation_code: 7,
    };
    assert_eq!(
        current_settings(Some(mode)),
        Err(DisplayError::InvalidOrientation)
    );
}

#[test]
fn current_settings_decodes_every_field() {
    let mode = DevMode {
        width: 2560,
        height: 1440,
        refresh_hz: 100,
        bits_per_pel: 32,
        position_x: -2560,
        position_y: 10,
        orientation_code: 2,
    };
    let settings = current_settings(Some(mode)).expect("record must decode");
    assert_eq!(settings.width, 2560);
    assert_eq!(settings.height, 1440);
    assert_eq!(settings.refresh_hz, 100);
    assert_eq!(settings.position_x, -2560);
    assert_eq!(settings.position_y, 10);
    assert_eq!(settings.orientation, Orientation::Cw180);
}

#[test]
fn applied_settings_read_back_unchanged() {
    let settings = sample_settings();
    let staged = stage_request(&settings, true);
    assert_eq!(current_settings(Some(staged.mode)), Ok(settings));
}

#[test]
fn stage_status_is_ok_only_on_success() {
    assert_eq!(stage_status(DISP_CHANGE_SUCCESSFUL), Ok(()));
    assert_eq!(stage_status(-1), Err(DisplayError::ApplyRejected(-1)));
    assert_eq!(stage_status(1), Err(DisplayError::ApplyRejected(1)));
}

#[test]
fn commit_status_is_ok_only_on_success() {
    assert_eq!(commit_status(DISP_CHANGE_SUCCESSFUL), Ok(()));
    assert_eq!(commit_status(-2), Err(DisplayError::CommitRejected(-2)));
}
