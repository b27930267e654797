//! Supported display modes as the system enumerates them.
//!
//! The system is asked for a device's modes one index at a time; each answer
//! is a raw mode record. Only modes with 32-bit color survive the listing —
//! that is a deliberate filter of this system, not a platform limit: lower
//! depths are obsolete and never offered to the user.

use vstd::prelude::*;

use crate::errors::DisplayError;
use crate::device::EnumerationEnd;
use crate::settings::DevMode;

verus! {

/// The one color depth, in bits per pixel, a listed mode may have.
pub const REQUIRED_COLOR_DEPTH: u32 = 32;

/// One supported mode of a device: a resolution and a refresh rate.
#[derive(Clone, Copy, Debug, PartialEq, Eq, Structural)]
pub struct ModeDescriptor {
    pub width: u32,
    pub height: u32,
    pub refresh_hz: u32,
}

/// Whether a reported mode record qualifies for the listing.
pub open spec fn spec_qualifying(mode: DevMode) -> bool {
    mode.bits_per_pel == REQUIRED_COLOR_DEPTH
}

/// The descriptor a reported mode record reduces to.
pub open spec fn spec_mode_of(mode: DevMode) -> ModeDescriptor {
    ModeDescriptor { width: mode.width, height: mode.height, refresh_hz: mode.refresh_hz }
}

/// The listing the reported records from index `i` on reduce to: qualifying
/// records in reported order, each as its descriptor.
pub open spec fn spec_filtered_modes_from(reports: Seq<DevMode>, i: int) -> Seq<ModeDescriptor>
    decreases reports.len() - i,
{
    if i < 0 || i >= reports.len() {
        Seq::empty()
    } else {
        let rest = spec_filtered_modes_from(reports, i + 1);
        if spec_qualifying(reports[i]) {
            seq![spec_mode_of(reports[i])] + rest
        } else {
            rest
        }
    }
}

/// The listing all reported records reduce to.
pub open spec fn spec_filtered_modes(reports: Seq<DevMode>) -> Seq<ModeDescriptor> {
    spec_filtered_modes_from(reports, 0)
}

/// Turn the raw enumeration answers for one device into its mode listing. A
/// failed enumeration yields an error; an exhausted list yields exactly the
/// qualifying modes in reported order — a device with no qualifying mode gets
/// an empty listing, not an error.
pub fn list_modes(reports: &Vec<DevMode>, end: EnumerationEnd) -> (res: Result<
    Vec<ModeDescriptor>,
    DisplayError,
>)
    ensures
        res is Err <==> end == EnumerationEnd::OsFailure,
        res matches Err(e) ==> e == DisplayError::EnumerationError,
        res matches Ok(modes) ==> modes@ == spec_filtered_modes(reports@),
{
    match end {
        EnumerationEnd::OsFailure => Err(DisplayError::EnumerationError),
        EnumerationEnd::NoMoreDevices => {
            let mut modes: Vec<ModeDescriptor> = Vec::new();
            let mut i: usize = 0;
            while i < reports.len()
                invariant
                    i <= reports@.len(),
                    spec_filtered_modes(reports@) == modes@ + spec_filtered_modes_from(
                        reports@,
                        i as int,
                    ),
                decreases reports@.len() - i,
            {
                let report = reports[i];
                let ghost prev = modes@;
                if report.bits_per_pel == REQUIRED_COLOR_DEPTH {
                    modes.push(
                        ModeDescriptor {
                            width: report.width,
                            height: report.height,
                            refresh_hz: report.refresh_hz,
                        },
                    );
                    proof {
                        assert(spec_filtered_modes_from(reports@, i as int) == seq![
                            spec_mode_of(reports@[i as int]),
                        ] + spec_filtered_modes_from(reports@, i as int + 1));
                        assert(modes@ + spec_filtered_modes_from(reports@, i as int + 1) =~= prev
                            + spec_filtered_modes_from(reports@, i as int));
                    }
                }
                i = i + 1;
            }
            proof {
                assert(spec_filtered_modes_from(reports@, reports@.len() as int)
                    == Seq::<ModeDescriptor>::empty());
                assert(modes@ + Seq::<ModeDescriptor>::empty() =~= modes@);
            }
            Ok(modes)
        },
    }
}

/// The index of the reported record the `j`-th entry of the listing from
/// index `k` on reduces from; the report count itself when `j` is out of
/// range.
pub open spec fn spec_source_index(reports: Seq<DevMode>, k: int, j: int) -> int
    decreases reports.len() - k,
{
    if k < 0 || k >= reports.len() {
        reports.len() as int
    } else if spec_qualifying(reports[k]) {
        if j == 0 {
            k
        } else {
            spec_source_index(reports, k + 1, j - 1)
        }
    } else {
        spec_source_index(reports, k + 1, j)
    }
}

/// The `j`-th entry of the listing is the reduction of the reported record
/// its source index names, and that record has the required color depth.
pub open spec fn spec_mode_has_source(reports: Seq<DevMode>, j: int) -> bool {
    let i = spec_source_index(reports, 0, j);
    0 <= i < reports.len() && spec_qualifying(reports[i]) && spec_filtered_modes(reports)[j]
        == spec_mode_of(reports[i])
}

/// Law: the listing never holds a mode of another color depth — every listed
/// descriptor is the reduction of a reported record with the required depth,
/// namely the one its source index names.
pub proof fn lemma_modes_only_required_depth(reports: Seq<DevMode>)
    ensures
        forall|j: int|
            0 <= j < spec_filtered_modes(reports).len() ==> #[trigger] spec_mode_has_source(
                reports,
                j,
            ),
{
    assert forall|j: int|
        0 <= j < spec_filtered_modes(reports).len() implies #[trigger] spec_mode_has_source(
        reports,
        j,
    ) by {
        lemma_modes_source_from(reports, 0, j);
    }
}

/// Law: a device whose reports hold no qualifying record gets the empty
/// listing.
pub proof fn lemma_modes_empty_when_none_qualify(reports: Seq<DevMode>)
    requires
        forall|i: int| 0 <= i < reports.len() ==> !spec_qualifying(#[trigger] reports[i]),
    ensures
        spec_filtered_modes(reports).len() == 0,
{
    lemma_modes_len_from(reports, 0);
}

proof fn lemma_modes_source_from(reports: Seq<DevMode>, k: int, j: int)
    requires
        0 <= k <= reports.len(),
        0 <= j < spec_filtered_modes_from(reports, k).len(),
    ensures
        ({
            let i = spec_source_index(reports, k, j);
            k <= i < reports.len() && spec_qualifying(reports[i]) && spec_filtered_modes_from(
                reports,
                k,
            )[j] == spec_mode_of(reports[i])
        }),
    decreases reports.len() - k,
{
    if k >= reports.len() {
    } else if spec_qualifying(reports[k]) {
        if j > 0 {
            assert(spec_filtered_modes_from(reports, k)[j] == spec_filtered_modes_from(
                reports,
                k + 1,
            )[j - 1]);
            lemma_modes_source_from(reports, k + 1, j - 1);
        }
    } else {
        assert(spec_filtered_modes_from(reports, k)[j] == spec_filtered_modes_from(
            reports,
            k + 1,
        )[j]);
        lemma_modes_source_from(reports, k + 1, j);
    }
}

proof fn lemma_modes_len_from(reports: Seq<DevMode>, k: int)
    requires
        forall|i: int| 0 <= i < reports.len() ==> !spec_qualifying(#[trigger] reports[i]),
    ensures
        spec_filtered_modes_from(reports, k).len() == 0,
    decreases reports.len() - k,
{
    if k < 0 || k >= reports.len() {
    } else {
        lemma_modes_len_from(reports, k + 1);
    }
}

} // verus!
