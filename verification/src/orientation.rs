//! Rotation of a display, with its exact native encoding.
//!
//! The operating system reports and accepts a rotation as a small integer
//! code. The mapping between that code and [`Orientation`] must be total and
//! exact in both directions: an unrecognized code is an error, never silently
//! treated as the default orientation.

use vstd::prelude::*;

verus! {

/// Native code for the default, unrotated orientation.
pub const DMDO_DEFAULT: u32 = 0;

/// Native code for a 90 degree clockwise rotation.
pub const DMDO_90: u32 = 1;

/// Native code for a 180 degree rotation.
pub const DMDO_180: u32 = 2;

/// Native code for a 270 degree clockwise rotation.
pub const DMDO_270: u32 = 3;

/// Rotation of a display, one quarter turn at a time.
#[derive(Clone, Copy, Debug, PartialEq, Eq, Structural)]
pub enum Orientation {
    Zero,
    Cw90,
    Cw180,
    Cw270,
}

impl Orientation {
    /// The native rotation code that stands for this orientation.
    pub open spec fn spec_to_native(self) -> u32 {
        match self {
            Orientation::Zero => DMDO_DEFAULT,
            Orientation::Cw90 => DMDO_90,
            Orientation::Cw180 => DMDO_180,
            Orientation::Cw270 => DMDO_270,
        }
    }

    /// The orientation a native rotation code stands for, if any.
    pub open spec fn spec_from_native(code: u32) -> Option<Orientation> {
        if code == DMDO_DEFAULT {
            Some(Orientation::Zero)
        } else if code == DMDO_90 {
            Some(Orientation::Cw90)
        } else if code == DMDO_180 {
            Some(Orientation::Cw180)
        } else if code == DMDO_270 {
            Some(Orientation::Cw270)
        } else {
            None
        }
    }

    /// Encode this orientation as the native rotation code.
    pub fn to_native(&self) -> (code: u32)
        ensures
            code == self.spec_to_native(),
    {
        match self {
            Orientation::Zero => DMDO_DEFAULT,
            Orientation::Cw90 => DMDO_90,
            Orientation::Cw180 => DMDO_180,
            Orientation::Cw270 => DMDO_270,
        }
    }

    /// Decode a native rotation code; `None` for any code outside the four
    /// defined values.
    pub fn from_native(code: u32) -> (res: Option<Orientation>)
        ensures
            res == Orientation::spec_from_native(code),
    {
        if code == DMDO_DEFAULT {
            Some(Orientation::Zero)
        } else if code == DMDO_90 {
            Some(Orientation::Cw90)
        } else if code == DMDO_180 {
            Some(Orientation::Cw180)
        } else if code == DMDO_270 {
            Some(Orientation::Cw270)
        } else {
            None
        }
    }

    /// The clockwise angle of this orientation in degrees.
    pub fn degrees(&self) -> (d: u32)
        ensures
            d == match *self {
                Orientation::Zero => 0u32,
                Orientation::Cw90 => 90u32,
                Orientation::Cw180 => 180u32,
                Orientation::Cw270 => 270u32,
            },
    {
        match self {
            Orientation::Zero => 0,
            Orientation::Cw90 => 90,
            Orientation::Cw180 => 180,
            Orientation::Cw270 => 270,
        }
    }
}

/// Law: decoding succeeds exactly for the four defined native codes, and
/// re-encoding a decoded code gives the code back unchanged.
pub proof fn lemma_native_round_trip(code: u32)
    ensures
        (Orientation::spec_from_native(code) is Some) <==> (code == DMDO_DEFAULT || code == DMDO_90
            || code == DMDO_180 || code == DMDO_270),
        forall|o: Orientation|
            Orientation::spec_from_native(code) == Some(o) ==> o.spec_to_native() == code,
{
}

/// Law: every orientation survives the trip through its native code.
pub proof fn lemma_orientation_round_trip(o: Orientation)
    ensures
        Orientation::spec_from_native(o.spec_to_native()) == Some(o),
{
}

} // verus!
