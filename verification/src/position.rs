//! The microphone's DSP operating mode and its wire-level code.

use vstd::prelude::*;
use vstd::std_specs::convert::TryFromSpecImpl;

verus! {

/// Where the speaker sits relative to the microphone, as the firmware's DSP sees it.
///
/// The firmware names each position by an integer mode code. Only the two codes
/// below are positions; every other code is an unrecognised state.
#[derive(Clone, Copy, Debug, PartialEq, Eq, Structural)]
pub enum MicPosition {
    Near,
    Far,
}

/// Mode code the firmware uses for [`MicPosition::Near`].
pub const NEAR_CODE: u8 = 2;

/// Mode code the firmware uses for [`MicPosition::Far`].
pub const FAR_CODE: u8 = 5;

impl MicPosition {
    /// The mode code that stands for this position on the wire.
    pub open spec fn spec_code(self) -> u8 {
        match self {
            MicPosition::Near => NEAR_CODE,
            MicPosition::Far => FAR_CODE,
        }
    }

    /// The position a mode code stands for, if it stands for one.
    pub open spec fn of_code(value: u8) -> Option<MicPosition> {
        if value == NEAR_CODE {
            Some(MicPosition::Near)
        } else if value == FAR_CODE {
            Some(MicPosition::Far)
        } else {
            None
        }
    }

    /// The mode code that stands for this position on the wire.
    #[verifier::when_used_as_spec(spec_code)]
    pub fn code(self) -> (code: u8)
        ensures
            code == self.spec_code(),
    {
        match self {
            MicPosition::Near => NEAR_CODE,
            MicPosition::Far => FAR_CODE,
        }
    }
}

impl TryFrom<u8> for MicPosition {
    type Error = ();

    /// Maps a mode code to its position, and rejects every code that names none.
    fn try_from(value: u8) -> (res: Result<Self, Self::Error>) {
        if value == NEAR_CODE {
            Ok(MicPosition::Near)
        } else if value == FAR_CODE {
            Ok(MicPosition::Far)
        } else {
            Err(())
        }
    }
}

impl TryFromSpecImpl<u8> for MicPosition {
    open spec fn obeys_try_from_spec() -> bool {
        true
    }

    open spec fn try_from_spec(value: u8) -> Result<Self, Self::Error> {
        match MicPosition::of_code(value) {
            Some(position) => Ok(position),
            None => Err(()),
        }
    }
}

/// A position's code maps back to that position, and a code that maps to a
/// position is that position's code: the mapping is one-to-one in both directions.
pub proof fn code_round_trip(position: MicPosition, value: u8)
    ensures
        MicPosition::of_code(position.spec_code()) == Some(position),
        MicPosition::of_code(value) == Some(position) <==> value == position.spec_code(),
{
}

} // verus!
