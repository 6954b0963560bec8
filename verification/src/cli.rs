//! The commands a user can give, and the operation each one stands for.

use vstd::prelude::*;
use crate::machine::Operation;
use crate::position::MicPosition;

verus! {

/// A parsed command line.
#[derive(Clone, Copy, Debug, PartialEq, Eq, Structural)]
pub struct Cli {
    pub command: Commands,
}

/// What the user asks for.
#[allow(inconsistent_fields)]
#[derive(Clone, Copy, Debug, PartialEq, Eq, Structural)]
pub enum Commands {
    /// Reset the connected microphone.
    Reset,
    /// Display all current settings of the connected microphone.
    Status,
    /// Mute or unmute the microphone.
    Mute { state: MuteState },
    /// Say whether the microphone is near to or far from the mouth.
    Position { state: PositionState },
    /// Slight vocal filters.
    Tone { state: ToneState },
}

#[derive(Clone, Copy, Debug, PartialEq, Eq, Structural)]
pub enum MuteState {
    /// Mutes the microphone.
    On,
    /// Unmutes the microphone.
    Off,
}

#[derive(Clone, Copy, Debug, PartialEq, Eq, Structural)]
pub enum PositionState {
    Near,
    Far,
}

#[derive(Clone, Copy, Debug, PartialEq, Eq, Structural)]
pub enum ToneState {
    Dark,
    Natural,
    Bright,
}

impl MuteState {
    /// Whether this state is the muted one.
    pub open spec fn spec_muted(self) -> bool {
        self is On
    }

    /// Whether this state is the muted one.
    #[verifier::when_used_as_spec(spec_muted)]
    pub fn muted(self) -> (muted: bool)
        ensures
            muted == self.spec_muted(),
    {
        match self {
            MuteState::On => true,
            MuteState::Off => false,
        }
    }
}

impl PositionState {
    /// The position this state names.
    pub open spec fn spec_position(self) -> MicPosition {
        match self {
            PositionState::Near => MicPosition::Near,
            PositionState::Far => MicPosition::Far,
        }
    }

    /// The position this state names.
    #[verifier::when_used_as_spec(spec_position)]
    pub fn position(self) -> (position: MicPosition)
        ensures
            position == self.spec_position(),
    {
        match self {
            PositionState::Near => MicPosition::Near,
            PositionState::Far => MicPosition::Far,
        }
    }
}

impl Commands {
    /// The operation that carries out this command. Tone control has none:
    /// the device's tone settings are not supported.
    pub open spec fn spec_operation(self) -> Option<Operation> {
        match self {
            Commands::Reset => Some(Operation::Reset),
            Commands::Status => Some(Operation::Status),
            Commands::Mute { state } => Some(Operation::SetMute(state.spec_muted())),
            Commands::Position { state } => Some(Operation::SetMicPosition(state.spec_position())),
            Commands::Tone { state } => None,
        }
    }

    /// The operation that carries out this command, or `None` for a command
    /// that no operation carries out.
    #[verifier::when_used_as_spec(spec_operation)]
    pub fn operation(self) -> (operation: Option<Operation>)
        ensures
            operation == self.spec_operation(),
    {
        match self {
            Commands::Reset => Some(Operation::Reset),
            Commands::Status => Some(Operation::Status),
            Commands::Mute { state } => Some(Operation::SetMute(state.muted())),
            Commands::Position { state } => Some(Operation::SetMicPosition(state.position())),
            Commands::Tone { state: _ } => None,
        }
    }
}

} // verus!
