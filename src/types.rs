//! The closed value sets exchanged with the player module.

use vstd::prelude::*;

verus! {

/// Specify Playback mode for DFPlayer
#[derive(Debug, Copy, Clone, PartialEq, Eq, Structural)]
pub enum PlaybackMode {
    /// Repeat the current track
    Repeat,
    /// Repeat all tracks in the folder
    FolderRepeat,
    /// Repeat a single track
    SingleRepeat,
    /// Random track in folder
    Random,
}

impl PlaybackMode {
    /// The byte that stands for this mode on the wire.
    pub open spec fn spec_byte(self) -> u8 {
        match self {
            PlaybackMode::Repeat => 0x00,
            PlaybackMode::FolderRepeat => 0x01,
            PlaybackMode::SingleRepeat => 0x02,
            PlaybackMode::Random => 0x03,
        }
    }

    /// The wire byte of this mode.
    pub fn to_u8(self) -> (r: u8)
        ensures
            r == self.spec_byte(),
    {
        match self {
            PlaybackMode::Repeat => 0x00,
            PlaybackMode::FolderRepeat => 0x01,
            PlaybackMode::SingleRepeat => 0x02,
            PlaybackMode::Random => 0x03,
        }
    }

    /// The mode a wire byte stands for; `None` for a byte outside the set.
    pub fn from_u8(b: u8) -> (r: Option<PlaybackMode>)
        ensures
            r is Some <==> b <= 0x03,
            r matches Some(m) ==> m.spec_byte() == b,
    {
        match b {
            0x00 => Some(PlaybackMode::Repeat),
            0x01 => Some(PlaybackMode::FolderRepeat),
            0x02 => Some(PlaybackMode::SingleRepeat),
            0x03 => Some(PlaybackMode::Random),
            _ => None,
        }
    }
}

/// Possible values for the equalizer
#[derive(Debug, Copy, Clone, PartialEq, Eq, Structural)]
pub enum Equalizer {
    /// Flat response
    Normal,
    /// Pop preset
    Pop,
    /// Rock preset
    Rock,
    /// Jazz preset
    Jazz,
    /// Classic preset
    Classic,
    /// Bass preset
    Bass,
}

impl Equalizer {
    /// The byte that stands for this setting on the wire.
    pub open spec fn spec_byte(self) -> u8 {
        match self {
            Equalizer::Normal => 0x00,
            Equalizer::Pop => 0x01,
            Equalizer::Rock => 0x02,
            Equalizer::Jazz => 0x03,
            Equalizer::Classic => 0x04,
            Equalizer::Bass => 0x05,
        }
    }

    /// The wire byte of this setting.
    pub fn to_u8(self) -> (r: u8)
        ensures
            r == self.spec_byte(),
    {
        match self {
            Equalizer::Normal => 0x00,
            Equalizer::Pop => 0x01,
            Equalizer::Rock => 0x02,
            Equalizer::Jazz => 0x03,
            Equalizer::Classic => 0x04,
            Equalizer::Bass => 0x05,
        }
    }

    /// The setting a wire byte stands for; `None` for a byte outside the set.
    pub fn from_u8(b: u8) -> (r: Option<Equalizer>)
        ensures
            r is Some <==> b <= 0x05,
            r matches Some(e) ==> e.spec_byte() == b,
    {
        match b {
            0x00 => Some(Equalizer::Normal),
            0x01 => Some(Equalizer::Pop),
            0x02 => Some(Equalizer::Rock),
            0x03 => Some(Equalizer::Jazz),
            0x04 => Some(Equalizer::Classic),
            0x05 => Some(Equalizer::Bass),
            _ => None,
        }
    }
}

/// States the player module reports
#[derive(Debug, Copy, Clone, PartialEq, Eq, Structural)]
pub enum State {
    /// Player is playing a track
    Busy,
    /// Player is in sleep mode
    Sleeping,
    /// Something is wrong with the serial interface
    SerialWrongStack,
    /// The checksum in the message is not ok
    CheckSumNotMatch,
    /// Something is wrong with the file index
    FileIndexOut,
    /// Something is wrong with the file
    FileMismatch,
    /// Playing an advertisement
    Advertise,
}

impl State {
    /// The byte that stands for this state on the wire.
    pub open spec fn spec_byte(self) -> u8 {
        match self {
            State::Busy => 0x01,
            State::Sleeping => 0x02,
            State::SerialWrongStack => 0x03,
            State::CheckSumNotMatch => 0x04,
            State::FileIndexOut => 0x05,
            State::FileMismatch => 0x06,
            State::Advertise => 0x07,
        }
    }

    /// The wire byte of this state.
    pub fn to_u8(self) -> (r: u8)
        ensures
            r == self.spec_byte(),
    {
        match self {
            State::Busy => 0x01,
            State::Sleeping => 0x02,
            State::SerialWrongStack => 0x03,
            State::CheckSumNotMatch => 0x04,
            State::FileIndexOut => 0x05,
            State::FileMismatch => 0x06,
            State::Advertise => 0x07,
        }
    }

    /// The state a wire byte stands for; `None` for a byte outside the set.
    pub fn from_u8(b: u8) -> (r: Option<State>)
        ensures
            r is Some <==> 0x01 <= b <= 0x07,
            r matches Some(s) ==> s.spec_byte() == b,
    {
        match b {
            0x01 => Some(State::Busy),
            0x02 => Some(State::Sleeping),
            0x03 => Some(State::SerialWrongStack),
            0x04 => Some(State::CheckSumNotMatch),
            0x05 => Some(State::FileIndexOut),
            0x06 => Some(State::FileMismatch),
            0x07 => Some(State::Advertise),
            _ => None,
        }
    }
}

/// Devices that can be used for playback
#[derive(Debug, Copy, Clone, PartialEq, Eq, Structural)]
pub enum Device {
    /// USB storage
    UDisk,
    /// SD card
    SD,
    /// Auxiliary input
    Aux,
    /// Sleep
    Sleep,
    /// On-board flash
    Flash,
}

impl Device {
    /// The byte that stands for this device on the wire.
    pub open spec fn spec_byte(self) -> u8 {
        match self {
            Device::UDisk => 0x01,
            Device::SD => 0x02,
            Device::Aux => 0x03,
            Device::Sleep => 0x04,
            Device::Flash => 0x05,
        }
    }

    /// The wire byte of this device.
    pub fn to_u8(self) -> (r: u8)
        ensures
            r == self.spec_byte(),
    {
        match self {
            Device::UDisk => 0x01,
            Device::SD => 0x02,
            Device::Aux => 0x03,
            Device::Sleep => 0x04,
            Device::Flash => 0x05,
        }
    }

    /// The device a wire byte stands for; `None` for a byte outside the set.
    pub fn from_u8(b: u8) -> (r: Option<Device>)
        ensures
            r is Some <==> 0x01 <= b <= 0x05,
            r matches Some(d) ==> d.spec_byte() == b,
    {
        match b {
            0x01 => Some(Device::UDisk),
            0x02 => Some(Device::SD),
            0x03 => Some(Device::Aux),
            0x04 => Some(Device::Sleep),
            0x05 => Some(Device::Flash),
            _ => None,
        }
    }
}

} // verus!
