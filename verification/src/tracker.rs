//! Descriptions of the other sound formats the player knows: WAV streams and
//! Impulse Tracker modules.
use vstd::prelude::*;

verus! {

/// How the samples of a WAV stream are stored.
#[derive(Debug, Clone, Copy, PartialEq, Eq, Structural)]
pub enum SampleType {
    Unsigned8Bit,
    Unsigned16Bit,
}

/// The format of a WAV stream.
#[derive(Debug, Clone, Copy, PartialEq, Eq, Structural)]
pub struct WavHeader {
    pub channels: u16,
    pub sample_frequency: u32,
    pub sample_type: SampleType,
}

/// A WAV stream being played: its format, the buffer it is streamed through,
/// and its length.
pub struct WavPlay {
    pub header: WavHeader,
    pub scratch_buffer: Vec<u8>,
    pub len: usize,
}

/// An entry of an Impulse Tracker order list.
pub struct ITOrder {}

/// An Impulse Tracker sample.
pub struct ITSample {}

/// An Impulse Tracker instrument.
pub struct ITInstrument {}

/// An Impulse Tracker pattern.
pub struct ITPattern {}

/// The header of an Impulse Tracker module, with the lists it points to.
pub struct ITHeader {
    pub signature: [u8; 4],
    pub name: [u8; 26],
    pub highlight: u16,
    pub order_number: u16,
    pub instrument_number: u16,
    pub sample_number: u16,
    pub pattern_number: u16,
    pub tracker_version: u16,
    pub format_version: u16,
    pub flags: u16,
    pub special: u16,
    pub global_volume: u8,
    pub mix_volume: u8,
    pub initial_speed: u8,
    pub initial_tempo: u8,
    pub panning_seperation: u8,
    pub pitch_wheel_depth: u8,
    pub message_length: u16,
    pub message: u16,
    pub offset: u16,
    pub reserved: u32,
    pub channel_panning: [u8; 64],
    pub channel_volume: [u8; 64],
    pub orders: Vec<ITOrder>,
    pub samples: Vec<ITSample>,
    pub instruments: Vec<ITInstrument>,
    pub patterns: Vec<ITPattern>,
}

} // verus!
