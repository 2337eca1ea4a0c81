//! The sound channel control word and the timer value for a tone frequency.
use vstd::prelude::*;

verus! {

/// Channel control: hold the last sample.
pub const SOUND_HOLD: u32 = 0x8000;
/// Channel control: start.
pub const SOUND_CONTROL_START: u32 = 0x8000_0000;

/// How a channel repeats its sample.
#[derive(Debug, Clone, Copy, PartialEq, Eq, Structural)]
pub enum RepeatMode {
    Manual,
    Infinite,
    Oneshot,
}

impl RepeatMode {
    /// The two-bit field value.
    pub open spec fn spec_value(self) -> u32 {
        match self {
            RepeatMode::Manual => 0,
            RepeatMode::Infinite => 1,
            RepeatMode::Oneshot => 2,
        }
    }

    /// The two-bit field value.
    pub fn value(self) -> (v: u32)
        ensures
            v == self.spec_value(),
    {
        match self {
            RepeatMode::Manual => 0,
            RepeatMode::Infinite => 1,
            RepeatMode::Oneshot => 2,
        }
    }
}

/// The sample format of a channel.
#[derive(Debug, Clone, Copy, PartialEq, Eq, Structural)]
pub enum SoundFormat {
    PCM8,
    PCM16,
    ADPCM,
    PSG,
}

impl SoundFormat {
    /// The two-bit field value.
    pub open spec fn spec_value(self) -> u32 {
        match self {
            SoundFormat::PCM8 => 0,
            SoundFormat::PCM16 => 1,
            SoundFormat::ADPCM => 2,
            SoundFormat::PSG => 3,
        }
    }

    /// The two-bit field value.
    pub fn value(self) -> (v: u32)
        ensures
            v == self.spec_value(),
    {
        match self {
            SoundFormat::PCM8 => 0,
            SoundFormat::PCM16 => 1,
            SoundFormat::ADPCM => 2,
            SoundFormat::PSG => 3,
        }
    }
}

/// The control word of a sound channel.
#[derive(Debug, Clone, Copy, PartialEq, Eq, Structural)]
pub struct SoundControl(pub u32);

impl SoundControl {
    /// The word with the repeat mode replaced.
    pub fn with_repeat_mode(self, mode: RepeatMode) -> (c: Self)
        ensures
            c.0 == (mode.spec_value() << 27u32) | (self.0 & !(3u32 << 27u32)),
    {
        SoundControl((mode.value() << 27u32) | (self.0 & !(3u32 << 27u32)))
    }

    /// The word with the sample format replaced.
    pub fn with_sound_format(self, format: SoundFormat) -> (c: Self)
        ensures
            c.0 == (format.spec_value() << 29u32) | (self.0 & !(3u32 << 29u32)),
    {
        SoundControl((format.value() << 29u32) | (self.0 & !(3u32 << 29u32)))
    }

    /// The word with the volume (seven bits) replaced.
    pub fn with_volume(self, volume: u8) -> (c: Self)
        ensures
            c.0 == ((volume as u32) & 0x7F) | (self.0 & !0x7Fu32),
    {
        SoundControl(((volume as u32) & 0x7F) | (self.0 & !0x7Fu32))
    }

    /// The word with the panning (seven bits) replaced.
    pub fn with_panning(self, panning: u8) -> (c: Self)
        ensures
            c.0 == (((panning as u32) & 0x7F) << 16u32) | (self.0 & !0x7F_0000u32),
    {
        SoundControl((((panning as u32) & 0x7F) << 16u32) | (self.0 & !0x7F_0000u32))
    }

    /// The volume field.
    pub fn volume(&self) -> (v: u8)
        ensures
            v == self.0 % 128,
    {
        (self.0 % 0x80) as u8
    }

    /// A started one-shot PSG tone at half panning and full volume.
    pub fn new() -> (c: Self)
        ensures
            c == SoundControl(SOUND_CONTROL_START).spec_with_repeat_mode(RepeatMode::Oneshot)
                .spec_with_sound_format(SoundFormat::PSG).spec_with_panning(64).spec_with_volume(127),
    {
        SoundControl(SOUND_CONTROL_START).with_repeat_mode(RepeatMode::Oneshot).with_sound_format(
            SoundFormat::PSG,
        ).with_panning(64).with_volume(127)
    }

    /// The word with the repeat mode replaced.
    pub open spec fn spec_with_repeat_mode(self, mode: RepeatMode) -> Self {
        SoundControl((mode.spec_value() << 27u32) | (self.0 & !(3u32 << 27u32)))
    }

    /// The word with the sample format replaced.
    pub open spec fn spec_with_sound_format(self, format: SoundFormat) -> Self {
        SoundControl((format.spec_value() << 29u32) | (self.0 & !(3u32 << 29u32)))
    }

    /// The word with the volume replaced.
    pub open spec fn spec_with_volume(self, volume: u8) -> Self {
        SoundControl(((volume as u32) & 0x7F) | (self.0 & !0x7Fu32))
    }

    /// The word with the panning replaced.
    pub open spec fn spec_with_panning(self, panning: u8) -> Self {
        SoundControl((((panning as u32) & 0x7F) << 16u32) | (self.0 & !0x7F_0000u32))
    }
}

/// Setting the volume and reading it back gives its low seven bits, and the
/// rest of the word is kept.
pub proof fn law_volume_round_trip(c: SoundControl, volume: u8)
    ensures
        c.spec_with_volume(volume).0 % 128 == volume % 128,
        c.spec_with_volume(volume).0 & !0x7Fu32 == c.0 & !0x7Fu32,
{
    let w = c.0;
    let v = volume as u32;
    assert(((v & 0x7F) | (w & !0x7Fu32)) % 128 == v % 128 && ((v & 0x7F) | (w & !0x7Fu32))
        & !0x7Fu32 == w & !0x7Fu32) by (bit_vector);
}

/// Half the system clock: the sound timers count at this rate.
pub const SOUND_CLOCK: u32 = 33513982 / 2;

/// The reload value of a sound timer for a tone of `freq` hertz: the timer
/// overflows after `SOUND_CLOCK / freq` ticks, kept to 16 bits.
pub fn timer_from_freq(freq: u32) -> (t: u16)
    requires
        freq > 0,
    ensures
        t == 0xFFFF - (SOUND_CLOCK / freq) % 0x1_0000,
{
    let ticks: u16 = ((SOUND_CLOCK / freq) % 0x1_0000) as u16;
    0xFFFF - ticks
}

proof fn lemma_two_bit_field(v: u32, x: u32, sh: u32)
    by (bit_vector)
    requires
        v < 4,
        sh <= 30,
    ensures
        (((v << sh) | (x & !(3u32 << sh))) >> sh) & 3 == v,
        ((v << sh) | (x & !(3u32 << sh))) & !(3u32 << sh) == x & !(3u32 << sh),
{
}

/// The sample format lands in bits 29 and 30 of the control word with the
/// hardware's numbering: 8-bit PCM 0, 16-bit PCM 1, ADPCM 2, PSG/noise 3; so
/// different formats give different words. Every other bit is kept.
pub proof fn law_sound_format_field(c: SoundControl, format: SoundFormat)
    ensures
        ({
            let w = c.spec_with_sound_format(format).0;
            &&& (w >> 29u32) & 3 == match format {
                SoundFormat::PCM8 => 0u32,
                SoundFormat::PCM16 => 1u32,
                SoundFormat::ADPCM => 2u32,
                SoundFormat::PSG => 3u32,
            }
            &&& w & !(3u32 << 29u32) == c.0 & !(3u32 << 29u32)
        }),
        forall|f: SoundFormat, g: SoundFormat| f != g ==> #[trigger] c.spec_with_sound_format(f)
            != #[trigger] c.spec_with_sound_format(g),
{
    lemma_two_bit_field(format.spec_value(), c.0, 29);
    assert forall|f: SoundFormat, g: SoundFormat| f != g implies #[trigger] c.spec_with_sound_format(f)
        != #[trigger] c.spec_with_sound_format(g) by {
        lemma_two_bit_field(f.spec_value(), c.0, 29);
        lemma_two_bit_field(g.spec_value(), c.0, 29);
    }
}

/// The repeat mode lands in bits 27 and 28 of the control word with the
/// hardware's numbering: manual 0, looping 1, one-shot 2. Every other bit is
/// kept.
pub proof fn law_repeat_mode_field(c: SoundControl, mode: RepeatMode)
    ensures
        ({
            let w = c.spec_with_repeat_mode(mode).0;
            &&& (w >> 27u32) & 3 == match mode {
                RepeatMode::Manual => 0u32,
                RepeatMode::Infinite => 1u32,
                RepeatMode::Oneshot => 2u32,
            }
            &&& w & !(3u32 << 27u32) == c.0 & !(3u32 << 27u32)
        }),
{
    lemma_two_bit_field(mode.spec_value(), c.0, 27);
}

} // verus!
