//! Silence-filter and stereo settings of the microphone chain.
use vstd::prelude::*;

verus! {

/// Gate intensity where a freshly enabled gate starts: enough to clamp
/// keyboard and fan noise without chopping voice tails.
pub const GATE_INTENSITY_DEFAULT: u8 = 30;
/// Top of the intensity scale of the silence filter.
pub const GATE_INTENSITY_MAX: u8 = 50;
/// Cutoff of the high-pass filter when none is chosen, in Hz: it keeps the
/// lowest adult voices (about 85 Hz) and removes rumble and mains hum.
pub const HPF_FREQUENCY_DEFAULT: u32 = 80;

/// The silence filter.
#[derive(Debug, Clone, Copy, PartialEq, Eq, Structural)]
pub struct GateConfig {
    pub enabled: bool,
    /// Intensity on the scale `0..=GATE_INTENSITY_MAX`.
    pub intensity: u8,
}

impl GateConfig {
    /// The intensity the silence filter is driven with: the stored value,
    /// capped at the top of the scale.
    pub fn effective_intensity(&self) -> (r: u8)
        ensures
            r == if self.intensity <= GATE_INTENSITY_MAX {
                self.intensity
            } else {
                GATE_INTENSITY_MAX
            },
    {
        if self.intensity <= GATE_INTENSITY_MAX {
            self.intensity
        } else {
            GATE_INTENSITY_MAX
        }
    }
}

impl Default for GateConfig {
    /// Off, with the slider at its default position.
    fn default() -> (r: Self)
        ensures
            !r.enabled,
            r.intensity == GATE_INTENSITY_DEFAULT,
    {
        GateConfig { enabled: false, intensity: GATE_INTENSITY_DEFAULT }
    }
}

/// Stereo processing applied to the captured microphone.
#[derive(Debug, Clone, Copy, PartialEq, Eq, Structural)]
pub enum StereoMode {
    Mono,
    DualMono,
    VoiceChanger,
}

impl StereoMode {
    /// The word `settings.json` stores for this mode.
    pub fn word(self) -> (r: &'static str)
        ensures
            r@ == stereo_word(self),
    {
        match self {
            StereoMode::Mono => "mono",
            StereoMode::DualMono => "dual_mono",
            StereoMode::VoiceChanger => "voice_changer",
        }
    }
}

/// The stored word of each stereo mode.
pub open spec fn stereo_word(m: StereoMode) -> Seq<char> {
    match m {
        StereoMode::Mono => "mono"@,
        StereoMode::DualMono => "dual_mono"@,
        StereoMode::VoiceChanger => "voice_changer"@,
    }
}

impl Default for StereoMode {
    fn default() -> (r: Self)
        ensures
            r == StereoMode::Mono,
    {
        StereoMode::Mono
    }
}

} // verus!
