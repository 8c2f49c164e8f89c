//! Which parts of the microphone chain are wanted.
//!
//! The chain is materialised only while some processing is asked for; the
//! switches that decide it are plain flags and modes of the settings, so
//! the decision is made here on them alone.
use vstd::prelude::*;

use crate::config::echo_cancel::EchoMode;
use crate::config::noise_model::NoiseModel;
use crate::config::audio::StereoMode;

verus! {

/// The on/off switches of the microphone side of the settings.
#[derive(Debug, Clone, Copy, PartialEq, Eq, Structural)]
pub struct MicSwitches {
    /// Every microphone effect is bypassed at once.
    pub mic_bypass: bool,
    pub noise_reduction: bool,
    pub model: NoiseModel,
    pub gate: bool,
    pub hpf: bool,
    pub stereo: bool,
    pub stereo_mode: StereoMode,
    pub equalizer: bool,
    pub compressor: bool,
    /// What the echo canceller is doing.
    pub echo_cancel: bool,
    /// What was asked of the echo canceller.
    pub echo_mode: EchoMode,
}

/// Some microphone processing is asked for and not bypassed.
pub open spec fn mic_wanted(s: MicSwitches) -> bool {
    !s.mic_bypass && (s.noise_reduction || s.gate || s.hpf || s.stereo || s.equalizer
        || s.compressor || s.echo_cancel)
}

/// The denoiser node is in the chain: noise reduction is on, or the
/// silence filter is on and is built into the chosen GTCRN denoiser.
pub open spec fn ai_node_wanted(s: MicSwitches) -> bool {
    !s.mic_bypass && (s.noise_reduction || (s.gate && (s.model == NoiseModel::GtcrnDns3
        || s.model == NoiseModel::GtcrnVctk)))
}

/// The switches of freshly defaulted settings.
pub open spec fn default_switches() -> MicSwitches {
    MicSwitches {
        mic_bypass: false,
        noise_reduction: true,
        model: NoiseModel::GtcrnDns3,
        gate: false,
        hpf: false,
        stereo: true,
        stereo_mode: StereoMode::Mono,
        equalizer: false,
        compressor: false,
        echo_cancel: true,
        echo_mode: EchoMode::Automatic,
    }
}

impl Default for MicSwitches {
    /// Noise reduction with the default model, stereo (mono mode) and
    /// automatic echo cancellation on; everything else off.
    fn default() -> (r: Self)
        ensures
            r == default_switches(),
    {
        MicSwitches {
            mic_bypass: false,
            noise_reduction: true,
            model: NoiseModel::GtcrnDns3,
            gate: false,
            hpf: false,
            stereo: true,
            stereo_mode: StereoMode::Mono,
            equalizer: false,
            compressor: false,
            echo_cancel: true,
            echo_mode: EchoMode::Automatic,
        }
    }
}

impl MicSwitches {
    /// Whether the settings ask for any microphone processing; when not,
    /// the chain is not written at all.
    pub fn mic_chain_wanted(&self) -> (r: bool)
        ensures
            r == mic_wanted(*self),
    {
        !self.mic_bypass && (self.noise_reduction || self.gate || self.hpf || self.stereo
            || self.equalizer || self.compressor || self.echo_cancel)
    }

    /// Whether the denoiser node belongs in the microphone graph. A GTCRN
    /// denoiser also runs the silence filter in the same instance, so the
    /// node stays while either noise reduction or that filter is wanted.
    pub fn ai_node_in_mic_chain(&self) -> (r: bool)
        ensures
            r == ai_node_wanted(*self),
    {
        !self.mic_bypass && (self.noise_reduction || (self.gate
            && !self.model.is_attenuation_only()))
    }

    /// Turn every microphone effect off in one go, the echo canceller's
    /// mode included, so that one "off" reaches every reason the chain
    /// would stay up. The model, the stereo mode and the bypass are kept.
    pub fn cascade_mic_off(&mut self)
        ensures
            *final(self) == (MicSwitches {
                noise_reduction: false,
                gate: false,
                hpf: false,
                stereo: false,
                equalizer: false,
                compressor: false,
                echo_cancel: false,
                echo_mode: EchoMode::Never,
                ..*old(self)
            }),
            !mic_wanted(*final(self)),
    {
        self.noise_reduction = false;
        self.echo_mode = EchoMode::Never;
        self.echo_cancel = false;
        self.gate = false;
        self.hpf = false;
        self.stereo = false;
        self.equalizer = false;
        self.compressor = false;
    }
}

/// After the cascade, no switch keeps the chain wanted, and switching any
/// single effect back on wants it again (unless everything is bypassed).
pub proof fn cascade_leaves_each_flag_decisive(s: MicSwitches)
    ensures
        ({
            let off = MicSwitches {
                noise_reduction: false,
                gate: false,
                hpf: false,
                stereo: false,
                equalizer: false,
                compressor: false,
                echo_cancel: false,
                echo_mode: EchoMode::Never,
                ..s
            };
            &&& !mic_wanted(off)
            &&& mic_wanted(MicSwitches { noise_reduction: true, ..off }) == !s.mic_bypass
            &&& mic_wanted(MicSwitches { gate: true, ..off }) == !s.mic_bypass
            &&& mic_wanted(MicSwitches { hpf: true, ..off }) == !s.mic_bypass
            &&& mic_wanted(MicSwitches { stereo: true, ..off }) == !s.mic_bypass
            &&& mic_wanted(MicSwitches { equalizer: true, ..off }) == !s.mic_bypass
            &&& mic_wanted(MicSwitches { compressor: true, ..off }) == !s.mic_bypass
            &&& mic_wanted(MicSwitches { echo_cancel: true, ..off }) == !s.mic_bypass
        }),
{
}

/// The denoiser node is only ever in a chain that is wanted.
pub proof fn ai_node_implies_chain(s: MicSwitches)
    ensures
        ai_node_wanted(s) ==> mic_wanted(s),
{
}


/// The denoiser node stays in the microphone chain while either reason for
/// it is wanted: noise reduction, or the silence gate of a GTCRN model,
/// which runs inside the same node. It is never there when the microphone
/// is bypassed, nor for an attenuation-only model with noise reduction
/// off, whose gate is a node of its own.
pub proof fn the_denoiser_stays_for_either_reason(s: MicSwitches)
    ensures
        !s.mic_bypass && s.noise_reduction ==> ai_node_wanted(s),
        !s.mic_bypass && s.gate && !s.model.is_attenuation_only() ==> ai_node_wanted(s),
        s.mic_bypass ==> !ai_node_wanted(s),
        !s.noise_reduction && s.model.is_attenuation_only() ==> !ai_node_wanted(s),
        !s.noise_reduction && !s.gate ==> !ai_node_wanted(s),
{
}

} // verus!
