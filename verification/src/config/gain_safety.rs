//! Sample-peak protection, not a true-peak or mastering limiter.
use vstd::prelude::*;

use crate::config::noise_model::NoiseModel;

verus! {

/// Whether boosts are held under a shared headroom budget.
#[derive(Debug, Clone, Copy, PartialEq, Eq, Structural)]
pub enum GainSafety {
    Automatic,
    Unrestricted,
}

impl Default for GainSafety {
    fn default() -> (r: Self)
        ensures
            r == GainSafety::Automatic,
    {
        GainSafety::Automatic
    }
}

/// Whether a denoiser wants the fixed pad before it and the exact makeup
/// after it: only an attenuation-only model, while noise reduction is on and
/// gain safety is not switched off. GTCRN is never padded, because its gate
/// thresholds sit on the same node in dB and a pad would move them.
pub fn pads_neural_input(safety: GainSafety, noise_reduction: bool, model: NoiseModel) -> (r: bool)
    ensures
        r == (safety == GainSafety::Automatic && noise_reduction && model != NoiseModel::GtcrnDns3
            && model != NoiseModel::GtcrnVctk),
{
    if safety == GainSafety::Unrestricted {
        return false;
    }
    noise_reduction && model.is_attenuation_only()
}

} // verus!
