//! Channel layout of the output filter, which processes what the user hears.
use vstd::prelude::*;

verus! {

/// Spatial audio is preserved unless the user explicitly chooses mono.
#[derive(Debug, Clone, Copy, PartialEq, Eq, Structural)]
pub enum OutputChannelMode {
    Stereo,
    Mono,
}

impl Default for OutputChannelMode {
    fn default() -> (r: Self)
        ensures
            r == OutputChannelMode::Stereo,
    {
        OutputChannelMode::Stereo
    }
}

} // verus!
