//! Optional loader resource policies; automatic system scheduling is the
//! default.
use vstd::prelude::*;

verus! {

/// Expert, opt-in policies of the loader processes.
#[derive(Debug, Clone, Copy, PartialEq, Eq, Structural)]
pub struct RuntimeConfig {
    /// Pin the loaders to the fastest CPUs.
    pub prefer_fast_cpus: bool,
    /// Lock the loaders' current mappings in memory.
    pub reserve_memory: bool,
}

impl Default for RuntimeConfig {
    fn default() -> (r: Self)
        ensures
            !r.prefer_fast_cpus,
            !r.reserve_memory,
    {
        RuntimeConfig { prefer_fast_cpus: false, reserve_memory: false }
    }
}

} // verus!
