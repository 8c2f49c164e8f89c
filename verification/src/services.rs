//! PipeWire queries, the reconciler's decisions and the quantum preview.

pub mod pipewire;
pub mod audio_monitor;
pub mod echo;
pub mod preview;
pub mod reconcile;
