//! AI noise reduction for PipeWire: the settings model, the text PipeWire
//! and WirePlumber read and print, and the decisions that keep the running
//! graph in line with what was asked for.

pub mod config;
pub mod pipeline;
pub mod services;
pub mod text;
pub mod text_laws;
pub mod diagnostics;
pub mod pwloader;
pub mod cli;
pub mod probe;
pub mod agc;
