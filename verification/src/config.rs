//! The settings model: the identities and choices `settings.json` stores,
//! the fixed paths and names, and the policy that picks a noise model.
//!
//! Reading and writing the JSON file, and every section that holds a
//! floating-point level, belong to the application around this library.

pub mod audio;
pub mod compat;
pub mod echo_cancel;
pub mod equalizer;
pub mod gain_safety;
pub mod noise_model;
pub mod output_filter;
pub mod paths;
pub mod quality;
pub mod runtime;
pub mod storage;
pub mod ui;

pub use audio::{
    GateConfig, StereoMode, GATE_INTENSITY_DEFAULT, GATE_INTENSITY_MAX, HPF_FREQUENCY_DEFAULT,
};
pub use echo_cancel::{EchoCancelConfig, EchoMode};
pub use equalizer::{eq_preset_bands, eq_preset_ids, EQ_BAND_COUNT, EQ_PRESET_DEFAULT};
pub use gain_safety::{pads_neural_input, GainSafety};
pub use noise_model::NoiseModel;
pub use output_filter::OutputChannelMode;
pub use paths::{
    app_id, app_version, config_dir, deepfilter_plugin, gettext_package, gtcrn_plugin, ladspa_dir,
    settings_file, APP_DATA_DIR, APP_ID, EQ_BANDS_HZ, GETTEXT_PACKAGE,
};
pub use quality::{choose_model, loadable, Machine, Quality};
pub use runtime::RuntimeConfig;
pub use ui::{UiConfig, WindowConfig};
