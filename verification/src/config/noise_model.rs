//! Persisted denoiser identities and the installed LADSPA runtime contract.
//!
//! The number of each model is stored in users' settings files, so every
//! model keeps its number forever: new models are appended, never
//! renumbered.
use vstd::prelude::*;

use crate::text::{extend_str, from_chars};

verus! {

/// Filesystem directory that hosts the LADSPA plugins.
pub const LADSPA_DIR_PATH: &'static str = "/usr/lib/ladspa";
/// The GTCRN plugin.
pub const GTCRN_LADSPA_PATH: &'static str = "/usr/lib/ladspa/libgtcrn_ladspa.so";
/// The DeepFilterNet plugin.
pub const DEEPFILTER_LADSPA_PATH: &'static str = "/usr/lib/ladspa/libdeep_filter_ladspa.so";
/// The high-resolution 48 kHz DPDFNet v2 plugin.
pub const DPDFNET_V2_HR_LADSPA_PATH: &'static str =
    "/usr/lib/ladspa/libdpdfnet_dpdfnet2_48khz_hr_ladspa.so";
/// The high-resolution 48 kHz DPDFNet v8 plugin.
pub const DPDFNET_V8_HR_LADSPA_PATH: &'static str =
    "/usr/lib/ladspa/libdpdfnet_dpdfnet8_48khz_hr_ladspa.so";
/// The DPDFNet baseline (16 kHz) plugin.
pub const DPDFNET_BASELINE_LADSPA_PATH: &'static str =
    "/usr/lib/ladspa/libdpdfnet_baseline_ladspa.so";
/// The 16 kHz DPDFNet v2 plugin.
pub const DPDFNET_V2_16K_LADSPA_PATH: &'static str = "/usr/lib/ladspa/libdpdfnet_dpdfnet2_ladspa.so";
/// The 16 kHz DPDFNet v4 plugin.
pub const DPDFNET_V4_16K_LADSPA_PATH: &'static str = "/usr/lib/ladspa/libdpdfnet_dpdfnet4_ladspa.so";
/// The 16 kHz DPDFNet v8 plugin.
pub const DPDFNET_V8_16K_LADSPA_PATH: &'static str = "/usr/lib/ladspa/libdpdfnet_dpdfnet8_ladspa.so";

/// LADSPA label of the GTCRN mono reducer.
pub const LABEL_GTCRN_MONO: &'static str = "gtcrn_mono";
/// LADSPA label of the DeepFilterNet mono reducer.
pub const LABEL_DEEPFILTER_MONO: &'static str = "deep_filter_mono";
/// LADSPA label of the high-resolution DPDFNet v2.
pub const LABEL_DPDFNET_V2_HR_MONO: &'static str = "dpdfnet2_48khz_hr_mono";
/// LADSPA label of the high-resolution DPDFNet v8.
pub const LABEL_DPDFNET_V8_HR_MONO: &'static str = "dpdfnet8_48khz_hr_mono";
/// LADSPA label of the DPDFNet baseline.
pub const LABEL_DPDFNET_BASELINE_MONO: &'static str = "baseline_mono";
/// LADSPA label of the 16 kHz DPDFNet v2.
pub const LABEL_DPDFNET_V2_16K_MONO: &'static str = "dpdfnet2_mono";
/// LADSPA label of the 16 kHz DPDFNet v4.
pub const LABEL_DPDFNET_V4_16K_MONO: &'static str = "dpdfnet4_mono";
/// LADSPA label of the 16 kHz DPDFNet v8.
pub const LABEL_DPDFNET_V8_16K_MONO: &'static str = "dpdfnet8_mono";

/// Stable identifier of a noise-reduction model.
#[derive(Debug, Clone, Copy, PartialEq, Eq, Structural)]
pub enum NoiseModel {
    /// GTCRN trained on DNS3, number 0. The default.
    GtcrnDns3,
    /// GTCRN trained on VCTK, number 1.
    GtcrnVctk,
    /// DeepFilterNet3, attenuation-only realtime path, number 2.
    DeepFilterNet3,
    /// High-resolution 48 kHz DPDFNet v2, number 3.
    DpdfnetV2Hr,
    /// High-resolution 48 kHz DPDFNet v8, number 4.
    DpdfnetV8Hr,
    /// Baseline 16 kHz DPDFNet, number 5.
    DpdfnetBaseline,
    /// 16 kHz DPDFNet v2 (offline pipelines only), number 6.
    DpdfnetV2,
    /// 16 kHz DPDFNet v4 (offline pipelines only), number 7.
    DpdfnetV4,
    /// 16 kHz DPDFNet v8 (offline pipelines only), number 8.
    DpdfnetV8,
}

/// The number a model is stored under.
pub open spec fn model_number(m: NoiseModel) -> int {
    match m {
        NoiseModel::GtcrnDns3 => 0,
        NoiseModel::GtcrnVctk => 1,
        NoiseModel::DeepFilterNet3 => 2,
        NoiseModel::DpdfnetV2Hr => 3,
        NoiseModel::DpdfnetV8Hr => 4,
        NoiseModel::DpdfnetBaseline => 5,
        NoiseModel::DpdfnetV2 => 6,
        NoiseModel::DpdfnetV4 => 7,
        NoiseModel::DpdfnetV8 => 8,
    }
}

/// The model stored under `n`, if any.
pub open spec fn model_numbered(n: int) -> Option<NoiseModel> {
    if n == 0 {
        Some(NoiseModel::GtcrnDns3)
    } else if n == 1 {
        Some(NoiseModel::GtcrnVctk)
    } else if n == 2 {
        Some(NoiseModel::DeepFilterNet3)
    } else if n == 3 {
        Some(NoiseModel::DpdfnetV2Hr)
    } else if n == 4 {
        Some(NoiseModel::DpdfnetV8Hr)
    } else if n == 5 {
        Some(NoiseModel::DpdfnetBaseline)
    } else if n == 6 {
        Some(NoiseModel::DpdfnetV2)
    } else if n == 7 {
        Some(NoiseModel::DpdfnetV4)
    } else if n == 8 {
        Some(NoiseModel::DpdfnetV8)
    } else {
        None
    }
}

/// The `ladspa` filter a benchmark runs the model through with `ffmpeg`,
/// at full strength: empty when the model cannot be loaded here, the
/// attenuation limit at 100 dB for an attenuation-only model, and the GTCRN
/// controls (enabled, full strength, the model's weights, gate parked at
/// -80 dB) otherwise.
pub open spec fn benchmark_filter(m: NoiseModel, loadable: bool) -> Seq<char> {
    if !loadable {
        Seq::empty()
    } else if m != NoiseModel::GtcrnDns3 && m != NoiseModel::GtcrnVctk {
        "ladspa=file="@ + plugin_of(m).0 + ":plugin="@ + plugin_of(m).1 + ":controls=c0=100.00"@
    } else {
        "ladspa=file="@ + plugin_of(m).0 + ":plugin="@ + plugin_of(m).1 + ":controls=c0=1|c1=1|c2="@
            + (if m == NoiseModel::GtcrnVctk {
            "1"@
        } else {
            "0"@
        }) + "|c3=0.5|c4=0|c5=0|c6=1|c7=-80"@
    }
}

/// The benchmark filter of `model`.
pub fn benchmark_ffmpeg_filter(model: NoiseModel, loadable: bool) -> (r: String)
    ensures
        r@ == benchmark_filter(model, loadable),
{
    let mut v: Vec<char> = Vec::new();
    if !loadable {
        return from_chars(&v);
    }
    let (plugin, label) = model.plugin_and_label();
    extend_str(&mut v, "ladspa=file=");
    extend_str(&mut v, plugin);
    extend_str(&mut v, ":plugin=");
    extend_str(&mut v, label);
    if model.is_attenuation_only() {
        extend_str(&mut v, ":controls=c0=100.00");
    } else {
        extend_str(&mut v, ":controls=c0=1|c1=1|c2=");
        if model.ladspa_control() == 1 {
            extend_str(&mut v, "1");
        } else {
            extend_str(&mut v, "0");
        }
        extend_str(&mut v, "|c3=0.5|c4=0|c5=0|c6=1|c7=-80");
    }
    from_chars(&v)
}

/// The models the realtime playback graph can drive, in dropdown order.
pub open spec fn realtime_models() -> Seq<NoiseModel> {
    seq![
        NoiseModel::GtcrnDns3,
        NoiseModel::GtcrnVctk,
        NoiseModel::DeepFilterNet3,
        NoiseModel::DpdfnetV2Hr,
        NoiseModel::DpdfnetV8Hr,
    ]
}

/// The inference runtime each plugin loads at run time, if any.
pub open spec fn runtime_of(m: NoiseModel) -> Option<Seq<char>> {
    match m {
        NoiseModel::GtcrnDns3 | NoiseModel::GtcrnVctk => Some("libonnxruntime.so"@),
        NoiseModel::DeepFilterNet3 => None,
        _ => Some("libopenvino_c.so"@),
    }
}

/// The plugin file and label of each model.
pub open spec fn plugin_of(m: NoiseModel) -> (Seq<char>, Seq<char>) {
    match m {
        NoiseModel::GtcrnDns3 | NoiseModel::GtcrnVctk => (GTCRN_LADSPA_PATH@, LABEL_GTCRN_MONO@),
        NoiseModel::DeepFilterNet3 => (DEEPFILTER_LADSPA_PATH@, LABEL_DEEPFILTER_MONO@),
        NoiseModel::DpdfnetV2Hr => (DPDFNET_V2_HR_LADSPA_PATH@, LABEL_DPDFNET_V2_HR_MONO@),
        NoiseModel::DpdfnetV8Hr => (DPDFNET_V8_HR_LADSPA_PATH@, LABEL_DPDFNET_V8_HR_MONO@),
        NoiseModel::DpdfnetBaseline => (DPDFNET_BASELINE_LADSPA_PATH@, LABEL_DPDFNET_BASELINE_MONO@),
        NoiseModel::DpdfnetV2 => (DPDFNET_V2_16K_LADSPA_PATH@, LABEL_DPDFNET_V2_16K_MONO@),
        NoiseModel::DpdfnetV4 => (DPDFNET_V4_16K_LADSPA_PATH@, LABEL_DPDFNET_V4_16K_MONO@),
        NoiseModel::DpdfnetV8 => (DPDFNET_V8_16K_LADSPA_PATH@, LABEL_DPDFNET_V8_16K_MONO@),
    }
}

/// Whether a model is one of the 16 kHz DPDFNet variants.
pub open spec fn is_dpdfnet_16khz_spec(m: NoiseModel) -> bool {
    m == NoiseModel::DpdfnetBaseline || m == NoiseModel::DpdfnetV2 || m == NoiseModel::DpdfnetV4
        || m == NoiseModel::DpdfnetV8
}

impl Default for NoiseModel {
    fn default() -> (r: Self)
        ensures
            r == NoiseModel::GtcrnDns3,
    {
        NoiseModel::GtcrnDns3
    }
}

impl NoiseModel {
    /// The model stored under `value`, as the settings file writes it.
    pub fn from_u8(value: u8) -> (r: Option<Self>)
        ensures
            r == model_numbered(value as int),
    {
        match value {
            0 => Some(NoiseModel::GtcrnDns3),
            1 => Some(NoiseModel::GtcrnVctk),
            2 => Some(NoiseModel::DeepFilterNet3),
            3 => Some(NoiseModel::DpdfnetV2Hr),
            4 => Some(NoiseModel::DpdfnetV8Hr),
            5 => Some(NoiseModel::DpdfnetBaseline),
            6 => Some(NoiseModel::DpdfnetV2),
            7 => Some(NoiseModel::DpdfnetV4),
            8 => Some(NoiseModel::DpdfnetV8),
            _ => None,
        }
    }

    /// The number this model is stored under.
    pub fn to_u8(self) -> (r: u8)
        ensures
            r as int == model_number(self),
    {
        match self {
            NoiseModel::GtcrnDns3 => 0,
            NoiseModel::GtcrnVctk => 1,
            NoiseModel::DeepFilterNet3 => 2,
            NoiseModel::DpdfnetV2Hr => 3,
            NoiseModel::DpdfnetV8Hr => 4,
            NoiseModel::DpdfnetBaseline => 5,
            NoiseModel::DpdfnetV2 => 6,
            NoiseModel::DpdfnetV4 => 7,
            NoiseModel::DpdfnetV8 => 8,
        }
    }

    /// Resolve an arbitrary integer from a settings file; a value that names
    /// no model falls back to the default so corrupt settings never crash.
    pub fn from_i32_or_default(value: i32) -> (r: Self)
        ensures
            r == match model_numbered(value as int) {
                Some(m) => m,
                None => NoiseModel::GtcrnDns3,
            },
    {
        if value < 0 || value > 255 {
            return NoiseModel::GtcrnDns3;
        }
        match Self::from_u8(value as u8) {
            Some(m) => m,
            None => NoiseModel::GtcrnDns3,
        }
    }

    /// Whether the realtime playback graph can drive this model (the others
    /// are for offline pipelines); the UI filters its dropdown by this.
    pub fn is_realtime_lavfi_supported(self) -> (r: bool)
        ensures
            r == realtime_models().contains(self),
    {
        proof {
            assert(realtime_models()[0] == NoiseModel::GtcrnDns3);
            assert(realtime_models()[1] == NoiseModel::GtcrnVctk);
            assert(realtime_models()[2] == NoiseModel::DeepFilterNet3);
            assert(realtime_models()[3] == NoiseModel::DpdfnetV2Hr);
            assert(realtime_models()[4] == NoiseModel::DpdfnetV8Hr);
        }
        match self {
            NoiseModel::GtcrnDns3 | NoiseModel::GtcrnVctk | NoiseModel::DeepFilterNet3
            | NoiseModel::DpdfnetV2Hr | NoiseModel::DpdfnetV8Hr => true,
            _ => false,
        }
    }

    /// Whether this is one of the 16 kHz DPDFNet variants.
    pub fn is_dpdfnet_16khz(self) -> (r: bool)
        ensures
            r == is_dpdfnet_16khz_spec(self),
    {
        match self {
            NoiseModel::DpdfnetBaseline | NoiseModel::DpdfnetV2 | NoiseModel::DpdfnetV4
            | NoiseModel::DpdfnetV8 => true,
            _ => false,
        }
    }

    /// Host sample rate the plugin requires: the 16 kHz DPDFNet plugins
    /// abort at any other rate; every other model is full-band 48 kHz.
    pub fn lavfi_sample_rate(self) -> (r: u32)
        ensures
            r == if is_dpdfnet_16khz_spec(self) {
                16_000u32
            } else {
                48_000u32
            },
    {
        if self.is_dpdfnet_16khz() {
            16_000
        } else {
            48_000
        }
    }

    /// The inference runtime the plugin loads with `dlopen`, if any. Names
    /// are unversioned: that is the symlink the loader looks for.
    pub fn runtime_library(self) -> (r: Option<&'static str>)
        ensures
            match r {
                Some(s) => runtime_of(self) == Some(s@),
                None => runtime_of(self) is None,
            },
    {
        match self {
            NoiseModel::GtcrnDns3 | NoiseModel::GtcrnVctk => Some("libonnxruntime.so"),
            NoiseModel::DeepFilterNet3 => None,
            _ => Some("libopenvino_c.so"),
        }
    }

    /// Whether selecting this model will actually denoise: its plugin file
    /// is present and the runtime it loads resolves. The two facts are what
    /// a stat of the plugin and a `dlopen` of [`NoiseModel::runtime_library`]
    /// report.
    pub fn plugin_loadable(self, plugin_present: bool, runtime_loads: bool) -> (r: bool)
        ensures
            r == (plugin_present && (runtime_of(self) is None || runtime_loads)),
    {
        plugin_present && match self.runtime_library() {
            None => true,
            Some(_) => runtime_loads,
        }
    }

    /// Whether the plugin has a single attenuation control port instead of
    /// the GTCRN multi-port contract: every model but the two GTCRN ones.
    pub open spec fn attenuation_only_spec(self) -> bool {
        !(self == NoiseModel::GtcrnDns3 || self == NoiseModel::GtcrnVctk)
    }

    /// Whether the plugin has a single attenuation control port instead of
    /// the GTCRN multi-port contract.
    #[verifier::when_used_as_spec(attenuation_only_spec)]
    pub fn is_attenuation_only(self) -> (r: bool)
        ensures
            r == !(self == NoiseModel::GtcrnDns3 || self == NoiseModel::GtcrnVctk),
    {
        match self {
            NoiseModel::GtcrnDns3 | NoiseModel::GtcrnVctk => false,
            _ => true,
        }
    }

    /// The value of a GTCRN plugin's model-select control: 1 picks the
    /// VCTK weights, 0 the DNS3 ones; single-model plugins ignore it and
    /// get 0.
    pub fn ladspa_control(self) -> (r: u8)
        ensures
            r == (if self == NoiseModel::GtcrnVctk {
                1u8
            } else {
                0u8
            }),
    {
        match self {
            NoiseModel::GtcrnVctk => 1,
            _ => 0,
        }
    }

    /// The plugin file and the label it advertises.
    pub fn plugin_and_label(self) -> (r: (&'static str, &'static str))
        ensures
            (r.0@, r.1@) == plugin_of(self),
    {
        match self {
            NoiseModel::GtcrnDns3 | NoiseModel::GtcrnVctk => (GTCRN_LADSPA_PATH, LABEL_GTCRN_MONO),
            NoiseModel::DeepFilterNet3 => (DEEPFILTER_LADSPA_PATH, LABEL_DEEPFILTER_MONO),
            NoiseModel::DpdfnetV2Hr => (DPDFNET_V2_HR_LADSPA_PATH, LABEL_DPDFNET_V2_HR_MONO),
            NoiseModel::DpdfnetV8Hr => (DPDFNET_V8_HR_LADSPA_PATH, LABEL_DPDFNET_V8_HR_MONO),
            NoiseModel::DpdfnetBaseline => (
                DPDFNET_BASELINE_LADSPA_PATH,
                LABEL_DPDFNET_BASELINE_MONO,
            ),
            NoiseModel::DpdfnetV2 => (DPDFNET_V2_16K_LADSPA_PATH, LABEL_DPDFNET_V2_16K_MONO),
            NoiseModel::DpdfnetV4 => (DPDFNET_V4_16K_LADSPA_PATH, LABEL_DPDFNET_V4_16K_MONO),
            NoiseModel::DpdfnetV8 => (DPDFNET_V8_16K_LADSPA_PATH, LABEL_DPDFNET_V8_16K_MONO),
        }
    }
}

/// The models the realtime playback graph can drive, in dropdown order.
pub fn realtime_lavfi_models() -> (r: Vec<NoiseModel>)
    ensures
        r@ == realtime_models(),
{
    let r = vec![
        NoiseModel::GtcrnDns3,
        NoiseModel::GtcrnVctk,
        NoiseModel::DeepFilterNet3,
        NoiseModel::DpdfnetV2Hr,
        NoiseModel::DpdfnetV8Hr,
    ];
    assert(r@ =~= realtime_models());
    r
}

/// The name people read for a model offered for real-time use.
pub open spec fn display_name(m: NoiseModel) -> Seq<char> {
    match m {
        NoiseModel::GtcrnDns3 => "GTCRN - DNS3"@,
        NoiseModel::GtcrnVctk => "GTCRN - VCTK"@,
        NoiseModel::DeepFilterNet3 => "DeepFilterNet3"@,
        NoiseModel::DpdfnetV2Hr => "DPDFNet-2 HR"@,
        NoiseModel::DpdfnetV8Hr => "DPDFNet-8 HR"@,
        _ => Seq::empty(),
    }
}

/// The names people read for [`realtime_lavfi_models`], index-aligned.
pub fn realtime_lavfi_model_labels() -> (r: Vec<&'static str>)
    ensures
        r@.len() == realtime_models().len(),
        forall|i: int| 0 <= i < r@.len() ==> (#[trigger] r@[i])@ == display_name(realtime_models()[i]),
{
    let r = vec!["GTCRN - DNS3", "GTCRN - VCTK", "DeepFilterNet3", "DPDFNet-2 HR", "DPDFNet-8 HR"];
    assert(r@[0]@ == display_name(realtime_models()[0]));
    assert(r@[1]@ == display_name(realtime_models()[1]));
    assert(r@[2]@ == display_name(realtime_models()[2]));
    assert(r@[3]@ == display_name(realtime_models()[3]));
    assert(r@[4]@ == display_name(realtime_models()[4]));
    r
}

/// A persisted model whose plugin can no longer be loaded is demoted to the
/// default, so the rendered chain never references a broken plugin.
pub fn available_or_default(model: NoiseModel, loadable: bool) -> (r: NoiseModel)
    ensures
        r == if model == NoiseModel::GtcrnDns3 || loadable {
            model
        } else {
            NoiseModel::GtcrnDns3
        },
{
    if model == NoiseModel::GtcrnDns3 || loadable {
        model
    } else {
        NoiseModel::GtcrnDns3
    }
}

/// Storing a model and reading the number back gives the same model, and
/// every number a model is stored under is read back as that model.
pub proof fn model_number_round_trips(m: NoiseModel, n: int)
    ensures
        model_numbered(model_number(m)) == Some(m),
        model_numbered(n) matches Some(k) ==> model_number(k) == n,
        0 <= model_number(m) <= 8,
{
}

} // verus!
