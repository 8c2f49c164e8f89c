//! Names, files and fixed texts of the three filter graphs.
//!
//! Each loader (`biglinux-microphone-aec`, `-mic` and `-output`) reads one
//! args body from the user configuration directory. Writing those files and
//! restarting the loaders is done by the application; what they are called,
//! where they live and the text of the canceller's body are decided here.

pub mod chain;
pub mod echo_cancel;
pub mod graph;
pub mod mic;

use vstd::prelude::*;

use crate::pipeline::mic::{mic_wanted, MicSwitches};
use crate::text::{join_path, opt_str, path_join};

pub use echo_cancel::{
    build_echo_cancel_conf, echo_cancel_conf_text, EC_CAPTURE_NODE_NAME, EC_SOURCE_NAME,
    ECHO_CANCEL_CONF_FILE,
};

verus! {

/// `node.name` of the virtual microphone that applications see.
pub const MIC_NODE_NAME: &'static str = "mic-biglinux";
/// `node.name` of the capture side of the microphone chain, where its
/// controls live.
pub const MIC_CAPTURE_NODE_NAME: &'static str = "mic-biglinux-capture";
/// Description of the virtual microphone.
pub const MIC_DESCRIPTION: &'static str = "Filter noise";
/// File name of the microphone chain's args body.
pub const MIC_CONF_FILE: &'static str = "mic.args";
/// `node.name` of the output filter's smart sink.
pub const OUTPUT_NODE_NAME: &'static str = "output-biglinux";
/// Description of the output filter.
pub const OUTPUT_DESCRIPTION: &'static str = "BigLinux Output Filter";
/// File name of the output chain's args body.
pub const OUTPUT_CONF_FILE: &'static str = "output.args";
/// WirePlumber drop-in of the retired per-application routing.
pub const LEGACY_ROUTING_CONF_FILE: &'static str = "50-biglinux-output-routing.conf";

/// Whether the output chain's denoiser processes: the node stays in the
/// graph either way, and only this switches it, so that turning the
/// filter off and on is a live update rather than a restart.
pub fn output_ai_processing(output_enabled: bool, noise_reduction: bool) -> (r: bool)
    ensures
        r == (output_enabled && noise_reduction),
{
    output_enabled && noise_reduction
}

/// Which of the output chain's effects process. Every node stays in the
/// graph; while the master switch is off, each is forced to bypass, so the
/// smart-filter sink stays and playing streams stay attached to it.
#[derive(Debug, Clone, Copy, PartialEq, Eq, Structural)]
pub struct OutputEffects {
    pub hpf: bool,
    pub ai_processing: bool,
    pub gate: bool,
    pub compressor: bool,
    pub equalizer: bool,
    /// The shared headroom is applied ahead of the ceiling.
    pub headroom: bool,
}

/// The output switches as saved.
#[derive(Debug, Clone, Copy, PartialEq, Eq, Structural)]
pub struct OutputSwitches {
    pub enabled: bool,
    pub hpf: bool,
    pub noise_reduction: bool,
    pub gate: bool,
    pub compressor: bool,
    pub equalizer: bool,
}

/// Each effect processes only while both the master switch and its own
/// switch are on; the headroom follows the master switch.
pub open spec fn output_effects_spec(s: OutputSwitches) -> OutputEffects {
    OutputEffects {
        hpf: s.enabled && s.hpf,
        ai_processing: s.enabled && s.noise_reduction,
        gate: s.enabled && s.gate,
        compressor: s.enabled && s.compressor,
        equalizer: s.enabled && s.equalizer,
        headroom: s.enabled,
    }
}

/// [`output_effects_spec`].
pub fn output_effects(s: &OutputSwitches) -> (r: OutputEffects)
    ensures
        r == output_effects_spec(*s),
        !s.enabled ==> !r.hpf && !r.ai_processing && !r.gate && !r.compressor && !r.equalizer
            && !r.headroom,
{
    OutputEffects {
        hpf: s.enabled && s.hpf,
        ai_processing: output_ai_processing(s.enabled, s.noise_reduction),
        gate: s.enabled && s.gate,
        compressor: s.enabled && s.compressor,
        equalizer: s.enabled && s.equalizer,
        headroom: s.enabled,
    }
}

/// The user configuration root: `$XDG_CONFIG_HOME` when the platform gives
/// one, else `$HOME/.config`, else `/tmp/.config`.
pub open spec fn config_root_spec(config_dir: Option<Seq<char>>, home_dir: Option<Seq<char>>) -> Seq<
    char,
> {
    match config_dir {
        Some(d) => d,
        None => path_join(
            match home_dir {
                Some(h) => h,
                None => "/tmp"@,
            },
            ".config"@,
        ),
    }
}

/// The user configuration root, from what the platform reports for the
/// configuration and home directories.
pub fn xdg_config_root(config_dir: Option<&str>, home_dir: Option<&str>) -> (r: String)
    ensures
        r@ == config_root_spec(opt_str(config_dir), opt_str(home_dir)),
{
    match config_dir {
        Some(d) => d.to_owned(),
        None => {
            let home = match home_dir {
                Some(h) => h,
                None => "/tmp",
            };
            join_path(home, ".config")
        },
    }
}

/// Directory of the loaders' args bodies, under the configuration root.
pub fn pwloader_args_dir(root: &str) -> (r: String)
    ensures
        r@ == path_join(root@, "biglinux-microphone"@),
{
    join_path(root, "biglinux-microphone")
}

/// Legacy filter-chain drop-in directory, kept for cleanup only.
pub fn pipewire_drop_in_dir(root: &str) -> (r: String)
    ensures
        r@ == path_join(root@, "pipewire/filter-chain.conf.d"@),
{
    join_path(root, "pipewire/filter-chain.conf.d")
}

/// Legacy standalone PipeWire configuration directory, kept for cleanup only.
pub fn pipewire_standalone_dir(root: &str) -> (r: String)
    ensures
        r@ == path_join(root@, "pipewire"@),
{
    join_path(root, "pipewire")
}

/// Legacy WirePlumber drop-in directory, kept for cleanup only.
pub fn wireplumber_drop_in_dir(root: &str) -> (r: String)
    ensures
        r@ == path_join(root@, "wireplumber/wireplumber.conf.d"@),
{
    join_path(root, "wireplumber/wireplumber.conf.d")
}

/// The microphone chain's args file.
pub fn mic_conf_path(root: &str) -> (r: String)
    ensures
        r@ == path_join(path_join(root@, "biglinux-microphone"@), MIC_CONF_FILE@),
{
    let dir = pwloader_args_dir(root);
    join_path(dir.as_str(), MIC_CONF_FILE)
}

/// The output chain's args file.
pub fn output_conf_path(root: &str) -> (r: String)
    ensures
        r@ == path_join(path_join(root@, "biglinux-microphone"@), OUTPUT_CONF_FILE@),
{
    let dir = pwloader_args_dir(root);
    join_path(dir.as_str(), OUTPUT_CONF_FILE)
}

/// The echo canceller's args file.
pub fn echo_cancel_conf_path(root: &str) -> (r: String)
    ensures
        r@ == path_join(path_join(root@, "biglinux-microphone"@), ECHO_CANCEL_CONF_FILE@),
{
    let dir = pwloader_args_dir(root);
    join_path(dir.as_str(), ECHO_CANCEL_CONF_FILE)
}

/// What a reconcile does with one args body.
#[derive(Debug, Clone, Copy, PartialEq, Eq, Structural)]
pub enum BodyFate {
    /// Write the body (when it differs from what is on disk).
    Write,
    /// Delete the file, so its loader has nothing to load.
    Remove,
}

/// What becomes of the three args bodies.
#[derive(Debug, Clone, Copy, PartialEq, Eq, Structural)]
pub struct ArgsPlan {
    pub mic: BodyFate,
    pub output: BodyFate,
    pub echo_cancel: BodyFate,
}

/// The microphone body only while some microphone processing is wanted,
/// so no idle virtual source is left in the graph; the output body
/// always, so the output unit can come up in bypass and keep its sink;
/// the canceller's body only while echo cancellation is on.
pub fn args_plan(mic: &MicSwitches, echo_cancel: bool) -> (r: ArgsPlan)
    ensures
        r.mic == (if mic_wanted(*mic) {
            BodyFate::Write
        } else {
            BodyFate::Remove
        }),
        r.output == BodyFate::Write,
        r.echo_cancel == (if echo_cancel {
            BodyFate::Write
        } else {
            BodyFate::Remove
        }),
{
    ArgsPlan {
        mic: if mic.mic_chain_wanted() {
            BodyFate::Write
        } else {
            BodyFate::Remove
        },
        output: BodyFate::Write,
        echo_cancel: if echo_cancel {
            BodyFate::Write
        } else {
            BodyFate::Remove
        },
    }
}

/// The drop-ins of earlier topologies that every reconcile retires (each
/// kept as a backup), under the configuration root `root`.
pub open spec fn retired_drop_ins_spec(root: Seq<char>) -> Seq<Seq<char>> {
    seq![
        path_join(path_join(root, "pipewire/filter-chain.conf.d"@), "20-biglinux-output.conf"@),
        path_join(path_join(root, "pipewire/filter-chain.conf.d"@), "10-biglinux-microphone.conf"@),
        path_join(path_join(root, "pipewire/filter-chain.conf.d"@), "05-biglinux-echocancel.conf"@),
        path_join(path_join(root, "wireplumber/wireplumber.conf.d"@), LEGACY_ROUTING_CONF_FILE@),
    ]
}

/// [`retired_drop_ins_spec`].
pub fn retired_drop_ins(root: &str) -> (r: Vec<String>)
    ensures
        r@.map_values(|s: String| s@) == retired_drop_ins_spec(root@),
{
    let pipewire = pipewire_drop_in_dir(root);
    let wireplumber = wireplumber_drop_in_dir(root);
    let mut r: Vec<String> = Vec::new();
    r.push(join_path(pipewire.as_str(), "20-biglinux-output.conf"));
    r.push(join_path(pipewire.as_str(), "10-biglinux-microphone.conf"));
    r.push(join_path(pipewire.as_str(), "05-biglinux-echocancel.conf"));
    r.push(join_path(wireplumber.as_str(), LEGACY_ROUTING_CONF_FILE));
    assert(r@.map_values(|s: String| s@) =~= retired_drop_ins_spec(root@));
    r
}

/// Files written by earlier versions that this one no longer maintains,
/// relative to the configuration root.
pub open spec fn legacy_files_spec() -> Seq<Seq<char>> {
    seq![
        "pipewire/filter-chain.conf.d/source-gtcrn-smart.conf"@,
        "pipewire/filter-chain.conf.d/source-ulunas-smart.conf"@,
        "pipewire/filter-chain.conf.d/source-rnnoise.conf"@,
        "pipewire/filter-chain.conf.d/source-rnnoise-smart.conf"@,
        "pipewire/filter-chain.conf.d/source-rnnoise-config.conf"@,
        "pipewire/filter-chain.conf.d/big-output-filter.conf"@,
        "pipewire/big-output-filter.conf"@,
        "pipewire/filter-chain.conf.d/20-biglinux-output.conf"@,
        "pipewire/pipewire.conf.d/50-biglinux-microphone-realtime.conf"@,
        "wireplumber/wireplumber.conf.d/50-biglinux-output-routing.conf"@,
        "wireplumber/wireplumber.conf.d/50-biglinux-microphone-routing.conf"@,
        "pipewire/biglinux-microphone-echocancel.conf"@,
        "pipewire/filter-chain.conf.d/05-biglinux-echocancel.conf"@,
        "pipewire/filter-chain.conf.d/10-biglinux-microphone.conf"@,
        "pipewire/biglinux-microphone-output.conf"@,
    ]
}

/// [`legacy_files_spec`]. Only application-owned names are listed:
/// `pipewire/filter-chain.conf` belongs to the user.
pub fn legacy_files() -> (r: Vec<&'static str>)
    ensures
        r@.map_values(|s: &str| s@) == legacy_files_spec(),
{
    let mut r = Vec::new();
    r.push("pipewire/filter-chain.conf.d/source-gtcrn-smart.conf");
    r.push("pipewire/filter-chain.conf.d/source-ulunas-smart.conf");
    r.push("pipewire/filter-chain.conf.d/source-rnnoise.conf");
    r.push("pipewire/filter-chain.conf.d/source-rnnoise-smart.conf");
    r.push("pipewire/filter-chain.conf.d/source-rnnoise-config.conf");
    r.push("pipewire/filter-chain.conf.d/big-output-filter.conf");
    r.push("pipewire/big-output-filter.conf");
    r.push("pipewire/filter-chain.conf.d/20-biglinux-output.conf");
    r.push("pipewire/pipewire.conf.d/50-biglinux-microphone-realtime.conf");
    r.push("wireplumber/wireplumber.conf.d/50-biglinux-output-routing.conf");
    r.push("wireplumber/wireplumber.conf.d/50-biglinux-microphone-routing.conf");
    r.push("pipewire/biglinux-microphone-echocancel.conf");
    r.push("pipewire/filter-chain.conf.d/05-biglinux-echocancel.conf");
    r.push("pipewire/filter-chain.conf.d/10-biglinux-microphone.conf");
    r.push("pipewire/biglinux-microphone-output.conf");
    assert(r@.map_values(|s: &str| s@) =~= legacy_files_spec());
    r
}

} // verus!
