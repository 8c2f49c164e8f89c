//! Reconcile saved intent, live controls and independently recoverable
//! services.
//!
//! A failed fast path is a reason to rebuild its chain, never a
//! prerequisite for repairing another.
use vstd::prelude::*;

use crate::config::gain_safety::GainSafety;
use crate::config::noise_model::NoiseModel;
use crate::config::output_filter::OutputChannelMode;
use crate::config::runtime::RuntimeConfig;
use crate::config::audio::StereoMode;
use crate::pipeline::mic::{ai_node_wanted, mic_wanted, MicSwitches};
use crate::services::pipewire::live::LiveOutcome;
use crate::text::{eq_v, join_path, path_join, to_chars};

verus! {

/// Which of our endpoints are present in the graph (or, as a wish, should
/// be).
#[derive(Debug, Default, Clone, Copy, PartialEq, Eq, Structural)]
pub struct Observed {
    pub mic_present: bool,
    pub output_present: bool,
    pub aec_present: bool,
}

// ── Reading the graph ────────────────────────────────────────────────

/// An object of a `pw-dump` listing, reduced to what reconciling reads:
/// its `type`, its `info.state` and its `info.props."node.name"` when those
/// are strings.
#[derive(Debug, Clone)]
pub struct GraphNode {
    pub kind: String,
    pub state: Option<String>,
    pub name: Option<String>,
}

/// A node that exists for our purposes: a node object whose state is
/// running, idle or suspended (a suspended node is present, an errored one
/// is not).
pub open spec fn counts_as_node(n: GraphNode) -> bool {
    &&& n.kind@ == "PipeWire:Interface:Node"@
    &&& match n.state {
        Some(s) => s@ == "running"@ || s@ == "idle"@ || s@ == "suspended"@,
        None => false,
    }
    &&& n.name is Some
}

/// A counted node of the graph carries `name`.
pub open spec fn node_present(graph: Seq<GraphNode>, name: Seq<char>) -> bool {
    exists|i: int| 0 <= i < graph.len() && counts_as_node(#[trigger] graph[i]) && graph[i].name->0@ == name
}

/// What the graph says about our three endpoints: the microphone needs
/// both of its nodes.
pub open spec fn observed_in(graph: Seq<GraphNode>) -> Observed {
    Observed {
        mic_present: node_present(graph, "mic-biglinux"@) && node_present(graph, "mic-biglinux-capture"@),
        output_present: node_present(graph, "output-biglinux"@),
        aec_present: node_present(graph, "echo-cancel-source"@),
    }
}

fn str_is(s: &String, lit: &str) -> (r: bool)
    ensures
        r == (s@ == lit@),
{
    eq_v(&to_chars(s.as_str()), &to_chars(lit))
}

fn counts_as_node_v(n: &GraphNode) -> (r: bool)
    ensures
        r == counts_as_node(*n),
{
    if !str_is(&n.kind, "PipeWire:Interface:Node") {
        return false;
    }
    let state_ok = match &n.state {
        Some(s) => str_is(s, "running") || str_is(s, "idle") || str_is(s, "suspended"),
        None => false,
    };
    state_ok && n.name.is_some()
}

fn node_present_v(graph: &Vec<GraphNode>, name: &str) -> (r: bool)
    ensures
        r == node_present(graph@, name@),
{
    let mut i: usize = 0;
    while i < graph.len()
        invariant
            i <= graph.len(),
            forall|j: int|
                0 <= j < i ==> !(counts_as_node(#[trigger] graph@[j]) && graph@[j].name->0@
                    == name@),
        decreases graph.len() - i,
    {
        if counts_as_node_v(&graph[i]) {
            match &graph[i].name {
                Some(n) => {
                    if str_is(n, name) {
                        assert(counts_as_node(graph@[i as int]));
                        return true;
                    }
                },
                None => {},
            }
        }
        i = i + 1;
    }
    false
}

/// Which endpoints a graph listing shows.
pub fn from_graph(graph: &Vec<GraphNode>) -> (r: Observed)
    ensures
        r == observed_in(graph@),
{
    let mic = node_present_v(graph, "mic-biglinux") && node_present_v(graph, "mic-biglinux-capture");
    Observed {
        mic_present: mic,
        output_present: node_present_v(graph, "output-biglinux"),
        aec_present: node_present_v(graph, "echo-cancel-source"),
    }
}

// ── What to do with one chain ────────────────────────────────────────

/// What to do with one chain's service.
#[derive(Debug, Clone, Copy, PartialEq, Eq, Structural)]
pub enum Action {
    Keep,
    Restart,
    Stop,
}

/// The action for a chain: an unwanted chain is stopped when forced, when
/// it is present or when it was wanted before; a wanted one is restarted
/// when forced, when its topology changed, when it is missing, or when its
/// live update did not land.
pub open spec fn action_spec(
    wanted: bool,
    present: bool,
    was_wanted: bool,
    changed: bool,
    force: bool,
    pushed: bool,
) -> Action {
    if !wanted {
        if force || present || was_wanted {
            Action::Stop
        } else {
            Action::Keep
        }
    } else if force || changed || !present || !pushed {
        Action::Restart
    } else {
        Action::Keep
    }
}

/// Decide one chain's action.
pub fn action(
    wanted: bool,
    present: bool,
    was_wanted: bool,
    changed: bool,
    force: bool,
    pushed: bool,
) -> (r: Action)
    ensures
        r == action_spec(wanted, present, was_wanted, changed, force, pushed),
        !wanted ==> r != Action::Restart,
        wanted ==> r != Action::Stop,
        wanted && !present ==> r == Action::Restart,
        force ==> r == (if wanted {
            Action::Restart
        } else {
            Action::Stop
        }),
        r == Action::Keep ==> wanted == present,
{
    if !wanted {
        if force || present || was_wanted {
            Action::Stop
        } else {
            Action::Keep
        }
    } else if force || changed || !present || !pushed {
        Action::Restart
    } else {
        Action::Keep
    }
}

// ── What changed ─────────────────────────────────────────────────────

/// The output chain's switches that shape its graph.
#[derive(Debug, Clone)]
pub struct OutputShape {
    pub enabled: bool,
    pub channel_mode: OutputChannelMode,
    pub noise_reduction: bool,
    pub model: NoiseModel,
    pub equalizer: bool,
    pub eq_preset: String,
}

/// The part of the settings that reconciling reads; the floating-point
/// levels stay with the application, which reports their differences in a
/// [`MeasuredDiffs`].
#[derive(Debug, Clone)]
pub struct Snapshot {
    pub mic: MicSwitches,
    pub mic_eq_preset: String,
    pub gain_safety: GainSafety,
    pub output: OutputShape,
    pub runtime: RuntimeConfig,
}

impl Default for OutputShape {
    /// Off, stereo, with noise reduction (default model) ready and a flat
    /// equalizer switched off.
    fn default() -> (r: Self)
        ensures
            !r.enabled,
            r.channel_mode == OutputChannelMode::Stereo,
            r.noise_reduction,
            r.model == NoiseModel::GtcrnDns3,
            !r.equalizer,
            r.eq_preset@ == "flat"@,
    {
        OutputShape {
            enabled: false,
            channel_mode: OutputChannelMode::Stereo,
            noise_reduction: true,
            model: NoiseModel::GtcrnDns3,
            equalizer: false,
            eq_preset: crate::config::equalizer::EQ_PRESET_DEFAULT.to_string(),
        }
    }
}

impl Default for Snapshot {
    /// The switches of freshly defaulted settings.
    fn default() -> (r: Self)
        ensures
            r.mic == crate::pipeline::mic::default_switches(),
            r.mic_eq_preset@ == "flat"@,
            r.gain_safety == GainSafety::Automatic,
            !r.output.enabled,
            r.runtime == (RuntimeConfig { prefer_fast_cpus: false, reserve_memory: false }),
    {
        Snapshot {
            mic: MicSwitches::default(),
            mic_eq_preset: crate::config::equalizer::EQ_PRESET_DEFAULT.to_string(),
            gain_safety: GainSafety::Automatic,
            output: OutputShape::default(),
            runtime: RuntimeConfig::default(),
        }
    }
}

/// Differences between the previous and the current settings that only
/// the application can measure: the rendered chain bodies, and the
/// floating-point equalizer bands and voice-changer width.
#[derive(Debug, Clone, Copy, PartialEq, Eq, Structural)]
pub struct MeasuredDiffs {
    /// The microphone chain's args body differs.
    pub mic_conf: bool,
    /// The output chain's args body differs.
    pub output_conf: bool,
    /// The microphone equalizer's bands differ.
    pub mic_bands: bool,
    /// The voice-changer width moved by more than the float epsilon.
    pub voice_width: bool,
    /// The output equalizer's bands differ.
    pub output_bands: bool,
}

/// What the endpoints should be for these settings.
pub open spec fn wanted_of(s: Snapshot) -> Observed {
    Observed {
        mic_present: mic_wanted(s.mic),
        output_present: s.output.enabled,
        aec_present: s.mic.echo_cancel,
    }
}

impl Observed {
    /// The endpoints these settings ask for.
    pub fn wanted(settings: &Snapshot) -> (r: Observed)
        ensures
            r == wanted_of(*settings),
    {
        Observed {
            mic_present: settings.mic.mic_chain_wanted(),
            output_present: settings.output.enabled,
            aec_present: settings.mic.echo_cancel,
        }
    }
}

/// The voice changer is shaping the microphone.
pub open spec fn voice_on(s: MicSwitches) -> bool {
    s.stereo && s.stereo_mode == StereoMode::VoiceChanger
}

/// The model carries no gate of its own.
pub open spec fn attenuation_only(m: NoiseModel) -> bool {
    !(m == NoiseModel::GtcrnDns3 || m == NoiseModel::GtcrnVctk)
}

/// Whether the microphone loader must be reloaded rather than updated
/// live: wanting the chain changed, or something that adds, removes or
/// swaps a node changed.
pub open spec fn mic_reload_spec(prev: Option<Snapshot>, now: Snapshot, d: MeasuredDiffs) -> bool {
    let was_wanted = match prev {
        Some(p) => mic_wanted(p.mic),
        None => false,
    };
    let now_wanted = mic_wanted(now.mic);
    if was_wanted != now_wanted {
        true
    } else {
        match prev {
            Some(p) => {
                let voice_changed = voice_on(p.mic) != voice_on(now.mic) || (voice_on(now.mic)
                    && d.voice_width);
                let ai_changed = ai_node_wanted(p.mic) != ai_node_wanted(now.mic);
                let denoiser_changed = p.mic.model != now.mic.model || (attenuation_only(
                    now.mic.model,
                ) && p.mic.gate != now.mic.gate);
                let ec_target_changed = p.mic.echo_cancel != now.mic.echo_cancel;
                let hpf_changed = p.mic.hpf != now.mic.hpf;
                p.gain_safety != now.gain_safety || d.mic_bands || p.mic_eq_preset@
                    != now.mic_eq_preset@ || p.mic.equalizer != now.mic.equalizer
                    || p.mic.compressor != now.mic.compressor || voice_changed || ai_changed
                    || denoiser_changed || ec_target_changed || hpf_changed
            },
            None => now_wanted,
        }
    }
}

/// Whether the output chain's graph must be rewritten: always without a
/// previous state, else when a switch that shapes its graph changed.
pub open spec fn output_topology_spec(prev: Option<Snapshot>, now: Snapshot, d: MeasuredDiffs) -> bool {
    match prev {
        None => true,
        Some(p) => p.gain_safety != now.gain_safety || p.output.channel_mode
            != now.output.channel_mode || p.output.noise_reduction != now.output.noise_reduction
            || d.output_bands || p.output.eq_preset@ != now.output.eq_preset@ || p.output.equalizer
            != now.output.equalizer || p.output.model != now.output.model,
    }
}

fn voice_on_v(s: &MicSwitches) -> (r: bool)
    ensures
        r == voice_on(*s),
{
    s.stereo && s.stereo_mode == StereoMode::VoiceChanger
}

/// Whether the microphone loader must be reloaded for `now` after `prev`.
pub fn needs_mic_reload(prev: Option<&Snapshot>, now: &Snapshot, diffs: MeasuredDiffs) -> (r: bool)
    ensures
        r == mic_reload_spec(
            match prev {
                Some(p) => Some(*p),
                None => None,
            },
            *now,
            diffs,
        ),
{
    let was_wanted = match prev {
        Some(p) => p.mic.mic_chain_wanted(),
        None => false,
    };
    let now_wanted = now.mic.mic_chain_wanted();
    if was_wanted != now_wanted {
        return true;
    }
    match prev {
        Some(p) => {
            let voice_was_on = voice_on_v(&p.mic);
            let voice_is_on = voice_on_v(&now.mic);
            let voice_changed = voice_was_on != voice_is_on || (voice_is_on && diffs.voice_width);
            let ai_changed = p.mic.ai_node_in_mic_chain() != now.mic.ai_node_in_mic_chain();
            let denoiser_changed = p.mic.model != now.mic.model || (
            now.mic.model.is_attenuation_only() && p.mic.gate != now.mic.gate);
            let ec_target_changed = p.mic.echo_cancel != now.mic.echo_cancel;
            let hpf_changed = p.mic.hpf != now.mic.hpf;
            let preset_changed = !eq_v(
                &to_chars(p.mic_eq_preset.as_str()),
                &to_chars(now.mic_eq_preset.as_str()),
            );
            p.gain_safety != now.gain_safety || diffs.mic_bands || preset_changed
                || p.mic.equalizer != now.mic.equalizer || p.mic.compressor != now.mic.compressor
                || voice_changed || ai_changed || denoiser_changed || ec_target_changed
                || hpf_changed
        },
        None => now_wanted,
    }
}

/// Whether the output chain's graph must be rewritten for `now` after
/// `prev`.
pub fn output_topology_changed(prev: Option<&Snapshot>, now: &Snapshot, diffs: MeasuredDiffs) -> (r:
    bool)
    ensures
        r == output_topology_spec(
            match prev {
                Some(p) => Some(*p),
                None => None,
            },
            *now,
            diffs,
        ),
{
    match prev {
        None => true,
        Some(p) => {
            let preset_changed = !eq_v(
                &to_chars(p.output.eq_preset.as_str()),
                &to_chars(now.output.eq_preset.as_str()),
            );
            p.gain_safety != now.gain_safety || p.output.channel_mode != now.output.channel_mode
                || p.output.noise_reduction != now.output.noise_reduction || diffs.output_bands
                || preset_changed || p.output.equalizer != now.output.equalizer || p.output.model
                != now.output.model
        },
    }
}

/// Which chains should take a live control update.
#[derive(Debug, Clone, Copy, Default, PartialEq, Eq, Structural)]
pub struct UpdateTargets {
    pub microphone: bool,
    pub output: bool,
}

/// How the current settings differ from the last applied ones.
#[derive(Debug, Clone, Copy, PartialEq, Eq, Structural)]
pub struct Changes {
    /// The microphone chain's body changed (or nothing was applied before).
    pub microphone: bool,
    /// The output chain's body changed (or nothing was applied before).
    pub output: bool,
    /// The microphone loader must be reloaded.
    pub mic_topology: bool,
    /// The output graph must be rewritten.
    pub output_topology: bool,
    /// Every chain is to be repaired, live updates or not.
    pub force: bool,
}

/// The changes between the last applied settings and the current ones.
pub open spec fn changes_spec(prev: Option<Snapshot>, now: Snapshot, force: bool, d: MeasuredDiffs) -> Changes {
    Changes {
        microphone: prev is None || d.mic_conf,
        output: prev is None || d.output_conf,
        mic_topology: mic_reload_spec(prev, now, d),
        output_topology: output_topology_spec(prev, now, d),
        force: force || match prev {
            Some(p) => p.runtime != now.runtime,
            None => false,
        },
    }
}

/// The live updates worth trying: a chain whose body changed without a
/// topology change, that is wanted, and only when nothing forces a repair.
pub open spec fn live_targets_spec(c: Changes, now: Snapshot) -> UpdateTargets {
    UpdateTargets {
        microphone: !c.force && c.microphone && !c.mic_topology && mic_wanted(now.mic),
        output: !c.force && c.output && !c.output_topology && now.output.enabled,
    }
}

impl Changes {
    /// Compare the last applied settings with the current ones. A change
    /// of the loaders' runtime policy forces a repair.
    pub fn between(
        previous: Option<&Snapshot>,
        settings: &Snapshot,
        force: bool,
        diffs: MeasuredDiffs,
    ) -> (r: Changes)
        ensures
            r == changes_spec(
                match previous {
                    Some(p) => Some(*p),
                    None => None,
                },
                *settings,
                force,
                diffs,
            ),
    {
        let runtime_changed = match previous {
            Some(p) => p.runtime != settings.runtime,
            None => false,
        };
        Changes {
            microphone: previous.is_none() || diffs.mic_conf,
            output: previous.is_none() || diffs.output_conf,
            mic_topology: needs_mic_reload(previous, settings, diffs),
            output_topology: output_topology_changed(previous, settings, diffs),
            force: force || runtime_changed,
        }
    }

    /// The chains to push live control updates to.
    pub fn live_targets(self, settings: &Snapshot) -> (r: UpdateTargets)
        ensures
            r == live_targets_spec(self, *settings),
            self.force ==> !r.microphone && !r.output,
    {
        UpdateTargets {
            microphone: !self.force && self.microphone && !self.mic_topology
                && settings.mic.mic_chain_wanted(),
            output: !self.force && self.output && !self.output_topology && settings.output.enabled,
        }
    }
}

// ── The plan ─────────────────────────────────────────────────────────

/// What to do with each of the three services.
#[derive(Debug, Clone, Copy, PartialEq, Eq, Structural)]
pub struct Plan {
    pub aec: Action,
    pub mic: Action,
    pub output: Action,
}

/// The plan for the current settings, the previous ones, the observed
/// graph, the changes and what the live updates achieved. The canceller
/// has no live path; a chain whose body did not change needs no push.
pub open spec fn plan_spec(
    now: Snapshot,
    prev: Option<Snapshot>,
    observed: Observed,
    c: Changes,
    live: LiveOutcome,
) -> Plan {
    Plan {
        aec: action_spec(
            now.mic.echo_cancel,
            observed.aec_present,
            match prev {
                Some(p) => p.mic.echo_cancel,
                None => false,
            },
            false,
            c.force,
            true,
        ),
        mic: action_spec(
            mic_wanted(now.mic),
            observed.mic_present,
            match prev {
                Some(p) => mic_wanted(p.mic),
                None => false,
            },
            c.mic_topology && c.microphone,
            c.force,
            live.mic_pushed || !c.microphone,
        ),
        output: action_spec(
            now.output.enabled,
            observed.output_present,
            match prev {
                Some(p) => p.output.enabled,
                None => false,
            },
            c.output_topology && c.output,
            c.force,
            live.output_pushed || !c.output,
        ),
    }
}

/// A plan changes something.
pub open spec fn plan_changes(p: Plan) -> bool {
    p.aec != Action::Keep || p.mic != Action::Keep || p.output != Action::Keep
}

impl Plan {
    /// Build the plan.
    pub fn new(
        settings: &Snapshot,
        previous: Option<&Snapshot>,
        observed: Observed,
        changes: Changes,
        live: LiveOutcome,
    ) -> (r: Plan)
        ensures
            r == plan_spec(
                *settings,
                match previous {
                    Some(p) => Some(*p),
                    None => None,
                },
                observed,
                changes,
                live,
            ),
    {
        let prev_aec = match previous {
            Some(p) => p.mic.echo_cancel,
            None => false,
        };
        let prev_mic = match previous {
            Some(p) => p.mic.mic_chain_wanted(),
            None => false,
        };
        let prev_output = match previous {
            Some(p) => p.output.enabled,
            None => false,
        };
        Plan {
            aec: action(
                settings.mic.echo_cancel,
                observed.aec_present,
                prev_aec,
                false,
                changes.force,
                true,
            ),
            mic: action(
                settings.mic.mic_chain_wanted(),
                observed.mic_present,
                prev_mic,
                changes.mic_topology && changes.microphone,
                changes.force,
                live.mic_pushed || !changes.microphone,
            ),
            output: action(
                settings.output.enabled,
                observed.output_present,
                prev_output,
                changes.output_topology && changes.output,
                changes.force,
                live.output_pushed || !changes.output,
            ),
        }
    }

    /// Whether any service is to be touched.
    pub fn changed(self) -> (r: bool)
        ensures
            r == plan_changes(self),
    {
        self.aec != Action::Keep || self.mic != Action::Keep || self.output != Action::Keep
    }
}

/// Where the last applied settings are kept: under the runtime directory
/// when there is one, else in the application's configuration directory.
pub open spec fn baseline_path_spec(runtime_dir: Option<Seq<char>>, config_root: Seq<char>) -> Seq<char> {
    let dir = match runtime_dir {
        Some(r) => path_join(r, "biglinux-microphone"@),
        None => path_join(config_root, "biglinux-microphone"@),
    };
    path_join(dir, "last-applied.json"@)
}

/// The file holding the last applied settings.
pub fn baseline_path(runtime_dir: Option<&str>, config_root: &str) -> (r: String)
    ensures
        r@ == baseline_path_spec(crate::text::opt_str(runtime_dir), config_root@),
{
    let dir = match runtime_dir {
        Some(r) => join_path(r, "biglinux-microphone"),
        None => join_path(config_root, "biglinux-microphone"),
    };
    join_path(dir.as_str(), "last-applied.json")
}

// ── Carrying out a plan ──────────────────────────────────────────────

/// One of the three services.
#[derive(Debug, Clone, Copy, PartialEq, Eq, Structural)]
pub enum Chain {
    Aec,
    Microphone,
    Output,
}

/// What the application is to do next for a plan being carried out.
#[derive(Debug, Clone, Copy, PartialEq, Eq, Structural)]
pub enum Step {
    /// Apply the action to the service (keeping a service does nothing).
    Service(Chain, Action),
    /// Wait for the echo-cancelled source to appear.
    WaitAec,
    /// Wait for the graph to reach the wanted endpoints.
    WaitState(Observed),
    /// The run is over.
    Done,
}

/// A failure collected along the way.
#[derive(Debug, Clone, Copy, PartialEq, Eq, Structural)]
pub enum Failure {
    /// The canceller's service step or its wait failed.
    Aec,
    /// The microphone was to restart on a canceller that is not ready.
    MicWaitingForAec,
    Microphone,
    Output,
    /// The graph did not reach the wanted state.
    State,
}

impl Failure {
    /// The words a report puts before the error (the whole message for
    /// [`Failure::MicWaitingForAec`], nothing for [`Failure::State`]).
    pub fn context(self) -> (r: &'static str)
        ensures
            r@ == match self {
                Failure::Aec => "echo cancellation"@,
                Failure::MicWaitingForAec => "microphone is waiting for echo cancellation"@,
                Failure::Microphone => "microphone"@,
                Failure::Output => "output"@,
                Failure::State => ""@,
            },
    {
        match self {
            Failure::Aec => "echo cancellation",
            Failure::MicWaitingForAec => "microphone is waiting for echo cancellation",
            Failure::Microphone => "microphone",
            Failure::Output => "output",
            Failure::State => "",
        }
    }
}

/// Where a run stands.
#[derive(Debug, Clone, Copy, PartialEq, Eq, Structural)]
pub enum Stage {
    AecService,
    AecWait,
    Microphone,
    Output,
    Wait,
    Finished,
}

/// The order of the stages.
pub open spec fn stage_rank(s: Stage) -> int {
    match s {
        Stage::AecService => 0,
        Stage::AecWait => 1,
        Stage::Microphone => 2,
        Stage::Output => 3,
        Stage::Wait => 4,
        Stage::Finished => 5,
    }
}

/// The microphone is not touched: it was to restart, echo cancellation is
/// wanted, and the canceller is not ready.
pub open spec fn mic_blocked(plan: Plan, wanted: Observed, aec_ready: bool) -> bool {
    wanted.aec_present && !aec_ready && plan.mic == Action::Restart
}

/// The step a stage waits on.
pub open spec fn pending_step(plan: Plan, wanted: Observed, stage: Stage) -> Step {
    match stage {
        Stage::AecService => Step::Service(Chain::Aec, plan.aec),
        Stage::AecWait => Step::WaitAec,
        Stage::Microphone => Step::Service(Chain::Microphone, plan.mic),
        Stage::Output => Step::Service(Chain::Output, plan.output),
        Stage::Wait => Step::WaitState(wanted),
        Stage::Finished => Step::Done,
    }
}

/// The stage, readiness and failures after the canceller's part ended with
/// `ok`, from the failures `fs`.
pub open spec fn after_aec_spec(plan: Plan, wanted: Observed, ok: bool, fs: Seq<Failure>) -> (
    Stage,
    bool,
    Seq<Failure>,
) {
    if mic_blocked(plan, wanted, ok) {
        (Stage::Output, ok, fs.push(Failure::MicWaitingForAec))
    } else {
        (Stage::Microphone, ok, fs)
    }
}

/// Where a run goes when the pending step of `stage` ended with `ok`.
pub open spec fn advanced(
    plan: Plan,
    wanted: Observed,
    stage: Stage,
    ready: bool,
    fs: Seq<Failure>,
    ok: bool,
) -> (Stage, bool, Seq<Failure>) {
    match stage {
        Stage::AecService => if ok && plan.aec == Action::Restart {
            (Stage::AecWait, ready, fs)
        } else {
            after_aec_spec(plan, wanted, ok, if ok { fs } else { fs.push(Failure::Aec) })
        },
        Stage::AecWait => after_aec_spec(plan, wanted, ok, if ok { fs } else { fs.push(Failure::Aec) }),
        Stage::Microphone => (Stage::Output, ready, if ok { fs } else { fs.push(Failure::Microphone) }),
        Stage::Output => (
            if plan_changes(plan) { Stage::Wait } else { Stage::Finished },
            ready,
            if ok { fs } else { fs.push(Failure::Output) },
        ),
        Stage::Wait => (Stage::Finished, ready, if ok { fs } else { fs.push(Failure::State) }),
        Stage::Finished => (Stage::Finished, ready, fs),
    }
}

/// A plan being carried out: the canceller first (and waited for when
/// restarted), then the microphone unless it would restart on a canceller
/// that is not ready, then the output whatever happened before, then a
/// wait for the wanted state when anything changed. No failure stops the
/// run; every one is collected.
pub struct Execution {
    pub plan: Plan,
    pub wanted: Observed,
    pub stage: Stage,
    pub aec_ready: bool,
    pub failures: Vec<Failure>,
}

impl Execution {
    /// Start carrying out `plan` towards `wanted`.
    pub fn new(plan: Plan, wanted: Observed) -> (r: Execution)
        ensures
            r.plan == plan,
            r.wanted == wanted,
            r.stage == Stage::AecService,
            !r.aec_ready,
            r.failures@ == Seq::<Failure>::empty(),
    {
        Execution { plan, wanted, stage: Stage::AecService, aec_ready: false, failures: Vec::new() }
    }

    /// The step to perform now.
    pub fn step(&self) -> (r: Step)
        ensures
            r == pending_step(self.plan, self.wanted, self.stage),
    {
        match self.stage {
            Stage::AecService => Step::Service(Chain::Aec, self.plan.aec),
            Stage::AecWait => Step::WaitAec,
            Stage::Microphone => Step::Service(Chain::Microphone, self.plan.mic),
            Stage::Output => Step::Service(Chain::Output, self.plan.output),
            Stage::Wait => Step::WaitState(self.wanted),
            Stage::Finished => Step::Done,
        }
    }

    fn after_aec(&mut self, ready: bool)
        requires
            old(self).stage == Stage::AecService || old(self).stage == Stage::AecWait,
        ensures
            final(self).plan == old(self).plan,
            final(self).wanted == old(self).wanted,
            final(self).aec_ready == ready,
            final(self).stage == (if mic_blocked(old(self).plan, old(self).wanted, ready) {
                Stage::Output
            } else {
                Stage::Microphone
            }),
            final(self).failures@ == (if mic_blocked(old(self).plan, old(self).wanted, ready) {
                old(self).failures@.push(Failure::MicWaitingForAec)
            } else {
                old(self).failures@
            }),
    {
        self.aec_ready = ready;
        if self.wanted.aec_present && !ready && self.plan.mic == Action::Restart {
            self.failures.push(Failure::MicWaitingForAec);
            self.stage = Stage::Output;
        } else {
            self.stage = Stage::Microphone;
        }
    }

    /// Record whether the pending step succeeded and move on.
    pub fn advance(&mut self, ok: bool)
        ensures
            (final(self).stage, final(self).aec_ready, final(self).failures@) == advanced(
                old(self).plan,
                old(self).wanted,
                old(self).stage,
                old(self).aec_ready,
                old(self).failures@,
                ok,
            ),
            final(self).plan == old(self).plan,
            final(self).wanted == old(self).wanted,
            old(self).stage == Stage::Finished ==> final(self).stage == Stage::Finished
                && final(self).failures@ == old(self).failures@,
            old(self).stage != Stage::Finished ==> stage_rank(final(self).stage) > stage_rank(
                old(self).stage,
            ),
            stage_rank(old(self).stage) < 3 ==> stage_rank(final(self).stage) <= 3,
            old(self).stage == Stage::AecService && ok && old(self).plan.aec == Action::Restart
                ==> final(self).stage == Stage::AecWait && final(self).failures@ == old(
                self,
            ).failures@,
            (old(self).stage == Stage::AecService && !(ok && old(self).plan.aec == Action::Restart))
                || old(self).stage == Stage::AecWait ==> {
                let fs = if ok {
                    old(self).failures@
                } else {
                    old(self).failures@.push(Failure::Aec)
                };
                &&& final(self).aec_ready == ok
                &&& final(self).stage == (if mic_blocked(old(self).plan, old(self).wanted, ok) {
                    Stage::Output
                } else {
                    Stage::Microphone
                })
                &&& final(self).failures@ == (if mic_blocked(old(self).plan, old(self).wanted, ok) {
                    fs.push(Failure::MicWaitingForAec)
                } else {
                    fs
                })
            },
            old(self).stage == Stage::Microphone ==> final(self).stage == Stage::Output
                && final(self).failures@ == (if ok {
                old(self).failures@
            } else {
                old(self).failures@.push(Failure::Microphone)
            }),
            old(self).stage == Stage::Output ==> final(self).stage == (if plan_changes(
                old(self).plan,
            ) {
                Stage::Wait
            } else {
                Stage::Finished
            }) && final(self).failures@ == (if ok {
                old(self).failures@
            } else {
                old(self).failures@.push(Failure::Output)
            }),
            old(self).stage == Stage::Wait ==> final(self).stage == Stage::Finished
                && final(self).failures@ == (if ok {
                old(self).failures@
            } else {
                old(self).failures@.push(Failure::State)
            }),
    {
        match self.stage {
            Stage::AecService => {
                if ok && self.plan.aec == Action::Restart {
                    self.stage = Stage::AecWait;
                } else {
                    if !ok {
                        self.failures.push(Failure::Aec);
                    }
                    self.after_aec(ok);
                }
            },
            Stage::AecWait => {
                if !ok {
                    self.failures.push(Failure::Aec);
                }
                self.after_aec(ok);
            },
            Stage::Microphone => {
                if !ok {
                    self.failures.push(Failure::Microphone);
                }
                self.stage = Stage::Output;
            },
            Stage::Output => {
                if !ok {
                    self.failures.push(Failure::Output);
                }
                if self.plan.changed() {
                    self.stage = Stage::Wait;
                } else {
                    self.stage = Stage::Finished;
                }
            },
            Stage::Wait => {
                if !ok {
                    self.failures.push(Failure::State);
                }
                self.stage = Stage::Finished;
            },
            Stage::Finished => {},
        }
    }

    /// The run is over and nothing failed.
    pub fn succeeded(&self) -> (r: bool)
        ensures
            r == (self.stage == Stage::Finished && self.failures@.len() == 0),
    {
        self.stage == Stage::Finished && self.failures.len() == 0
    }
}

// ── Laws ─────────────────────────────────────────────────────────────

/// Every switch that shapes the output chain's graph rewrites it when it
/// changes: the channel mode (a stereo chain and a mono downmix are
/// different graphs), gain safety, noise reduction, the model, the
/// equalizer and its preset, and measured band changes; a first apply
/// always writes it. The same settings again, with nothing measured as
/// changed, leave it alone.
pub proof fn every_output_shape_change_rewrites_the_graph(p: Snapshot, n: Snapshot, d: MeasuredDiffs)
    ensures
        output_topology_spec(None, n, d),
        p.output.channel_mode != n.output.channel_mode ==> output_topology_spec(Some(p), n, d),
        p.gain_safety != n.gain_safety ==> output_topology_spec(Some(p), n, d),
        p.output.noise_reduction != n.output.noise_reduction ==> output_topology_spec(Some(p), n, d),
        p.output.model != n.output.model ==> output_topology_spec(Some(p), n, d),
        p.output.equalizer != n.output.equalizer ==> output_topology_spec(Some(p), n, d),
        p.output.eq_preset@ != n.output.eq_preset@ ==> output_topology_spec(Some(p), n, d),
        d.output_bands ==> output_topology_spec(Some(p), n, d),
        !d.output_bands ==> !output_topology_spec(Some(n), n, d),
{
}


/// The steps a run performs and where it ends, when the steps it performs
/// end with `outcomes`, one per step, in order.
pub open spec fn run_of(
    plan: Plan,
    wanted: Observed,
    stage: Stage,
    ready: bool,
    fs: Seq<Failure>,
    outcomes: Seq<bool>,
) -> (Seq<Step>, (Stage, bool, Seq<Failure>))
    decreases outcomes.len(),
{
    if stage == Stage::Finished || outcomes.len() == 0 {
        (Seq::empty(), (stage, ready, fs))
    } else {
        let next = advanced(plan, wanted, stage, ready, fs, outcomes[0]);
        let rest = run_of(plan, wanted, next.0, next.1, next.2, outcomes.drop_first());
        (seq![pending_step(plan, wanted, stage)] + rest.0, rest.1)
    }
}

/// A whole run, from its start: the canceller's service step; the wait for
/// the canceller only when it was restarted and that succeeded; the
/// microphone's step unless it was to restart on a canceller that is not
/// ready; the output's step always; the wait for the wanted state last, and
/// only when the plan changes anything. The run ends finished, and with no
/// failure exactly when every step succeeded and the microphone was not
/// held back. Five outcomes are always enough.
pub proof fn a_run_performs_its_steps_in_order(plan: Plan, wanted: Observed, outcomes: Seq<bool>)
    requires
        outcomes.len() >= 5,
    ensures
        ({
            let run = run_of(plan, wanted, Stage::AecService, false, Seq::empty(), outcomes);
            let steps = run.0;
            let waited = plan.aec == Action::Restart && outcomes[0];
            let k: int = if waited { 2 } else { 1 };
            let aec_ok = outcomes[0] && (plan.aec != Action::Restart || outcomes[1]);
            let blocked = mic_blocked(plan, wanted, aec_ok);
            let j: int = if blocked { k } else { k + 1 };
            &&& steps[0] == Step::Service(Chain::Aec, plan.aec)
            &&& waited ==> steps[1] == Step::WaitAec
            &&& !blocked ==> steps[k] == Step::Service(Chain::Microphone, plan.mic)
            &&& steps[j] == Step::Service(Chain::Output, plan.output)
            &&& plan_changes(plan) ==> steps[j + 1] == Step::WaitState(wanted)
            &&& steps.len() == (if plan_changes(plan) { j + 2 } else { j + 1 })
            &&& run.1.0 == Stage::Finished
            &&& (run.1.2.len() == 0) == (!blocked && forall|i: int|
                0 <= i < steps.len() ==> #[trigger] outcomes[i])
        }),
{
    reveal_with_fuel(run_of, 6);
    let o = outcomes;
    assert(o.drop_first()[0] == o[1]);
    assert(o.drop_first().drop_first()[0] == o[2]);
    assert(o.drop_first().drop_first().drop_first()[0] == o[3]);
    assert(o.drop_first().drop_first().drop_first().drop_first()[0] == o[4]);
}


/// Applying the same settings again, on a graph that already shows what
/// they want, neither pushes nor restarts anything.
pub proof fn the_same_settings_again_change_nothing(
    s: Snapshot,
    d: MeasuredDiffs,
    observed: Observed,
    live: LiveOutcome,
)
    requires
        !d.mic_conf,
        !d.output_conf,
        observed == wanted_of(s),
    ensures
        live_targets_spec(changes_spec(Some(s), s, false, d), s) == (UpdateTargets {
            microphone: false,
            output: false,
        }),
        !plan_changes(plan_spec(s, Some(s), observed, changes_spec(Some(s), s, false, d), live)),
{
}

/// A forced repair takes no live path: every wanted chain is restarted and
/// every other one stopped, whatever the live updates did.
pub proof fn forced_repair_does_not_depend_on_live_updates(
    now: Snapshot,
    prev: Option<Snapshot>,
    observed: Observed,
    c: Changes,
    live: LiveOutcome,
)
    requires
        c.force,
    ensures
        live_targets_spec(c, now) == (UpdateTargets { microphone: false, output: false }),
        ({
            let p = plan_spec(now, prev, observed, c, live);
            &&& p.aec == (if now.mic.echo_cancel {
                Action::Restart
            } else {
                Action::Stop
            })
            &&& p.mic == (if mic_wanted(now.mic) {
                Action::Restart
            } else {
                Action::Stop
            })
            &&& p.output == (if now.output.enabled {
                Action::Restart
            } else {
                Action::Stop
            })
        }),
{
}

/// A microphone push that did not land rebuilds the microphone chain and
/// leaves the decisions on the canceller and the output as they were.
pub proof fn a_failed_microphone_push_rebuilds_only_the_microphone(
    now: Snapshot,
    prev: Option<Snapshot>,
    observed: Observed,
    c: Changes,
    live: LiveOutcome,
)
    requires
        mic_wanted(now.mic),
        c.microphone,
        !live.mic_pushed,
    ensures
        plan_spec(now, prev, observed, c, live).mic == Action::Restart,
        plan_spec(now, prev, observed, c, live).output == plan_spec(
            now,
            prev,
            observed,
            c,
            LiveOutcome { mic_pushed: true, ..live },
        ).output,
        plan_spec(now, prev, observed, c, live).aec == plan_spec(
            now,
            prev,
            observed,
            c,
            LiveOutcome { mic_pushed: true, ..live },
        ).aec,
{
}

/// A wanted endpoint missing from the graph is restarted even when no
/// setting changed.
pub proof fn a_missing_endpoint_is_recovered(
    now: Snapshot,
    prev: Option<Snapshot>,
    observed: Observed,
    c: Changes,
    live: LiveOutcome,
)
    ensures
        ({
            let p = plan_spec(now, prev, observed, c, live);
            &&& wanted_of(now).aec_present && !observed.aec_present ==> p.aec == Action::Restart
            &&& wanted_of(now).mic_present && !observed.mic_present ==> p.mic == Action::Restart
            &&& wanted_of(now).output_present && !observed.output_present ==> p.output
                == Action::Restart
        }),
{
}

/// A plan keeps a service only where the graph already matches the wish.
pub proof fn keeping_means_in_line(
    now: Snapshot,
    prev: Option<Snapshot>,
    observed: Observed,
    c: Changes,
    live: LiveOutcome,
)
    ensures
        !plan_changes(plan_spec(now, prev, observed, c, live)) ==> observed == wanted_of(now),
{
}

} // verus!
