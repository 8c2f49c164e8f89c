//! Decisions of the `doctor` diagnosis that can be made from text alone.
//!
//! Running `pw-link -l`, `systemctl` and the rest is the application's
//! part; what their output means is decided here, so it can be tested.
use vstd::prelude::*;

use crate::text::{contains, contains_v, lines, lines_view, starts_with, starts_with_v, str_lines, to_chars};

verus! {

/// What the graph says about the echo canceller's reference signal.
#[derive(Debug, Clone, Copy, PartialEq, Eq, Structural)]
pub enum AecReference {
    /// A physical sink's monitor feeds `echo-cancel-sink`.
    Linked,
    /// No application is playing, so there is no reference to route.
    NothingPlaying,
    /// Nothing is recording, so the routing hook keeps the reference
    /// unlinked on purpose.
    NothingRecording,
    /// Something plays, something records, and the reference is absent.
    Missing,
}

/// A line naming the monitor port of a hardware sink.
pub open spec fn is_monitor_line(l: Seq<char>) -> bool {
    contains(l, "alsa_output."@) && contains(l, ":monitor_"@)
}

/// A monitor port line directly followed by a link into the canceller's sink.
pub open spec fn monitor_into_sink(ls: Seq<Seq<char>>) -> bool {
    exists|i: int|
        0 <= i && i + 1 < ls.len() && is_monitor_line(#[trigger] ls[i]) && contains(
            ls[i + 1],
            "echo-cancel-sink:input_"@,
        )
}

/// A canceller sink port line with a link from a monitor port among the
/// eight lines after it.
pub open spec fn sink_from_monitor(ls: Seq<Seq<char>>) -> bool {
    exists|i: int, k: int|
        0 <= i < k && k < ls.len() && k <= i + 8 && contains(
            #[trigger] ls[i],
            "echo-cancel-sink:input_"@,
        ) && contains(#[trigger] ls[k], "|<-"@) && is_monitor_line(ls[k])
}

/// A link into a hardware sink's playback port: something is playing.
pub open spec fn playback_running(ls: Seq<Seq<char>>) -> bool {
    exists|i: int|
        0 <= i < ls.len() && contains(#[trigger] ls[i], "alsa_output."@) && contains(
            ls[i],
            ":playback_"@,
        )
}

/// An outgoing link to a node that is not part of the microphone chain.
pub open spec fn consumer_link(l: Seq<char>) -> bool {
    &&& contains(l, "|->"@)
    &&& !contains(l, "mic-biglinux-capture:"@)
    &&& !contains(l, "mic-biglinux:"@)
    &&& !contains(l, "echo-cancel-capture:"@)
    &&& !contains(l, "echo-cancel-source:"@)
}

/// A port of the chain's outward source.
pub open spec fn chain_source_line(l: Seq<char>) -> bool {
    starts_with(l, "mic-biglinux:"@) || starts_with(l, "echo-cancel-source:"@)
}

/// Among the indented link lines right after line `i`, one leads out of
/// the chain.
pub open spec fn consumer_after(ls: Seq<Seq<char>>, i: int) -> bool {
    exists|k: int|
        i < k < ls.len() && (forall|m: int| i < m <= k ==> starts_with(#[trigger] ls[m], " "@))
            && consumer_link(#[trigger] ls[k])
}

/// An application reads the microphone chain: among the indented link
/// lines that follow a port of its outward source, one leads out of the
/// chain.
pub open spec fn capture_consumer(ls: Seq<Seq<char>>) -> bool {
    exists|i: int| 0 <= i < ls.len() && chain_source_line(#[trigger] ls[i]) && consumer_after(ls, i)
}

/// The verdict on a `pw-link -l` dump, split into lines.
pub open spec fn aec_reference(ls: Seq<Seq<char>>) -> AecReference {
    if monitor_into_sink(ls) || sink_from_monitor(ls) {
        AecReference::Linked
    } else if !playback_running(ls) {
        AecReference::NothingPlaying
    } else if !capture_consumer(ls) {
        AecReference::NothingRecording
    } else {
        AecReference::Missing
    }
}

fn is_monitor_line_v(l: &Vec<char>) -> (r: bool)
    ensures
        r == is_monitor_line(l@),
{
    contains_v(l, &to_chars("alsa_output.")) && contains_v(l, &to_chars(":monitor_"))
}

fn monitor_into_sink_v(ls: &Vec<Vec<char>>) -> (r: bool)
    ensures
        r == monitor_into_sink(lines_view(ls@)),
{
    let sink = to_chars("echo-cancel-sink:input_");
    let mut i: usize = 0;
    while i < ls.len() && i + 1 < ls.len()
        invariant
            sink@ == "echo-cancel-sink:input_"@,
            forall|j: int|
                0 <= j < i && j + 1 < ls.len() ==> !(is_monitor_line(#[trigger] lines_view(ls@)[j])
                    && contains(lines_view(ls@)[j + 1], "echo-cancel-sink:input_"@)),
        decreases ls.len() - i,
    {
        if is_monitor_line_v(&ls[i]) && contains_v(&ls[i + 1], &sink) {
            assert(is_monitor_line(lines_view(ls@)[i as int]));
            return true;
        }
        i = i + 1;
    }
    false
}

fn sink_from_monitor_v(ls: &Vec<Vec<char>>) -> (r: bool)
    ensures
        r == sink_from_monitor(lines_view(ls@)),
{
    let sink = to_chars("echo-cancel-sink:input_");
    let arrow = to_chars("|<-");
    let ghost v = lines_view(ls@);
    let mut i: usize = 0;
    while i < ls.len()
        invariant
            sink@ == "echo-cancel-sink:input_"@,
            arrow@ == "|<-"@,
            v == lines_view(ls@),
            forall|a: int, k: int|
                0 <= a < i && a < k && k < ls.len() && k <= a + 8 ==> !(contains(
                    #[trigger] v[a],
                    "echo-cancel-sink:input_"@,
                ) && contains(#[trigger] v[k], "|<-"@) && is_monitor_line(v[k])),
        decreases ls.len() - i,
    {
        if contains_v(&ls[i], &sink) {
            let mut k = i + 1;
            while k < ls.len() && k - i <= 8
                invariant
                    i < ls.len(),
                    i + 1 <= k,
                    arrow@ == "|<-"@,
                    v == lines_view(ls@),
                    contains(v[i as int], "echo-cancel-sink:input_"@),
                    forall|m: int|
                        i < m < k ==> !(contains(#[trigger] v[m], "|<-"@) && is_monitor_line(v[m])),
                decreases ls.len() - k,
            {
                if contains_v(&ls[k], &arrow) && is_monitor_line_v(&ls[k]) {
                    assert(contains(v[i as int], "echo-cancel-sink:input_"@));
                    assert(contains(v[k as int], "|<-"@));
                    return true;
                }
                k = k + 1;
            }
        }
        i = i + 1;
    }
    false
}

fn playback_running_v(ls: &Vec<Vec<char>>) -> (r: bool)
    ensures
        r == playback_running(lines_view(ls@)),
{
    let out = to_chars("alsa_output.");
    let pb = to_chars(":playback_");
    let mut i: usize = 0;
    while i < ls.len()
        invariant
            out@ == "alsa_output."@,
            pb@ == ":playback_"@,
            forall|j: int|
                0 <= j < i && j < ls.len() ==> !(contains(#[trigger] lines_view(ls@)[j], "alsa_output."@)
                    && contains(lines_view(ls@)[j], ":playback_"@)),
        decreases ls.len() - i,
    {
        if contains_v(&ls[i], &out) && contains_v(&ls[i], &pb) {
            assert(contains(lines_view(ls@)[i as int], "alsa_output."@));
            return true;
        }
        i = i + 1;
    }
    false
}

fn consumer_link_v(l: &Vec<char>) -> (r: bool)
    ensures
        r == consumer_link(l@),
{
    contains_v(l, &to_chars("|->")) && !contains_v(l, &to_chars("mic-biglinux-capture:"))
        && !contains_v(l, &to_chars("mic-biglinux:")) && !contains_v(
        l,
        &to_chars("echo-cancel-capture:"),
    ) && !contains_v(l, &to_chars("echo-cancel-source:"))
}

fn consumer_follows(ls: &Vec<Vec<char>>, i: usize) -> (r: bool)
    requires
        i < ls.len(),
    ensures
        r == consumer_after(lines_view(ls@), i as int),
{
    let space = to_chars(" ");
    let ghost v = lines_view(ls@);
    let mut k = i + 1;
    while k < ls.len() && starts_with_v(&ls[k], &space)
        invariant
            i < ls.len(),
            i + 1 <= k <= ls.len(),
            space@ == " "@,
            v == lines_view(ls@),
            forall|m: int| i < m < k ==> starts_with(#[trigger] v[m], " "@),
            forall|m: int| i < m < k ==> !consumer_link(#[trigger] v[m]),
        decreases ls.len() - k,
    {
        if consumer_link_v(&ls[k]) {
            assert(consumer_link(v[k as int]));
            return true;
        }
        k = k + 1;
    }
    assert forall|k2: int|
        i < k2 < ls.len() && (forall|m: int| i < m <= k2 ==> starts_with(#[trigger] v[m], " "@))
            implies !consumer_link(v[k2]) by {
        if k2 >= k {
            assert(starts_with(v[k as int], " "@));
        }
    }
    false
}

/// Whether an application reads the microphone chain in a `pw-link -l`
/// dump split into lines.
pub fn has_capture_consumer(ls: &Vec<Vec<char>>) -> (r: bool)
    ensures
        r == capture_consumer(lines_view(ls@)),
{
    let mic = to_chars("mic-biglinux:");
    let ec = to_chars("echo-cancel-source:");
    let ghost v = lines_view(ls@);
    let mut i: usize = 0;
    while i < ls.len()
        invariant
            mic@ == "mic-biglinux:"@,
            ec@ == "echo-cancel-source:"@,
            v == lines_view(ls@),
            forall|a: int|
                0 <= a < i && a < ls.len() ==> !(chain_source_line(#[trigger] v[a])
                    && consumer_after(v, a)),
        decreases ls.len() - i,
    {
        if (starts_with_v(&ls[i], &mic) || starts_with_v(&ls[i], &ec)) && consumer_follows(ls, i) {
            assert(chain_source_line(v[i as int]));
            return true;
        }
        i = i + 1;
    }
    false
}

/// Decide from a `pw-link -l` dump whether the canceller's reference is
/// linked, and if not, whether that is a failure: the reference exists only
/// while something plays, and the routing hook keeps it unlinked while
/// nothing records.
pub fn aec_reference_state(link_dump: &str) -> (r: AecReference)
    ensures
        r == aec_reference(lines(link_dump@)),
{
    let ls = str_lines(link_dump);
    if monitor_into_sink_v(&ls) || sink_from_monitor_v(&ls) {
        return AecReference::Linked;
    }
    if !playback_running_v(&ls) {
        return AecReference::NothingPlaying;
    }
    if !has_capture_consumer(&ls) {
        return AecReference::NothingRecording;
    }
    AecReference::Missing
}

// ── The doctor's checks ──────────────────────────────────────────────

/// How a node of ours is tagged in a `pw-cli ls Node` listing.
pub const MIC_NODE_TAG: &'static str = "\"mic-biglinux\"";
/// The output filter's node in a listing.
pub const OUTPUT_NODE_TAG: &'static str = "\"output-biglinux\"";
/// The echo canceller's source in a listing.
pub const EC_NODE_TAG: &'static str = "\"echo-cancel-source\"";

/// A user-local copy of the canceller's routing script, which WirePlumber
/// loads in place of the packaged one.
#[derive(Debug, Clone, Copy, PartialEq, Eq, Structural)]
pub enum ScriptOverride {
    /// No user-local copy.
    Absent,
    /// A copy identical to the packaged script: redundant, harmless.
    Same,
    /// A different copy, which keeps package updates from applying.
    Stale,
}

/// What `doctor` found on this machine, gathered by the application.
pub struct Findings {
    /// The microphone chain is wanted by the settings.
    pub mic_wanted: bool,
    pub output_enabled: bool,
    pub echo_cancel_enabled: bool,
    /// The saved noise model's plugin loads here.
    pub model_loadable: bool,
    pub gtcrn_plugin: bool,
    pub sc4_plugin: bool,
    pub gate_plugin: bool,
    /// `pw-cli info 0` succeeded.
    pub pipewire_answers: bool,
    /// `wpctl status` succeeded.
    pub wireplumber_answers: bool,
    pub mic_unit_known: bool,
    pub aec_unit_known: bool,
    pub output_unit_known: bool,
    pub mic_conf_exists: bool,
    pub output_conf_exists: bool,
    pub echo_cancel_conf_exists: bool,
    /// The `pw-cli ls Node` listing.
    pub node_listing: String,
    /// The `pw-link -l` dump.
    pub link_dump: String,
    pub packaged_script: bool,
    pub script_override: ScriptOverride,
}

/// One line of the diagnosis.
#[derive(Debug, Clone, Copy, PartialEq, Eq, Structural)]
pub enum Check {
    ModelLoadable,
    GtcrnPlugin,
    Sc4Plugin,
    GatePlugin,
    PipeWireDaemon,
    WirePlumberDaemon,
    MicUnit,
    AecUnit,
    OutputUnit,
    MicConfWritten,
    MicConfAbsent,
    OutputConfWritten,
    MicNodeVisible,
    MicNodeAbsent,
    OutputNodeVisible,
    OutputNodeAbsent,
    EchoCancelDisabled,
    EchoCancelConfWritten,
    EchoCancelNodeVisible,
    AecReferenceLinked,
    AecReferenceNothingPlaying,
    AecReferenceNothingRecording,
    PackagedScript,
    ScriptOverrideRedundant,
    ScriptOverrideStale,
}

/// The verdict of a line.
#[derive(Debug, Clone, Copy, PartialEq, Eq, Structural)]
pub enum Mark {
    Pass,
    Fail,
    /// The check does not apply now.
    Skip,
    /// Worth knowing, not a failure.
    Warn,
}

pub open spec fn pass_if(ok: bool) -> Mark {
    if ok {
        Mark::Pass
    } else {
        Mark::Fail
    }
}

/// The diagnosis, in the order it is printed: the model and plugins, the
/// daemons, our units, the chain bodies, our nodes, the echo canceller,
/// and the routing script. A chain the settings do not want is expected
/// to be absent, and the echo canceller's checks apply only while it is
/// enabled; its reference is required only while something plays and
/// something records.
pub open spec fn diagnosis(f: Findings) -> Seq<(Check, Mark)> {
    core_diagnosis(f) + echo_cancel_diagnosis(f) + script_diagnosis(f)
}

/// The model, plugins, daemons, units, bodies and nodes of [`diagnosis`].
pub open spec fn core_diagnosis(f: Findings) -> Seq<(Check, Mark)> {
    machine_diagnosis(f) + chain_diagnosis(f)
}

/// The model, plugins, daemons and units.
pub open spec fn machine_diagnosis(f: Findings) -> Seq<(Check, Mark)> {
    seq![
        (Check::ModelLoadable, pass_if(f.model_loadable)),
        (Check::GtcrnPlugin, pass_if(f.gtcrn_plugin)),
        (Check::Sc4Plugin, pass_if(f.sc4_plugin)),
        (Check::GatePlugin, pass_if(f.gate_plugin)),
        (Check::PipeWireDaemon, pass_if(f.pipewire_answers)),
        (Check::WirePlumberDaemon, pass_if(f.wireplumber_answers)),
        (Check::MicUnit, pass_if(f.mic_unit_known)),
        (Check::AecUnit, pass_if(f.aec_unit_known)),
        (Check::OutputUnit, pass_if(f.output_unit_known)),
    ]
}

/// The chain bodies and nodes, each expected only where it is wanted.
pub open spec fn chain_diagnosis(f: Findings) -> Seq<(Check, Mark)> {
    seq![
        if f.mic_wanted {
            (Check::MicConfWritten, pass_if(f.mic_conf_exists))
        } else {
            (Check::MicConfAbsent, pass_if(!f.mic_conf_exists))
        },
        (Check::OutputConfWritten, pass_if(f.output_conf_exists)),
        if f.mic_wanted {
            (Check::MicNodeVisible, pass_if(contains(f.node_listing@, MIC_NODE_TAG@)))
        } else {
            (Check::MicNodeAbsent, pass_if(!contains(f.node_listing@, MIC_NODE_TAG@)))
        },
        if f.output_enabled {
            (Check::OutputNodeVisible, pass_if(contains(f.node_listing@, OUTPUT_NODE_TAG@)))
        } else {
            (Check::OutputNodeAbsent, pass_if(!contains(f.node_listing@, OUTPUT_NODE_TAG@)))
        },
    ]
}

/// The echo canceller's part of [`diagnosis`].
pub open spec fn echo_cancel_diagnosis(f: Findings) -> Seq<(Check, Mark)> {
    if !f.echo_cancel_enabled {
        seq![(Check::EchoCancelDisabled, Mark::Skip)]
    } else {
        seq![
            (Check::EchoCancelConfWritten, pass_if(f.echo_cancel_conf_exists)),
            (Check::EchoCancelNodeVisible, pass_if(contains(f.node_listing@, EC_NODE_TAG@))),
            match aec_reference(lines(f.link_dump@)) {
                AecReference::Linked => (Check::AecReferenceLinked, Mark::Pass),
                AecReference::NothingPlaying => (Check::AecReferenceNothingPlaying, Mark::Skip),
                AecReference::NothingRecording => (Check::AecReferenceNothingRecording, Mark::Skip),
                AecReference::Missing => (Check::AecReferenceLinked, Mark::Fail),
            },
        ]
    }
}

/// The routing script's part of [`diagnosis`].
pub open spec fn script_diagnosis(f: Findings) -> Seq<(Check, Mark)> {
    seq![(Check::PackagedScript, pass_if(f.packaged_script))] + match f.script_override {
        ScriptOverride::Absent => Seq::empty(),
        ScriptOverride::Same => seq![(Check::ScriptOverrideRedundant, Mark::Warn)],
        ScriptOverride::Stale => seq![(Check::ScriptOverrideStale, Mark::Fail)],
    }
}

fn pass_if_v(ok: bool) -> (r: Mark)
    ensures
        r == pass_if(ok),
{
    if ok {
        Mark::Pass
    } else {
        Mark::Fail
    }
}

fn machine_checks(f: &Findings) -> (r: Vec<(Check, Mark)>)
    ensures
        r@ == machine_diagnosis(*f),
{
    let r = vec![
        (Check::ModelLoadable, pass_if_v(f.model_loadable)),
        (Check::GtcrnPlugin, pass_if_v(f.gtcrn_plugin)),
        (Check::Sc4Plugin, pass_if_v(f.sc4_plugin)),
        (Check::GatePlugin, pass_if_v(f.gate_plugin)),
        (Check::PipeWireDaemon, pass_if_v(f.pipewire_answers)),
        (Check::WirePlumberDaemon, pass_if_v(f.wireplumber_answers)),
        (Check::MicUnit, pass_if_v(f.mic_unit_known)),
        (Check::AecUnit, pass_if_v(f.aec_unit_known)),
        (Check::OutputUnit, pass_if_v(f.output_unit_known)),
    ];
    assert(r@ =~= machine_diagnosis(*f));
    r
}

fn chain_checks(f: &Findings) -> (r: Vec<(Check, Mark)>)
    ensures
        r@ == chain_diagnosis(*f),
{
    let listing = to_chars(f.node_listing.as_str());
    let mic_node = contains_v(&listing, &to_chars(MIC_NODE_TAG));
    let output_node = contains_v(&listing, &to_chars(OUTPUT_NODE_TAG));
    let conf = if f.mic_wanted {
        (Check::MicConfWritten, pass_if_v(f.mic_conf_exists))
    } else {
        (Check::MicConfAbsent, pass_if_v(!f.mic_conf_exists))
    };
    let node = if f.mic_wanted {
        (Check::MicNodeVisible, pass_if_v(mic_node))
    } else {
        (Check::MicNodeAbsent, pass_if_v(!mic_node))
    };
    let out = if f.output_enabled {
        (Check::OutputNodeVisible, pass_if_v(output_node))
    } else {
        (Check::OutputNodeAbsent, pass_if_v(!output_node))
    };
    let r = vec![conf, (Check::OutputConfWritten, pass_if_v(f.output_conf_exists)), node, out];
    assert(r@ =~= chain_diagnosis(*f));
    r
}

fn echo_cancel_checks(f: &Findings) -> (r: Vec<(Check, Mark)>)
    ensures
        r@ == echo_cancel_diagnosis(*f),
{
    let mut r: Vec<(Check, Mark)> = Vec::new();
    if !f.echo_cancel_enabled {
        r.push((Check::EchoCancelDisabled, Mark::Skip));
    } else {
        let listing = to_chars(f.node_listing.as_str());
        let ec_tag = to_chars(EC_NODE_TAG);
        r.push((Check::EchoCancelConfWritten, pass_if_v(f.echo_cancel_conf_exists)));
        r.push((Check::EchoCancelNodeVisible, pass_if_v(contains_v(&listing, &ec_tag))));
        let reference = match aec_reference_state(f.link_dump.as_str()) {
            AecReference::Linked => (Check::AecReferenceLinked, Mark::Pass),
            AecReference::NothingPlaying => (Check::AecReferenceNothingPlaying, Mark::Skip),
            AecReference::NothingRecording => (Check::AecReferenceNothingRecording, Mark::Skip),
            AecReference::Missing => (Check::AecReferenceLinked, Mark::Fail),
        };
        r.push(reference);
    }
    assert(r@ =~= echo_cancel_diagnosis(*f));
    r
}

fn script_checks(f: &Findings) -> (r: Vec<(Check, Mark)>)
    ensures
        r@ == script_diagnosis(*f),
{
    let mut r: Vec<(Check, Mark)> = Vec::new();
    r.push((Check::PackagedScript, pass_if_v(f.packaged_script)));
    match f.script_override {
        ScriptOverride::Absent => {},
        ScriptOverride::Same => r.push((Check::ScriptOverrideRedundant, Mark::Warn)),
        ScriptOverride::Stale => r.push((Check::ScriptOverrideStale, Mark::Fail)),
    }
    assert(r@ =~= script_diagnosis(*f));
    r
}

/// The diagnosis of what was found.
pub fn diagnose(f: &Findings) -> (r: Vec<(Check, Mark)>)
    ensures
        r@ == diagnosis(*f),
{
    let mut r = machine_checks(f);
    let mut chain = chain_checks(f);
    let mut echo = echo_cancel_checks(f);
    let mut script = script_checks(f);
    r.append(&mut chain);
    r.append(&mut echo);
    r.append(&mut script);
    assert(r@ =~= diagnosis(*f));
    r
}

/// The number of failed lines.
pub open spec fn failed(d: Seq<(Check, Mark)>) -> nat
    decreases d.len(),
{
    if d.len() == 0 {
        0
    } else {
        failed(d.drop_last()) + if d.last().1 == Mark::Fail {
            1nat
        } else {
            0
        }
    }
}

/// How many lines failed, which `doctor` exits with (at most 255).
pub fn failure_count(d: &Vec<(Check, Mark)>) -> (r: u8)
    ensures
        r == (if failed(d@) > 255 {
            255
        } else {
            failed(d@)
        }),
{
    let mut n: u8 = 0;
    let mut i: usize = 0;
    while i < d.len()
        invariant
            i <= d.len(),
            n == (if failed(d@.take(i as int)) > 255 {
                255
            } else {
                failed(d@.take(i as int))
            }),
        decreases d.len() - i,
    {
        proof {
            assert(d@.take(i + 1).drop_last() =~= d@.take(i as int));
        }
        if d[i].1 == Mark::Fail {
            n = n.saturating_add(1);
        }
        i = i + 1;
    }
    proof {
        assert(d@.take(d.len() as int) =~= d@);
    }
    n
}

/// Whether a unit's journal is worth showing: the settings want it and it
/// is not running.
pub fn journal_wanted(wanted: bool, state: &str) -> (r: bool)
    ensures
        r == (wanted && state@ != "active"@),
{
    let s = to_chars(state);
    let active = to_chars("active");
    wanted && !crate::text::eq_v(&s, &active)
}

} // verus!
