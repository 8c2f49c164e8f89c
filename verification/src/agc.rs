//! The automatic gain control service's settings, its decisions and the
//! nodes it finds.
//!
//! Measuring a level, smoothing it and turning the error into decibels is
//! floating-point work of the service program. Everything a decision does
//! with whole numbers is here: the bounds, the reaction to clipping, which
//! cycles count as speech, how many in a row move the volume, how far one
//! step may go, and where the volume lands; also which capture node it
//! adjusts and which node it listens to for voice.
use vstd::prelude::*;

use crate::services::pipewire::{header_id, header_id_v};
use crate::text::{
    contains, contains_v, dec, dec_v, digit_char, eq_v, from_chars, lines, lines_view, opt_chars,
    str_lines, strip_prefix, strip_prefix_v, to_chars, trim, trim_set, trim_set_v, trim_v,
};

verus! {

/// Target level, in percent of the meter's scale, when none is set.
pub const DEFAULT_TARGET_LEVEL: i32 = 73;
/// Lowest volume the service sets, in percent, when none is set.
pub const DEFAULT_MIN_VOLUME: i32 = 20;
/// Highest volume the service sets, in percent, when none is set.
pub const DEFAULT_MAX_VOLUME: i32 = 100;
/// Reactivity, from 0 to 100, when none is set.
pub const DEFAULT_REACTIVITY: i32 = 50;
/// Volume the service assumes when it cannot read the current one.
pub const FALLBACK_VOLUME: i32 = 70;
/// The noise-reduction output the service listens to for voice.
pub const FILTER_OUTPUT_NODE: &'static str = "big-noise-canceling-output";

/// The `agc` section of the settings.
#[derive(Debug, Clone, Copy, PartialEq, Eq, Structural)]
pub struct AgcSettings {
    pub enabled: bool,
    pub target_level_dbfs: i32,
    pub min_volume: i32,
    pub max_volume: i32,
    pub reactivity: i32,
}

impl Default for AgcSettings {
    /// On, with the default target, bounds and reactivity.
    fn default() -> (r: Self)
        ensures
            r == (AgcSettings {
                enabled: true,
                target_level_dbfs: DEFAULT_TARGET_LEVEL,
                min_volume: DEFAULT_MIN_VOLUME,
                max_volume: DEFAULT_MAX_VOLUME,
                reactivity: DEFAULT_REACTIVITY,
            }),
    {
        AgcSettings {
            enabled: true,
            target_level_dbfs: DEFAULT_TARGET_LEVEL,
            min_volume: DEFAULT_MIN_VOLUME,
            max_volume: DEFAULT_MAX_VOLUME,
            reactivity: DEFAULT_REACTIVITY,
        }
    }
}

/// A volume brought back inside the bounds, when it had left them: the
/// first thing a decision does, before it looks at any level.
pub open spec fn volume_back_in_bounds(current: i32, cfg: AgcSettings) -> Option<i32> {
    if current < cfg.min_volume {
        Some(cfg.min_volume)
    } else if current > cfg.max_volume {
        Some(cfg.max_volume)
    } else {
        None
    }
}

/// The bound a volume outside them is brought back to; `None` inside.
pub fn back_in_bounds(current: i32, cfg: &AgcSettings) -> (r: Option<i32>)
    ensures
        r == volume_back_in_bounds(current, *cfg),
{
    if current < cfg.min_volume {
        Some(cfg.min_volume)
    } else if current > cfg.max_volume {
        Some(cfg.max_volume)
    } else {
        None
    }
}

/// Volume points taken off at once when the input clips.
pub const CLIP_STEP: i32 = 3;

/// The volume after the input clipped: `CLIP_STEP` points lower, not below
/// the minimum; `None` when that changes nothing.
pub open spec fn clip_step_spec(current: i32, cfg: AgcSettings) -> Option<i32> {
    let lowered = if current - CLIP_STEP > cfg.min_volume {
        current - CLIP_STEP
    } else {
        cfg.min_volume as int
    };
    if lowered != current {
        Some(lowered as i32)
    } else {
        None
    }
}

/// The volume after the input clipped, when it changes.
pub fn clip_step_down(current: i32, cfg: &AgcSettings) -> (r: Option<i32>)
    ensures
        r == clip_step_spec(current, *cfg),
{
    let stepped: i64 = current as i64 - CLIP_STEP as i64;
    let lowered: i32 = if stepped > cfg.min_volume as i64 {
        stepped as i32
    } else {
        cfg.min_volume
    };
    if lowered != current {
        Some(lowered)
    } else {
        None
    }
}

/// The volume after a step of `step` points, kept within the bounds;
/// `None` when that changes nothing.
pub open spec fn stepped_spec(current: i32, step: i32, cfg: AgcSettings) -> Option<i32> {
    let raw = current + step;
    let kept = if raw < cfg.min_volume {
        cfg.min_volume as int
    } else if raw > cfg.max_volume {
        cfg.max_volume as int
    } else {
        raw
    };
    if kept != current {
        Some(kept as i32)
    } else {
        None
    }
}

/// The volume after a step, when it changes.
pub fn step_volume(current: i32, step: i32, cfg: &AgcSettings) -> (r: Option<i32>)
    requires
        cfg.min_volume <= cfg.max_volume,
        i32::MIN <= current + step <= i32::MAX,
    ensures
        r == stepped_spec(current, step, *cfg),
        r matches Some(v) ==> cfg.min_volume <= v <= cfg.max_volume,
{
    let raw = current + step;
    let kept = if raw < cfg.min_volume {
        cfg.min_volume
    } else if raw > cfg.max_volume {
        cfg.max_volume
    } else {
        raw
    };
    if kept != current {
        Some(kept)
    } else {
        None
    }
}

// ── One decision ─────────────────────────────────────────────────────

/// Reactivity taken into its range of 0 to 100.
pub open spec fn reactivity_in_range(reactivity: i32) -> int {
    if reactivity < 0 {
        0
    } else if reactivity > 100 {
        100
    } else {
        reactivity as int
    }
}

/// Speech decisions needed in a row before the volume moves: the ramp from
/// 5 (reactivity 0) down to 1 (reactivity 100), rounded to the nearest
/// whole decision. The ramp never lands on a half, so rounding is exact.
pub open spec fn decisions_required(reactivity: i32) -> int {
    (500 - 4 * reactivity_in_range(reactivity) + 50) / 100
}

/// The largest step, in volume points, that one decision takes: the ramp
/// from 2 (reactivity 0) up to 10 (reactivity 100), rounded.
pub open spec fn largest_step(reactivity: i32) -> int {
    (200 + 8 * reactivity_in_range(reactivity) + 50) / 100
}

/// How quickly the service follows speech, in whole decisions and points.
#[derive(Debug, Clone, Copy, PartialEq, Eq, Structural)]
pub struct ReactivitySteps {
    pub speech_decisions_required: u32,
    pub max_step: i32,
}

/// The decision counts and step size a reactivity asks for; the level
/// smoothing it also sets is a floating-point weight of the service.
pub fn reactivity_steps(reactivity: i32) -> (r: ReactivitySteps)
    ensures
        r.speech_decisions_required == decisions_required(reactivity),
        r.max_step == largest_step(reactivity),
        1 <= r.speech_decisions_required <= 5,
        2 <= r.max_step <= 10,
{
    let c: i32 = if reactivity < 0 {
        0
    } else if reactivity > 100 {
        100
    } else {
        reactivity
    };
    let required: i32 = (500 - 4 * c + 50) / 100;
    let step: i32 = (200 + 8 * c + 50) / 100;
    ReactivitySteps { speech_decisions_required: required as u32, max_step: step }
}

/// More than a tenth of the frames of a cycle clipped.
pub open spec fn clipping(clipped: usize, total: usize) -> bool {
    total > 0 && clipped * 10 > total
}

/// Whether the input clipped often enough to take volume off.
pub fn clipped_too_often(clipped: usize, total: usize) -> (r: bool)
    ensures
        r == clipping(clipped, total),
{
    total > 0 && clipped > total / 10
}

/// At least a fifth of the frames of a cycle carried voice.
pub open spec fn voiced(voiced_frames: usize, total: usize) -> bool {
    total > 0 && voiced_frames * 5 >= total
}

/// Whether enough of a cycle was voiced for its level to count.
pub fn voiced_enough(voiced_frames: usize, total: usize) -> (r: bool)
    ensures
        r == voiced(voiced_frames, total),
{
    let fifth: usize = if total % 5 == 0 {
        total / 5
    } else {
        total / 5 + 1
    };
    total > 0 && voiced_frames >= fifth
}

/// A step of `rounded` points (the level error in thirds of a decibel,
/// rounded), held to at least one point in the direction of the error and
/// at most the largest step: half of it when raising, all of it when
/// lowering, since loud input is the worse mistake.
pub open spec fn limited_step(raising: bool, rounded: int, max_step: i32) -> int {
    if raising {
        let most = if max_step / 2 >= 1 {
            max_step / 2
        } else {
            1
        };
        if rounded < 1 {
            1
        } else if rounded > most {
            most as int
        } else {
            rounded
        }
    } else {
        if rounded > -1 {
            -1
        } else if rounded < -max_step {
            -max_step
        } else {
            rounded
        }
    }
}

/// The step one decision takes, from the rounded level error.
pub fn limit_step(raising: bool, rounded: i64, max_step: i32) -> (r: i32)
    requires
        max_step >= 1,
    ensures
        r == limited_step(raising, rounded as int, max_step),
        raising ==> r >= 1,
        !raising ==> r <= -1,
{
    if raising {
        let most: i32 = if max_step / 2 >= 1 {
            max_step / 2
        } else {
            1
        };
        if rounded < 1 {
            1
        } else if rounded > most as i64 {
            most
        } else {
            rounded as i32
        }
    } else {
        if rounded > -1 {
            -1
        } else if rounded < -(max_step as i64) {
            -max_step
        } else {
            rounded as i32
        }
    }
}

/// What the service carries from one decision to the next, besides its
/// smoothed level: the volume it believes is set and how many decisions
/// in a row have heard speech.
#[derive(Debug, Clone, Copy, PartialEq, Eq, Structural)]
pub struct AgcState {
    pub current_volume: i32,
    pub speech_decisions: u32,
}

impl AgcState {
    /// A state at `volume`, with no speech heard yet.
    pub fn new(volume: i32) -> (r: Self)
        ensures
            r == (AgcState { current_volume: volume, speech_decisions: 0 }),
    {
        AgcState { current_volume: volume, speech_decisions: 0 }
    }

    /// Take over a volume someone else set.
    pub fn sync_volume(&mut self, actual_volume: i32)
        ensures
            *final(self) == (AgcState { current_volume: actual_volume, ..*old(self) }),
    {
        self.current_volume = actual_volume;
    }

    /// The first part of a decision: a volume outside the bounds is brought
    /// back (the speech count is kept), else a cycle that clipped too often
    /// takes `CLIP_STEP` points off (the count starts over). Returns whether
    /// the volume changed. Afterwards the volume is within the bounds.
    pub fn correct(&mut self, clipped: usize, total: usize, cfg: &AgcSettings) -> (changed: bool)
        ensures
            match volume_back_in_bounds(old(self).current_volume, *cfg) {
                Some(v) => changed && *final(self) == (AgcState { current_volume: v, ..*old(self) }),
                None => match clip_step_spec(old(self).current_volume, *cfg) {
                    Some(v) if clipping(clipped, total) => changed && *final(self) == (AgcState {
                        current_volume: v,
                        speech_decisions: 0,
                    }),
                    _ => !changed && *final(self) == *old(self),
                },
            },
            cfg.min_volume <= cfg.max_volume ==> cfg.min_volume <= final(self).current_volume
                <= cfg.max_volume,
            changed && volume_back_in_bounds(old(self).current_volume, *cfg) is None
                ==> final(self).current_volume < old(self).current_volume,
            changed == (final(self).current_volume != old(self).current_volume),
    {
        if let Some(v) = back_in_bounds(self.current_volume, cfg) {
            self.current_volume = v;
            return true;
        }
        if clipped_too_often(clipped, total) {
            if let Some(v) = clip_step_down(self.current_volume, cfg) {
                self.current_volume = v;
                self.speech_decisions = 0;
                return true;
            }
        }
        false
    }

    /// The second part: a cycle counts as speech only when its level was
    /// audible (the service measured above -90 dB) and enough of it was
    /// voiced; any other cycle starts the count over.
    pub fn hear(&mut self, audible: bool, voiced_frames: usize, total: usize) -> (speech: bool)
        ensures
            speech == (audible && voiced(voiced_frames, total)),
            speech ==> *final(self) == *old(self),
            !speech ==> *final(self) == (AgcState { speech_decisions: 0, ..*old(self) }),
    {
        if !audible || !voiced_enough(voiced_frames, total) {
            self.speech_decisions = 0;
            return false;
        }
        true
    }

    /// The third part, after the service folded the cycle's level into its
    /// smoothed one: count the speech decision; the volume may move once
    /// enough have come in a row.
    pub fn count_speech(&mut self, reactivity: i32) -> (ready: bool)
        requires
            old(self).speech_decisions < u32::MAX,
        ensures
            *final(self) == (AgcState {
                speech_decisions: (old(self).speech_decisions + 1) as u32,
                ..*old(self)
            }),
            ready == (final(self).speech_decisions >= decisions_required(reactivity)),
    {
        self.speech_decisions = self.speech_decisions + 1;
        let rp = reactivity_steps(reactivity);
        self.speech_decisions >= rp.speech_decisions_required
    }

    /// The last part: move by `step` points within the bounds; a move
    /// starts the speech count over. Returns whether the volume changed.
    pub fn take_step(&mut self, step: i32, cfg: &AgcSettings) -> (changed: bool)
        requires
            cfg.min_volume <= cfg.max_volume,
            i32::MIN <= old(self).current_volume + step <= i32::MAX,
        ensures
            match stepped_spec(old(self).current_volume, step, *cfg) {
                Some(v) => changed && *final(self) == (AgcState {
                    current_volume: v,
                    speech_decisions: 0,
                }),
                None => !changed && *final(self) == *old(self),
            },
            changed ==> cfg.min_volume <= final(self).current_volume <= cfg.max_volume,
    {
        match step_volume(self.current_volume, step, cfg) {
            Some(v) => {
                self.current_volume = v;
                self.speech_decisions = 0;
                true
            },
            None => false,
        }
    }
}

/// Frames gathered before each decision, about half a second.
pub const FRAMES_PER_DECISION: usize = 50;

/// The frame counts of the cycle in progress.
#[derive(Debug, Clone, Copy, PartialEq, Eq, Structural)]
pub struct DecisionCycle {
    pub frames: usize,
    pub voiced_frames: usize,
    pub clipped_frames: usize,
}

/// Counts of a cycle that can still take frames.
pub open spec fn cycle_open(c: DecisionCycle) -> bool {
    c.frames < FRAMES_PER_DECISION && c.voiced_frames <= c.frames && c.clipped_frames <= c.frames
}

impl DecisionCycle {
    /// A cycle with no frame yet.
    pub fn new() -> (r: Self)
        ensures
            r == (DecisionCycle { frames: 0, voiced_frames: 0, clipped_frames: 0 }),
            cycle_open(r),
    {
        DecisionCycle { frames: 0, voiced_frames: 0, clipped_frames: 0 }
    }

    /// Count one frame; returns whether the cycle is complete and a
    /// decision is due, after which the caller starts a new cycle.
    pub fn record(&mut self, clipped: bool, is_voiced: bool) -> (due: bool)
        requires
            cycle_open(*old(self)),
        ensures
            final(self).frames == old(self).frames + 1,
            final(self).clipped_frames == old(self).clipped_frames + if clipped { 1int } else { 0 },
            final(self).voiced_frames == old(self).voiced_frames + if is_voiced { 1int } else { 0 },
            due == (final(self).frames == FRAMES_PER_DECISION),
            !due ==> cycle_open(*final(self)),
    {
        if clipped {
            self.clipped_frames = self.clipped_frames + 1;
        }
        if is_voiced {
            self.voiced_frames = self.voiced_frames + 1;
        }
        self.frames = self.frames + 1;
        self.frames >= FRAMES_PER_DECISION
    }
}

/// The volume `wpctl set-volume` is given for a percentage: the
/// percentage, kept within 0 to 100, as a fraction with two decimals.
pub open spec fn volume_arg(pct: i32) -> Seq<char> {
    let p: nat = if pct < 0 {
        0
    } else if pct > 100 {
        100
    } else {
        pct as nat
    };
    dec(p / 100).push('.').push(digit_char((p % 100) / 10)).push(digit_char(p % 10))
}

/// The argument that sets a capture volume of `pct` percent.
pub fn wpctl_volume_arg(pct: i32) -> (r: String)
    ensures
        r@ == volume_arg(pct),
{
    let p: u64 = if pct < 0 {
        0
    } else if pct > 100 {
        100
    } else {
        pct as u64
    };
    let mut v = dec_v(p / 100);
    v.push('.');
    let tens = dec_v((p % 100) / 10);
    let ones = dec_v(p % 10);
    proof {
        assert(tens@ == seq![digit_char(((p % 100) / 10) as nat)]);
        assert(ones@ == seq![digit_char((p % 10) as nat)]);
    }
    v.push(tens[0]);
    v.push(ones[0]);
    from_chars(&v)
}

// ── The nodes of `pw-cli ls Node` ────────────────────────────────────

/// A node as the service reads it.
#[derive(Debug, Clone, PartialEq, Eq)]
pub struct PwNode {
    pub id: u32,
    pub media_class: String,
    pub node_name: String,
}

/// A node by its text.
pub open spec fn node_view(n: PwNode) -> (u32, Seq<char>, Seq<char>) {
    (n.id, n.media_class@, n.node_name@)
}

/// What a pass over the listing has collected so far.
pub ghost struct AgcScan {
    pub out: Seq<(u32, Seq<char>, Seq<char>)>,
    pub id: Option<u32>,
    pub media_class: Seq<char>,
    pub node_name: Seq<char>,
}

/// The value after `key = `, unquoted.
pub open spec fn assignment(t: Seq<char>, key: Seq<char>) -> Option<Seq<char>> {
    match strip_prefix(t, key) {
        Some(v) => Some(trim_set(v, seq!['"'])),
        None => None,
    }
}

/// The node collected so far, if it has an id.
pub open spec fn flush(st: AgcScan) -> Seq<(u32, Seq<char>, Seq<char>)> {
    match st.id {
        Some(id) => st.out.push((id, st.media_class, st.node_name)),
        None => st.out,
    }
}

/// One line of the listing: an `id` line closes the node before it and
/// opens another, a `media.class` or `node.name` line sets that field.
pub open spec fn agc_line(st: AgcScan, line: Seq<char>) -> AgcScan {
    let t = trim(line);
    match strip_prefix(t, "id "@) {
        Some(rest) => AgcScan { out: flush(st), id: header_id(rest), media_class: seq![], node_name: seq![] },
        None => match assignment(t, "media.class = "@) {
            Some(v) => AgcScan { media_class: v, ..st },
            None => match assignment(t, "node.name = "@) {
                Some(v) => AgcScan { node_name: v, ..st },
                None => st,
            },
        },
    }
}

/// The state after the lines `ls`.
pub open spec fn agc_scan(ls: Seq<Seq<char>>) -> AgcScan
    decreases ls.len(),
{
    if ls.len() == 0 {
        AgcScan { out: seq![], id: None, media_class: seq![], node_name: seq![] }
    } else {
        agc_line(agc_scan(ls.drop_last()), ls.last())
    }
}

/// The nodes a `pw-cli ls Node` listing names, with their class and name.
pub open spec fn pw_nodes(stdout: Seq<char>) -> Seq<(u32, Seq<char>, Seq<char>)> {
    flush(agc_scan(lines(stdout)))
}

/// The nodes as their text.
pub open spec fn nodes_view(ns: Seq<PwNode>) -> Seq<(u32, Seq<char>, Seq<char>)> {
    ns.map_values(|n: PwNode| node_view(n))
}

/// Parse `pw-cli ls Node` into its nodes.
pub fn parse_pw_nodes(stdout: &str) -> (r: Vec<PwNode>)
    ensures
        nodes_view(r@) == pw_nodes(stdout@),
{
    let ls = str_lines(stdout);
    let id_prefix = to_chars("id ");
    let k_class = to_chars("media.class = ");
    let k_name = to_chars("node.name = ");
    let mut quote: Vec<char> = Vec::new();
    quote.push('"');
    assert(quote@ =~= seq!['"']);
    let mut out: Vec<PwNode> = Vec::new();
    let mut id: Option<u32> = None;
    let mut media_class: Vec<char> = Vec::new();
    let mut node_name: Vec<char> = Vec::new();
    let mut i: usize = 0;
    assert(lines_view(ls@).take(0) =~= Seq::<Seq<char>>::empty());
    assert(nodes_view(out@) =~= Seq::<(u32, Seq<char>, Seq<char>)>::empty());
    assert(media_class@ =~= Seq::<char>::empty());
    while i < ls.len()
        invariant
            i <= ls.len(),
            lines_view(ls@) == lines(stdout@),
            id_prefix@ == "id "@,
            k_class@ == "media.class = "@,
            k_name@ == "node.name = "@,
            quote@ == seq!['"'],
            agc_scan(lines_view(ls@).take(i as int)) == (AgcScan {
                out: nodes_view(out@),
                id,
                media_class: media_class@,
                node_name: node_name@,
            }),
        decreases ls.len() - i,
    {
        let ghost before = lines_view(ls@).take(i as int);
        assert(lines_view(ls@).take(i + 1).drop_last() =~= before);
        assert(lines_view(ls@)[i as int] == ls@[i as int]@);
        let t = trim_v(&ls[i]);
        match strip_prefix_v(&t, &id_prefix) {
            Some(rest) => {
                match id {
                    Some(n) => {
                        let ghost old_out = out@;
                        out.push(
                            PwNode {
                                id: n,
                                media_class: from_chars(&media_class),
                                node_name: from_chars(&node_name),
                            },
                        );
                        assert(nodes_view(out@) =~= nodes_view(old_out).push(node_view(out@.last())));
                    },
                    None => {},
                }
                id = header_id_v(&rest);
                media_class = Vec::new();
                node_name = Vec::new();
                assert(media_class@ =~= Seq::<char>::empty());
                assert(node_name@ =~= Seq::<char>::empty());
            },
            None => match strip_prefix_v(&t, &k_class) {
                Some(v) => {
                    media_class = trim_set_v(&v, &quote);
                },
                None => match strip_prefix_v(&t, &k_name) {
                    Some(v) => {
                        node_name = trim_set_v(&v, &quote);
                    },
                    None => {},
                },
            },
        }
        i = i + 1;
    }
    assert(lines_view(ls@).take(ls.len() as int) =~= lines_view(ls@));
    match id {
        Some(n) => {
            let ghost old_out = out@;
            out.push(
                PwNode { id: n, media_class: from_chars(&media_class), node_name: from_chars(&node_name) },
            );
            assert(nodes_view(out@) =~= nodes_view(old_out).push(node_view(out@.last())));
        },
        None => {},
    }
    out
}

/// The first node at or after `i` that is an audio source whose name
/// contains `alsa`.
pub open spec fn alsa_source(ns: Seq<(u32, Seq<char>, Seq<char>)>, i: int) -> Option<u32>
    decreases ns.len() - i,
{
    if i < 0 || i >= ns.len() {
        None
    } else if ns[i].1 == "Audio/Source"@ && contains(ns[i].2, "alsa"@) {
        Some(ns[i].0)
    } else {
        alsa_source(ns, i + 1)
    }
}

/// The first node at or after `i` that is the noise-reduction output.
pub open spec fn filter_output(ns: Seq<(u32, Seq<char>, Seq<char>)>, i: int) -> Option<u32>
    decreases ns.len() - i,
{
    if i < 0 || i >= ns.len() {
        None
    } else if ns[i].1 == "Audio/Source"@ && ns[i].2 == FILTER_OUTPUT_NODE@ {
        Some(ns[i].0)
    } else {
        filter_output(ns, i + 1)
    }
}

/// The hardware capture node whose volume the service adjusts: the first
/// audio source whose name contains `alsa`.
pub fn find_alsa_source_node(nodes: &Vec<PwNode>) -> (r: Option<u32>)
    ensures
        r == alsa_source(nodes_view(nodes@), 0),
{
    let ghost v = nodes_view(nodes@);
    let class = to_chars("Audio/Source");
    let alsa = to_chars("alsa");
    let mut i: usize = 0;
    while i < nodes.len()
        invariant
            i <= nodes.len(),
            v == nodes_view(nodes@),
            class@ == "Audio/Source"@,
            alsa@ == "alsa"@,
            alsa_source(v, 0) == alsa_source(v, i as int),
        decreases nodes.len() - i,
    {
        let n = &nodes[i];
        if eq_v(&to_chars(n.media_class.as_str()), &class) && contains_v(
            &to_chars(n.node_name.as_str()),
            &alsa,
        ) {
            return Some(n.id);
        }
        i = i + 1;
    }
    None
}

/// The noise-reduction output the service listens to for voice.
pub fn find_filter_output_node(nodes: &Vec<PwNode>) -> (r: Option<u32>)
    ensures
        r == filter_output(nodes_view(nodes@), 0),
{
    let ghost v = nodes_view(nodes@);
    let class = to_chars("Audio/Source");
    let name = to_chars(FILTER_OUTPUT_NODE);
    let mut i: usize = 0;
    while i < nodes.len()
        invariant
            i <= nodes.len(),
            v == nodes_view(nodes@),
            class@ == "Audio/Source"@,
            name@ == FILTER_OUTPUT_NODE@,
            filter_output(v, 0) == filter_output(v, i as int),
        decreases nodes.len() - i,
    {
        let n = &nodes[i];
        if eq_v(&to_chars(n.media_class.as_str()), &class) && eq_v(
            &to_chars(n.node_name.as_str()),
            &name,
        ) {
            return Some(n.id);
        }
        i = i + 1;
    }
    None
}

} // verus!
