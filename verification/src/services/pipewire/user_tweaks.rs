//! User-scoped PipeWire / WirePlumber tunables and the two drop-in files
//! that carry them.
//!
//! Each field is optional: `None` means "not customised", and the key is
//! left out of the drop-in entirely, so the distribution's defaults win
//! unchanged. A drop-in with nothing to say renders as empty text, which the
//! application takes as "delete the file". The parsers read back what the
//! renderers write with a line-oriented scan; anything they do not
//! recognise stays `None`.

pub mod round_trip;
pub mod wireplumber_round_trip;
pub mod transaction;

use vstd::prelude::*;

use crate::text::{
    before_char, before_char_v, contains, contains_v, dec, dec_v, eq_v, extend, extend_str, find,
    find_v, from_chars, lines, lines_view, occurs_at, parse_u32, parse_u32_v, set_pos, slice_v,
    split_whitespace_v, str_lines, strip_prefix, strip_prefix_v, strip_suffix, strip_suffix_v,
    to_chars, trim, trim_set, trim_set_v, trim_start, trim_start_v, trim_v, words,
};

verus! {

/// Sample-rate families the Tuning tab offers.
#[derive(Debug, Clone, Copy, PartialEq, Eq, Structural)]
pub enum SampleRates {
    /// `[ 48000 ]`, the distribution default.
    Standard,
    /// `[ 44100 48000 ]`, for CD-sourced streams.
    Cd,
    /// Both families and their high multiples, for audiophile DACs.
    HiRes,
}

/// The rates each family allows.
pub open spec fn rates_of(f: SampleRates) -> Seq<u32> {
    match f {
        SampleRates::Standard => seq![48000u32],
        SampleRates::Cd => seq![44100u32, 48000u32],
        SampleRates::HiRes => seq![44100u32, 48000u32, 88200u32, 96000u32, 176400u32, 192000u32],
    }
}

impl SampleRates {
    /// The rates this family allows.
    pub fn rates(self) -> (r: Vec<u32>)
        ensures
            r@ == rates_of(self),
    {
        let r = match self {
            SampleRates::Standard => vec![48000u32],
            SampleRates::Cd => vec![44100u32, 48000u32],
            SampleRates::HiRes => vec![44100u32, 48000u32, 88200u32, 96000u32, 176400u32, 192000u32],
        };
        assert(r@ =~= rates_of(self));
        r
    }
}

/// Every user-controlled tunable; `None` means "not customised".
#[derive(Debug, Clone, Copy, PartialEq, Eq, Structural)]
pub struct UserTweaks {
    /// PipeWire `default.clock.quantum`, in frames at 48 kHz.
    pub quantum: Option<u32>,
    /// `api.alsa.headroom` of `alsa_*.usb-*` nodes, in frames.
    pub headroom_usb: Option<u32>,
    /// `api.alsa.headroom` of `alsa_*.pci-*` nodes, in frames.
    pub headroom_pci: Option<u32>,
    /// `node.latency` numerator of Bluetooth nodes, over 48000.
    pub bt_latency: Option<u32>,
    /// `default.clock.allowed-rates` family.
    pub sample_rates: Option<SampleRates>,
    /// `bluez5.enable-sbc-xq`.
    pub bt_sbc_xq: Option<bool>,
    /// `bluetooth.autoswitch-to-headset-profile`.
    pub bt_call_autoswitch: Option<bool>,
    /// `session.suspend-timeout-seconds = 0` on every ALSA node, so the codec
    /// never sleeps (only `Some(true)` writes it).
    pub alsa_no_suspend: Option<bool>,
}

/// Nothing customised.
pub open spec fn no_tweaks() -> UserTweaks {
    UserTweaks {
        quantum: None,
        headroom_usb: None,
        headroom_pci: None,
        bt_latency: None,
        sample_rates: None,
        bt_sbc_xq: None,
        bt_call_autoswitch: None,
        alsa_no_suspend: None,
    }
}

impl Default for UserTweaks {
    fn default() -> (r: Self)
        ensures
            r == no_tweaks(),
    {
        UserTweaks {
            quantum: None,
            headroom_usb: None,
            headroom_pci: None,
            bt_latency: None,
            sample_rates: None,
            bt_sbc_xq: None,
            bt_call_autoswitch: None,
            alsa_no_suspend: None,
        }
    }
}

/// At least one field is customised.
pub open spec fn is_modified_spec(t: UserTweaks) -> bool {
    ||| t.quantum is Some
    ||| t.headroom_usb is Some
    ||| t.headroom_pci is Some
    ||| t.bt_latency is Some
    ||| t.sample_rates is Some
    ||| t.bt_sbc_xq is Some
    ||| t.bt_call_autoswitch is Some
    ||| t.alsa_no_suspend is Some
}

impl UserTweaks {
    /// True when the user has customised something.
    pub fn is_modified(&self) -> (r: bool)
        ensures
            r == is_modified_spec(*self),
    {
        self.quantum.is_some() || self.headroom_usb.is_some() || self.headroom_pci.is_some()
            || self.bt_latency.is_some() || self.sample_rates.is_some() || self.bt_sbc_xq.is_some()
            || self.bt_call_autoswitch.is_some() || self.alsa_no_suspend.is_some()
    }

    /// The two drop-ins to write, PipeWire's first; an empty text means the
    /// file is to be removed.
    pub fn apply(&self) -> (r: (String, String))
        ensures
            r.0@ == render_pipewire_spec(*self),
            r.1@ == render_wireplumber_spec(*self),
    {
        (render_pipewire(self), render_wireplumber(self))
    }
}

// ── Rendering ────────────────────────────────────────────────────────

/// The comment every drop-in starts with.
pub const HEADER: &'static str = "# Generated by biglinux-microphone Tuning tab.\n# Edit via the GUI \u{2014} manual edits are preserved when possible but the\n# UI is authoritative on next Apply.\n";

/// Decimal numbers separated by single spaces.
pub open spec fn join_dec(s: Seq<u32>) -> Seq<char>
    decreases s.len(),
{
    if s.len() == 0 {
        seq![]
    } else if s.len() == 1 {
        dec(s[0] as nat)
    } else {
        join_dec(s.drop_last()) + seq![' '] + dec(s.last() as nat)
    }
}

/// Each line followed by a newline.
pub open spec fn lines_text(ls: Seq<Seq<char>>) -> Seq<char>
    decreases ls.len(),
{
    if ls.len() == 0 {
        seq![]
    } else {
        lines_text(ls.drop_last()) + ls.last() + seq!['\n']
    }
}

/// The `context.properties` lines of the PipeWire drop-in.
pub open spec fn pipewire_props(t: UserTweaks) -> Seq<Seq<char>> {
    (match t.quantum {
        Some(q) => seq!["    default.clock.quantum = "@ + dec(q as nat)],
        None => seq![],
    }) + (match t.sample_rates {
        Some(f) => seq!["    default.clock.allowed-rates = [ "@ + join_dec(rates_of(f)) + " ]"@],
        None => seq![],
    })
}

/// The PipeWire drop-in: the quantum and the allowed rates.
pub open spec fn render_pipewire_spec(t: UserTweaks) -> Seq<char> {
    let props = pipewire_props(t);
    if props.len() == 0 {
        seq![]
    } else {
        HEADER@ + "\ncontext.properties = {\n"@ + lines_text(props) + "}\n"@
    }
}

/// `true` or `false`, as `Display` writes a `bool`.
pub open spec fn bool_word(b: bool) -> Seq<char> {
    if b {
        "true"@
    } else {
        "false"@
    }
}

/// One WirePlumber rule matching an input and an output node pattern.
pub open spec fn rule(input: Seq<char>, output: Seq<char>, key: Seq<char>, value: Seq<char>) -> Seq<
    char,
> {
    "  {\n    matches = [\n      { node.name = \""@ + input + "\" }\n      { node.name = \""@ + output
        + "\" }\n    ]\n    actions = { update-props = { "@ + key + " = "@ + value
        + " } }\n  }\n"@
}

/// Whether the drop-in has ALSA rules.
pub open spec fn has_alsa_rules(t: UserTweaks) -> bool {
    t.headroom_usb is Some || t.headroom_pci is Some || t.alsa_no_suspend == Some(true)
}

/// The ALSA rules, USB first, then PCI, then the no-suspend rule.
pub open spec fn alsa_rules(t: UserTweaks) -> Seq<char> {
    (match t.headroom_usb {
        Some(h) => rule("~alsa_input.usb-.*"@, "~alsa_output.usb-.*"@, "api.alsa.headroom"@, dec(h as nat)),
        None => seq![],
    }) + (match t.headroom_pci {
        Some(h) => rule("~alsa_input.pci-.*"@, "~alsa_output.pci-.*"@, "api.alsa.headroom"@, dec(h as nat)),
        None => seq![],
    }) + (if t.alsa_no_suspend == Some(true) {
        rule("~alsa_input.*"@, "~alsa_output.*"@, "session.suspend-timeout-seconds"@, "0"@)
    } else {
        seq![]
    })
}

/// The Bluetooth latency rule.
pub open spec fn bluez_rules(t: UserTweaks) -> Seq<char> {
    match t.bt_latency {
        Some(l) => rule(
            "~bluez_input.*"@,
            "~bluez_output.*"@,
            "node.latency"@,
            "\""@ + dec(l as nat) + "/48000\""@,
        ),
        None => seq![],
    }
}

/// The `wireplumber.settings` block.
pub open spec fn settings_part(t: UserTweaks) -> Seq<char> {
    match t.bt_call_autoswitch {
        Some(on) => "\nwireplumber.settings = {\n    bluetooth.autoswitch-to-headset-profile = "@
            + bool_word(on) + "\n}\n"@,
        None => seq![],
    }
}

/// The `monitor.alsa.rules` block.
pub open spec fn alsa_part(t: UserTweaks) -> Seq<char> {
    if has_alsa_rules(t) {
        "\nmonitor.alsa.rules = [\n"@ + alsa_rules(t) + "]\n"@
    } else {
        seq![]
    }
}

/// The `monitor.bluez.rules` block.
pub open spec fn bluez_part(t: UserTweaks) -> Seq<char> {
    match t.bt_latency {
        Some(_) => "\nmonitor.bluez.rules = [\n"@ + bluez_rules(t) + "]\n"@,
        None => seq![],
    }
}

/// The `monitor.bluez.properties` block.
pub open spec fn bluez_props_part(t: UserTweaks) -> Seq<char> {
    match t.bt_sbc_xq {
        Some(on) => "\nmonitor.bluez.properties = {\n    bluez5.enable-sbc-xq = "@ + bool_word(on)
            + "\n}\n"@,
        None => seq![],
    }
}

/// The WirePlumber drop-in: settings, ALSA rules, Bluetooth rules and
/// BlueZ properties, each only when something sets it.
pub open spec fn render_wireplumber_spec(t: UserTweaks) -> Seq<char> {
    if !has_alsa_rules(t) && t.bt_latency is None && t.bt_sbc_xq is None
        && t.bt_call_autoswitch is None {
        seq![]
    } else {
        HEADER@ + settings_part(t) + alsa_part(t) + bluez_part(t) + bluez_props_part(t)
    }
}

fn push_bool(out: &mut Vec<char>, b: bool)
    ensures
        final(out)@ == old(out)@ + bool_word(b),
{
    if b {
        extend_str(out, "true");
    } else {
        extend_str(out, "false");
    }
}

fn push_rule(out: &mut Vec<char>, input: &str, output: &str, key: &str, value: &Vec<char>)
    ensures
        final(out)@ == old(out)@ + rule(input@, output@, key@, value@),
{
    let ghost start = out@;
    extend_str(out, "  {\n    matches = [\n      { node.name = \"");
    extend_str(out, input);
    extend_str(out, "\" }\n      { node.name = \"");
    extend_str(out, output);
    extend_str(out, "\" }\n    ]\n    actions = { update-props = { ");
    extend_str(out, key);
    extend_str(out, " = ");
    extend(out, value);
    extend_str(out, " } }\n  }\n");
    assert(out@ =~= start + rule(input@, output@, key@, value@));
}

/// Decimal numbers separated by single spaces.
fn join_dec_v(s: &Vec<u32>) -> (r: Vec<char>)
    ensures
        r@ == join_dec(s@),
{
    let mut out: Vec<char> = Vec::new();
    let mut i: usize = 0;
    while i < s.len()
        invariant
            i <= s.len(),
            out@ == join_dec(s@.take(i as int)),
        decreases s.len() - i,
    {
        let ghost prefix = s@.take(i + 1);
        assert(prefix.drop_last() =~= s@.take(i as int));
        if i > 0 {
            out.push(' ');
        }
        let d = dec_v(s[i] as u64);
        extend(&mut out, &d);
        assert(out@ =~= join_dec(prefix)) by {
            if i == 0 {
                assert(prefix.len() == 1);
            }
        }
        i = i + 1;
    }
    assert(s@.take(s@.len() as int) =~= s@);
    out
}

/// The quantum line of the PipeWire drop-in.
pub open spec fn quantum_line(q: u32) -> Seq<char> {
    "    default.clock.quantum = "@ + dec(q as nat)
}

/// The allowed-rates line of the PipeWire drop-in.
pub open spec fn rates_line(f: SampleRates) -> Seq<char> {
    "    default.clock.allowed-rates = [ "@ + join_dec(rates_of(f)) + " ]"@
}

fn push_quantum_line(out: &mut Vec<char>, q: u32)
    ensures
        final(out)@ == old(out)@ + quantum_line(q) + seq!['\n'],
{
    let ghost start = out@;
    extend_str(out, "    default.clock.quantum = ");
    let d = dec_v(q as u64);
    extend(out, &d);
    out.push('\n');
    assert(out@ =~= start + quantum_line(q) + seq!['\n']);
}

fn push_rates_line(out: &mut Vec<char>, f: SampleRates)
    ensures
        final(out)@ == old(out)@ + rates_line(f) + seq!['\n'],
{
    let ghost start = out@;
    extend_str(out, "    default.clock.allowed-rates = [ ");
    let rs = f.rates();
    let j = join_dec_v(&rs);
    extend(out, &j);
    extend_str(out, " ]");
    out.push('\n');
    assert(out@ =~= start + rates_line(f) + seq!['\n']);
}

/// Render the PipeWire drop-in; empty when nothing is customised there.
pub fn render_pipewire(t: &UserTweaks) -> (r: String)
    ensures
        r@ == render_pipewire_spec(*t),
{
    if t.quantum.is_none() && t.sample_rates.is_none() {
        assert(pipewire_props(*t) =~= Seq::<Seq<char>>::empty());
        return String::new();
    }
    let mut out = to_chars(HEADER);
    extend_str(&mut out, "\ncontext.properties = {\n");
    let ghost base = out@;
    let ghost props = pipewire_props(*t);
    let ghost empty = Seq::<Seq<char>>::empty();
    assert(lines_text(empty) =~= Seq::<char>::empty());
    match (t.quantum, t.sample_rates) {
        (Some(q), Some(f)) => {
            push_quantum_line(&mut out, q);
            push_rates_line(&mut out, f);
            assert(props =~= seq![quantum_line(q), rates_line(f)]);
            assert(props.drop_last() =~= seq![quantum_line(q)]);
            assert(seq![quantum_line(q)].drop_last() =~= empty);
            assert(lines_text(seq![quantum_line(q)]) =~= quantum_line(q) + seq!['\n']);
            assert(lines_text(props) =~= quantum_line(q) + seq!['\n'] + rates_line(f) + seq!['\n']);
        },
        (Some(q), None) => {
            push_quantum_line(&mut out, q);
            assert(props =~= seq![quantum_line(q)]);
            assert(props.drop_last() =~= empty);
            assert(lines_text(props) =~= quantum_line(q) + seq!['\n']);
        },
        (None, Some(f)) => {
            push_rates_line(&mut out, f);
            assert(props =~= seq![rates_line(f)]);
            assert(props.drop_last() =~= empty);
            assert(lines_text(props) =~= rates_line(f) + seq!['\n']);
        },
        (None, None) => {},
    }
    assert(out@ =~= base + lines_text(props));
    extend_str(&mut out, "}\n");
    assert(out@ =~= render_pipewire_spec(*t));
    from_chars(&out)
}

fn settings_part_v(t: &UserTweaks) -> (r: Vec<char>)
    ensures
        r@ == settings_part(*t),
{
    let mut out: Vec<char> = Vec::new();
    if let Some(on) = t.bt_call_autoswitch {
        extend_str(&mut out, "\nwireplumber.settings = {\n    bluetooth.autoswitch-to-headset-profile = ");
        push_bool(&mut out, on);
        extend_str(&mut out, "\n}\n");
    }
    assert(out@ =~= settings_part(*t));
    out
}

fn alsa_part_v(t: &UserTweaks) -> (r: Vec<char>)
    ensures
        r@ == alsa_part(*t),
{
    let mut out: Vec<char> = Vec::new();
    if t.headroom_usb.is_some() || t.headroom_pci.is_some() || t.alsa_no_suspend == Some(true) {
        extend_str(&mut out, "\nmonitor.alsa.rules = [\n");
        let ghost a0 = out@;
        if let Some(h) = t.headroom_usb {
            push_rule(&mut out, "~alsa_input.usb-.*", "~alsa_output.usb-.*", "api.alsa.headroom", &dec_v(h as u64));
        }
        let ghost a1 = out@;
        if let Some(h) = t.headroom_pci {
            push_rule(&mut out, "~alsa_input.pci-.*", "~alsa_output.pci-.*", "api.alsa.headroom", &dec_v(h as u64));
        }
        let ghost a2 = out@;
        if t.alsa_no_suspend == Some(true) {
            push_rule(
                &mut out,
                "~alsa_input.*",
                "~alsa_output.*",
                "session.suspend-timeout-seconds",
                &to_chars("0"),
            );
        }
        assert(out@ =~= a0 + alsa_rules(*t));
        extend_str(&mut out, "]\n");
    }
    assert(out@ =~= alsa_part(*t));
    out
}

fn bluez_part_v(t: &UserTweaks) -> (r: Vec<char>)
    ensures
        r@ == bluez_part(*t),
{
    let mut out: Vec<char> = Vec::new();
    if let Some(l) = t.bt_latency {
        extend_str(&mut out, "\nmonitor.bluez.rules = [\n");
        let mut value = to_chars("\"");
        let d = dec_v(l as u64);
        extend(&mut value, &d);
        extend_str(&mut value, "/48000\"");
        push_rule(&mut out, "~bluez_input.*", "~bluez_output.*", "node.latency", &value);
        extend_str(&mut out, "]\n");
    }
    assert(out@ =~= bluez_part(*t));
    out
}

fn bluez_props_part_v(t: &UserTweaks) -> (r: Vec<char>)
    ensures
        r@ == bluez_props_part(*t),
{
    let mut out: Vec<char> = Vec::new();
    if let Some(on) = t.bt_sbc_xq {
        extend_str(&mut out, "\nmonitor.bluez.properties = {\n    bluez5.enable-sbc-xq = ");
        push_bool(&mut out, on);
        extend_str(&mut out, "\n}\n");
    }
    assert(out@ =~= bluez_props_part(*t));
    out
}

/// Render the WirePlumber drop-in; empty when nothing is customised there.
pub fn render_wireplumber(t: &UserTweaks) -> (r: String)
    ensures
        r@ == render_wireplumber_spec(*t),
{
    let has_alsa = t.headroom_usb.is_some() || t.headroom_pci.is_some() || t.alsa_no_suspend == Some(
        true,
    );
    if !has_alsa && t.bt_latency.is_none() && t.bt_sbc_xq.is_none() && t.bt_call_autoswitch.is_none() {
        return String::new();
    }
    let mut out = to_chars(HEADER);
    let a = settings_part_v(t);
    extend(&mut out, &a);
    let b = alsa_part_v(t);
    extend(&mut out, &b);
    let c = bluez_part_v(t);
    extend(&mut out, &c);
    let d = bluez_props_part_v(t);
    extend(&mut out, &d);
    assert(out@ =~= render_wireplumber_spec(*t));
    from_chars(&out)
}

// ── Parsing ──────────────────────────────────────────────────────────

/// `key = value` with the key at the start of the line: the trimmed value.
pub open spec fn strip_kv_spec(line: Seq<char>, key: Seq<char>) -> Option<Seq<char>> {
    match strip_prefix(line, key) {
        None => None,
        Some(r) => match strip_prefix(trim_start(r), seq!['=']) {
            None => None,
            Some(r2) => Some(trim(r2)),
        },
    }
}

/// [`strip_kv_spec`] on text.
pub fn strip_kv(line: &str, key: &str) -> (r: Option<String>)
    ensures
        r.deep_view() == strip_kv_spec(line@, key@),
{
    match strip_kv_v(&to_chars(line), &to_chars(key)) {
        Some(v) => Some(from_chars(&v)),
        None => None,
    }
}

/// [`strip_kv_spec`] on characters.
pub fn strip_kv_v(line: &Vec<char>, key: &Vec<char>) -> (r: Option<Vec<char>>)
    ensures
        crate::text::opt_chars(r) == strip_kv_spec(line@, key@),
{
    let eq = to_chars("=");
    assert(eq@ =~= seq!['=']) by {
        reveal_strlit("=");
    }
    let rest = match strip_prefix_v(line, key) {
        Some(r) => r,
        None => return None,
    };
    match strip_prefix_v(&trim_start_v(&rest), &eq) {
        Some(r2) => Some(trim_v(&r2)),
        None => None,
    }
}

/// The rate family a list of rates spells, if any.
pub open spec fn rate_family(nums: Seq<u32>) -> Option<SampleRates> {
    if nums == rates_of(SampleRates::Standard) {
        Some(SampleRates::Standard)
    } else if nums == rates_of(SampleRates::Cd) {
        Some(SampleRates::Cd)
    } else if nums == rates_of(SampleRates::HiRes) {
        Some(SampleRates::HiRes)
    } else {
        None
    }
}

/// The words that read as numbers, in order.
pub open spec fn parsed_numbers(ws: Seq<Seq<char>>) -> Seq<u32>
    decreases ws.len(),
{
    if ws.len() == 0 {
        seq![]
    } else {
        let rest = parsed_numbers(ws.drop_last());
        match parse_u32(ws.last()) {
            Some(n) => rest.push(n),
            None => rest,
        }
    }
}

/// What stands between `= [` and `]` after the rates key.
pub open spec fn bracketed(rest: Seq<char>) -> Option<Seq<char>> {
    match strip_prefix(trim_start(rest), seq!['=']) {
        None => None,
        Some(a) => match strip_prefix(trim_start(a), seq!['[']) {
            None => None,
            Some(b) => strip_suffix(b, seq![']']),
        },
    }
}

/// One line of the PipeWire drop-in.
pub open spec fn pipewire_line(t: UserTweaks, raw: Seq<char>) -> UserTweaks {
    let line = trim(raw);
    match strip_kv_spec(line, "default.clock.quantum"@) {
        Some(v) => UserTweaks { quantum: parse_u32(v), ..t },
        None => match strip_prefix(line, "default.clock.allowed-rates"@) {
            Some(rest) => match bracketed(rest) {
                Some(inside) => UserTweaks {
                    sample_rates: rate_family(parsed_numbers(words(inside))),
                    ..t
                },
                None => t,
            },
            None => t,
        },
    }
}

/// The tweaks after reading the given lines of a PipeWire drop-in.
pub open spec fn pipewire_fold(ls: Seq<Seq<char>>, t: UserTweaks) -> UserTweaks
    decreases ls.len(),
{
    if ls.len() == 0 {
        t
    } else {
        pipewire_line(pipewire_fold(ls.drop_last(), t), ls.last())
    }
}

/// What reading a PipeWire drop-in over `t` gives.
pub open spec fn parse_pipewire_spec(text: Seq<char>, t: UserTweaks) -> UserTweaks {
    pipewire_fold(lines(text), t)
}

fn rate_family_v(nums: &Vec<u32>) -> (r: Option<SampleRates>)
    ensures
        r == rate_family(nums@),
{
    let std = SampleRates::Standard.rates();
    let cd = SampleRates::Cd.rates();
    let hi = SampleRates::HiRes.rates();
    if eq_u32s(nums, &std) {
        Some(SampleRates::Standard)
    } else if eq_u32s(nums, &cd) {
        Some(SampleRates::Cd)
    } else if eq_u32s(nums, &hi) {
        Some(SampleRates::HiRes)
    } else {
        None
    }
}

fn eq_u32s(a: &Vec<u32>, b: &Vec<u32>) -> (r: bool)
    ensures
        r == (a@ == b@),
{
    if a.len() != b.len() {
        return false;
    }
    let mut i: usize = 0;
    while i < a.len()
        invariant
            a.len() == b.len(),
            i <= a.len(),
            forall|k: int| 0 <= k < i ==> a@[k] == b@[k],
        decreases a.len() - i,
    {
        if a[i] != b[i] {
            return false;
        }
        i = i + 1;
    }
    assert(a@ =~= b@);
    true
}

fn numbers_v(ws: &Vec<Vec<char>>) -> (r: Vec<u32>)
    ensures
        r@ == parsed_numbers(lines_view(ws@)),
{
    let mut out: Vec<u32> = Vec::new();
    let mut i: usize = 0;
    assert(lines_view(ws@).take(0) =~= Seq::<Seq<char>>::empty());
    while i < ws.len()
        invariant
            i <= ws.len(),
            out@ == parsed_numbers(lines_view(ws@).take(i as int)),
        decreases ws.len() - i,
    {
        assert(lines_view(ws@).take(i + 1).drop_last() =~= lines_view(ws@).take(i as int));
        if let Some(n) = parse_u32_v(&ws[i]) {
            out.push(n);
        }
        i = i + 1;
    }
    assert(lines_view(ws@).take(ws.len() as int) =~= lines_view(ws@));
    out
}

fn bracketed_v(rest: &Vec<char>) -> (r: Option<Vec<char>>)
    ensures
        crate::text::opt_chars(r) == bracketed(rest@),
{
    let eq = to_chars("=");
    let open = to_chars("[");
    let close = to_chars("]");
    assert(eq@ =~= seq!['=']) by {
        reveal_strlit("=");
    }
    assert(open@ =~= seq!['[']) by {
        reveal_strlit("[");
    }
    assert(close@ =~= seq![']']) by {
        reveal_strlit("]");
    }
    let a = match strip_prefix_v(&trim_start_v(rest), &eq) {
        Some(a) => a,
        None => return None,
    };
    let b = match strip_prefix_v(&trim_start_v(&a), &open) {
        Some(b) => b,
        None => return None,
    };
    strip_suffix_v(&b, &close)
}

fn pipewire_line_v(t: &mut UserTweaks, raw: &Vec<char>)
    ensures
        *final(t) == pipewire_line(*old(t), raw@),
{
    let line = trim_v(raw);
    match strip_kv_v(&line, &to_chars("default.clock.quantum")) {
        Some(v) => {
            t.quantum = parse_u32_v(&v);
        },
        None => match strip_prefix_v(&line, &to_chars("default.clock.allowed-rates")) {
            Some(rest) => match bracketed_v(&rest) {
                Some(inside) => {
                    let ws = split_whitespace_v(&inside);
                    let nums = numbers_v(&ws);
                    t.sample_rates = rate_family_v(&nums);
                },
                None => {},
            },
            None => {},
        },
    }
}

/// Read a PipeWire drop-in into `out`; lines it does not recognise leave
/// the fields as they were.
pub fn parse_pipewire(text: &str, out: &mut UserTweaks)
    ensures
        *final(out) == parse_pipewire_spec(text@, *old(out)),
{
    let ls = str_lines(text);
    let ghost start = *out;
    let mut i: usize = 0;
    assert(lines_view(ls@).take(0) =~= Seq::<Seq<char>>::empty());
    while i < ls.len()
        invariant
            i <= ls.len(),
            lines_view(ls@) == lines(text@),
            *out == pipewire_fold(lines_view(ls@).take(i as int), start),
        decreases ls.len() - i,
    {
        assert(lines_view(ls@).take(i + 1).drop_last() =~= lines_view(ls@).take(i as int));
        pipewire_line_v(out, &ls[i]);
        i = i + 1;
    }
    assert(lines_view(ls@).take(ls.len() as int) =~= lines_view(ls@));
}

/// Which rule block of the WirePlumber drop-in a line belongs to; the
/// renderer always writes the input pattern first, so it marks the block.
#[derive(Debug, Clone, Copy, PartialEq, Eq, Structural)]
pub enum Section {
    Usb,
    Pci,
    AlsaAll,
    Bluez,
}

/// The block a line opens, or the current one.
pub open spec fn section_after(line: Seq<char>, current: Option<Section>) -> Option<Section> {
    if contains(line, "\"~alsa_input.usb-.*\""@) {
        Some(Section::Usb)
    } else if contains(line, "\"~alsa_input.pci-.*\""@) {
        Some(Section::Pci)
    } else if contains(line, "\"~alsa_input.*\""@) {
        Some(Section::AlsaAll)
    } else if contains(line, "\"~bluez_input.*\""@) {
        Some(Section::Bluez)
    } else {
        current
    }
}

/// `<key> = <value>` anywhere in a line, possibly inside
/// `update-props = { ... }`: the value ends at the first `}` or `,`.
pub open spec fn action_value(line: Seq<char>, key: Seq<char>) -> Option<Seq<char>> {
    match find(line, key) {
        None => None,
        Some(idx) => match strip_prefix(trim_start(line.skip(idx + key.len())), seq!['=']) {
            None => None,
            Some(r) => {
                let r2 = trim_start(r);
                Some(trim(r2.take(set_pos(r2, seq!['}', ','], 0))))
            },
        },
    }
}

/// A `true` or `false` setting; any other word keeps the previous value.
pub open spec fn bool_setting(v: Seq<char>, previous: Option<bool>) -> Option<bool> {
    if v == "true"@ {
        Some(true)
    } else if v == "false"@ {
        Some(false)
    } else {
        previous
    }
}

/// One line of the WirePlumber drop-in, with the block it belongs to.
pub open spec fn wireplumber_line(t: UserTweaks, current: Option<Section>, raw: Seq<char>) -> (
    UserTweaks,
    Option<Section>,
) {
    let line = trim(raw);
    let cur = section_after(line, current);
    let t1 = match action_value(line, "api.alsa.headroom"@) {
        Some(v) => match parse_u32(v) {
            Some(h) => if cur == Some(Section::Usb) {
                UserTweaks { headroom_usb: Some(h), ..t }
            } else if cur == Some(Section::Pci) {
                UserTweaks { headroom_pci: Some(h), ..t }
            } else {
                t
            },
            None => t,
        },
        None => t,
    };
    let t2 = match action_value(line, "session.suspend-timeout-seconds"@) {
        Some(v) => if cur == Some(Section::AlsaAll) && v == "0"@ {
            UserTweaks { alsa_no_suspend: Some(true), ..t1 }
        } else {
            t1
        },
        None => t1,
    };
    let t3 = match action_value(line, "node.latency"@) {
        Some(v) => match parse_u32(before_char(trim_set(v, seq!['"']), '/')) {
            Some(l) => if cur == Some(Section::Bluez) {
                UserTweaks { bt_latency: Some(l), ..t2 }
            } else {
                t2
            },
            None => t2,
        },
        None => t2,
    };
    let t4 = match strip_kv_spec(line, "bluez5.enable-sbc-xq"@) {
        Some(v) => UserTweaks { bt_sbc_xq: bool_setting(v, t3.bt_sbc_xq), ..t3 },
        None => t3,
    };
    let t5 = match strip_kv_spec(line, "bluetooth.autoswitch-to-headset-profile"@) {
        Some(v) => UserTweaks { bt_call_autoswitch: bool_setting(v, t4.bt_call_autoswitch), ..t4 },
        None => t4,
    };
    (t5, cur)
}

/// The tweaks and current block after the given lines.
pub open spec fn wireplumber_fold(ls: Seq<Seq<char>>, t: UserTweaks) -> (UserTweaks, Option<Section>)
    decreases ls.len(),
{
    if ls.len() == 0 {
        (t, None)
    } else {
        let (t0, cur) = wireplumber_fold(ls.drop_last(), t);
        wireplumber_line(t0, cur, ls.last())
    }
}

/// What reading a WirePlumber drop-in over `t` gives.
pub open spec fn parse_wireplumber_spec(text: Seq<char>, t: UserTweaks) -> UserTweaks {
    wireplumber_fold(lines(text), t).0
}

/// [`action_value`] on characters.
pub fn action_value_v(line: &Vec<char>, key: &Vec<char>) -> (r: Option<Vec<char>>)
    ensures
        crate::text::opt_chars(r) == action_value(line@, key@),
{
    proof {
        crate::text::lemma_find_from(line@, key@, 0);
    }
    let idx = match find_v(line, key) {
        Some(i) => i,
        None => return None,
    };
    assert(occurs_at(line@, key@, idx as int));
    assert(idx + key.len() <= line.len());
    let start = idx + key.len();
    let rest = slice_v(line, start, line.len());
    assert(rest@ =~= line@.skip(idx + key@.len()));
    let eq = to_chars("=");
    assert(eq@ =~= seq!['=']) by {
        reveal_strlit("=");
    }
    let r = match strip_prefix_v(&trim_start_v(&rest), &eq) {
        Some(r) => r,
        None => return None,
    };
    let r2 = trim_start_v(&r);
    let mut set: Vec<char> = Vec::new();
    set.push('}');
    set.push(',');
    assert(set@ =~= seq!['}', ',']);
    let mut j: usize = 0;
    while j < r2.len() && !crate::text::in_set_v(r2[j], &set)
        invariant
            j <= r2.len(),
            set@ == seq!['}', ','],
            set_pos(r2@, set@, 0) == set_pos(r2@, set@, j as int),
        decreases r2.len() - j,
    {
        j = j + 1;
    }
    let value = slice_v(&r2, 0, j);
    assert(value@ =~= r2@.take(set_pos(r2@, seq!['}', ','], 0)));
    Some(trim_v(&value))
}

/// Pull `<key> = <value>` out of a line that may wrap it in
/// `update-props = { ... }`.
pub fn extract_action_value(line: &str, key: &str) -> (r: Option<String>)
    ensures
        r.deep_view() == action_value(line@, key@),
{
    match action_value_v(&to_chars(line), &to_chars(key)) {
        Some(v) => Some(from_chars(&v)),
        None => None,
    }
}

fn section_after_v(line: &Vec<char>, current: Option<Section>) -> (r: Option<Section>)
    ensures
        r == section_after(line@, current),
{
    if contains_v(line, &to_chars("\"~alsa_input.usb-.*\"")) {
        Some(Section::Usb)
    } else if contains_v(line, &to_chars("\"~alsa_input.pci-.*\"")) {
        Some(Section::Pci)
    } else if contains_v(line, &to_chars("\"~alsa_input.*\"")) {
        Some(Section::AlsaAll)
    } else if contains_v(line, &to_chars("\"~bluez_input.*\"")) {
        Some(Section::Bluez)
    } else {
        current
    }
}

fn bool_setting_v(v: &Vec<char>, previous: Option<bool>) -> (r: Option<bool>)
    ensures
        r == bool_setting(v@, previous),
{
    if eq_v(v, &to_chars("true")) {
        Some(true)
    } else if eq_v(v, &to_chars("false")) {
        Some(false)
    } else {
        previous
    }
}

fn wireplumber_line_v(t: &mut UserTweaks, current: Option<Section>, raw: &Vec<char>) -> (r: Option<
    Section,
>)
    ensures
        (*final(t), r) == wireplumber_line(*old(t), current, raw@),
{
    let line = trim_v(raw);
    let cur = section_after_v(&line, current);
    if let Some(v) = action_value_v(&line, &to_chars("api.alsa.headroom")) {
        if let Some(h) = parse_u32_v(&v) {
            if cur == Some(Section::Usb) {
                t.headroom_usb = Some(h);
            } else if cur == Some(Section::Pci) {
                t.headroom_pci = Some(h);
            }
        }
    }
    if let Some(v) = action_value_v(&line, &to_chars("session.suspend-timeout-seconds")) {
        if cur == Some(Section::AlsaAll) && eq_v(&v, &to_chars("0")) {
            t.alsa_no_suspend = Some(true);
        }
    }
    if let Some(v) = action_value_v(&line, &to_chars("node.latency")) {
        let mut quote: Vec<char> = Vec::new();
        quote.push('"');
        assert(quote@ =~= seq!['"']);
        let unquoted = trim_set_v(&v, &quote);
        if let Some(l) = parse_u32_v(&before_char_v(&unquoted, '/')) {
            if cur == Some(Section::Bluez) {
                t.bt_latency = Some(l);
            }
        }
    }
    if let Some(v) = strip_kv_v(&line, &to_chars("bluez5.enable-sbc-xq")) {
        t.bt_sbc_xq = bool_setting_v(&v, t.bt_sbc_xq);
    }
    if let Some(v) = strip_kv_v(&line, &to_chars("bluetooth.autoswitch-to-headset-profile")) {
        t.bt_call_autoswitch = bool_setting_v(&v, t.bt_call_autoswitch);
    }
    cur
}

/// Read a WirePlumber drop-in into `out`; lines it does not recognise leave
/// the fields as they were.
pub fn parse_wireplumber(text: &str, out: &mut UserTweaks)
    ensures
        *final(out) == parse_wireplumber_spec(text@, *old(out)),
{
    let ls = str_lines(text);
    let ghost start = *out;
    let mut current: Option<Section> = None;
    let mut i: usize = 0;
    assert(lines_view(ls@).take(0) =~= Seq::<Seq<char>>::empty());
    while i < ls.len()
        invariant
            i <= ls.len(),
            lines_view(ls@) == lines(text@),
            (*out, current) == wireplumber_fold(lines_view(ls@).take(i as int), start),
        decreases ls.len() - i,
    {
        assert(lines_view(ls@).take(i + 1).drop_last() =~= lines_view(ls@).take(i as int));
        current = wireplumber_line_v(out, current, &ls[i]);
        i = i + 1;
    }
    assert(lines_view(ls@).take(ls.len() as int) =~= lines_view(ls@));
}

} // verus!
