//! Reading a rendered WirePlumber drop-in back gives the tweaks it was
//! rendered from.
use vstd::prelude::*;

use super::round_trip::{header_lines, lemma_header, lemma_joined_concat, lemma_trim_padded};
use super::{
    action_value, alsa_part, alsa_rules, bluez_part, bluez_props_part, bluez_rules, bool_setting,
    bool_word, has_alsa_rules, no_tweaks, parse_wireplumber_spec, render_wireplumber_spec, rule,
    section_after, settings_part, strip_kv_spec, wireplumber_fold, wireplumber_line, SampleRates,
    Section, UserTweaks, HEADER,
};
use crate::text::{
    before_char, char_pos, contains, dec, find, find_from, is_digit, is_ws, lemma_char_pos, lemma_contains,
    lemma_find_from, occurs_at, parse_u32, set_back, set_fwd, set_pos, strip_prefix, trim,
    lemma_ws_back_bounds, lemma_ws_fwd_bounds, lines, strip_cr, trim_set, trim_start, ws_back,
    ws_fwd,
};
use crate::text_laws::{joined_lines, lemma_dec_digits, lemma_lines_joined, lemma_parse_dec};

verus! {

/// A text that lacks one of the characters of `p` does not contain `p`.
proof fn lemma_absent(s: Seq<char>, p: Seq<char>, c: char)
    requires
        p.contains(c),
        !s.contains(c),
    ensures
        find(s, p) is None,
        !contains(s, p),
{
    lemma_find_from(s, p, 0);
    if find(s, p) is Some {
        let k = find(s, p)->0;
        let j = choose|j: int| 0 <= j < p.len() && p[j] == c;
        assert(s.subrange(k, k + p.len())[j] == p[j]);
        assert(s[k + j] == c);
    }
}

/// A text in which the one `a` that could start the pair `p[j] p[j + 1]`
/// is followed by something else does not contain `p`.
proof fn lemma_absent_pair(a: Seq<char>, b: Seq<char>, p: Seq<char>, j: int)
    requires
        a.len() > 0,
        b.len() > 0,
        0 <= j < p.len() - 1,
        a.last() == p[j],
        !a.drop_last().contains(p[j]),
        !b.contains(p[j]),
        b[0] != p[j + 1],
    ensures
        find(a + b, p) is None,
        !contains(a + b, p),
{
    let s = a + b;
    lemma_find_from(s, p, 0);
    if find(s, p) is Some {
        let k = find(s, p)->0;
        assert(s.subrange(k, k + p.len())[j] == p[j]);
        assert(s.subrange(k, k + p.len())[j + 1] == p[j + 1]);
        assert(s[k + j] == p[j]);
        if k + j < a.len() - 1 {
            assert(a.drop_last()[k + j] == p[j]);
        } else if k + j == a.len() - 1 {
            assert(s[k + j + 1] == b[0]);
        } else {
            assert(b[k + j - a.len()] == p[j]);
        }
    }
}

proof fn lemma_not_before(pre: Seq<char>, p: Seq<char>, post: Seq<char>, j: int, k: int)
    requires
        0 <= j < p.len(),
        !pre.contains(p[j]),
        forall|i: int| 0 <= i < j ==> p[i] != p[j],
        0 <= k < pre.len(),
    ensures
        !occurs_at(pre + p + post, p, k),
{
    let s = pre + p + post;
    let n = pre.len() as int;
    if occurs_at(s, p, k) {
        let w = s.subrange(k, k + p.len());
        assert(w[j] == s[k + j]);
        assert(w[j] == p[j]);
        if k + j < n {
            assert(s[k + j] == pre[k + j]);
        } else {
            let i = k + j - n;
            assert(s[k + j] == p[i]);
            assert(p[i] != p[j]);
        }
    }
}

/// `p` is found right after `pre` when one of its characters is missing
/// from `pre` and from the part of `p` before it.
proof fn lemma_found_after(pre: Seq<char>, p: Seq<char>, post: Seq<char>, j: int)
    requires
        0 <= j < p.len(),
        !pre.contains(p[j]),
        forall|i: int| 0 <= i < j ==> p[i] != p[j],
    ensures
        find(pre + p + post, p) == Some(pre.len() as int),
        contains(pre + p + post, p),
{
    let s = pre + p + post;
    let n = pre.len() as int;
    assert(occurs_at(s, p, n)) by {
        assert(s.subrange(n, n + p.len()) =~= p);
    }
    lemma_find_from(s, p, 0);
    let r = find_from(s, p, 0);
    if r is None {
        assert(!occurs_at(s, p, n));
    } else {
        let k = r->0;
        if k < n {
            lemma_not_before(pre, p, post, j, k);
        } else if k > n {
            assert(!occurs_at(s, p, n));
        }
    }
}

/// `p` occurs in `pre + p + post`.
proof fn lemma_present(pre: Seq<char>, p: Seq<char>, post: Seq<char>)
    ensures
        contains(pre + p + post, p),
{
    let s = pre + p + post;
    let n = pre.len() as int;
    lemma_find_from(s, p, 0);
    assert(s.subrange(n, n + p.len()) =~= p);
    assert(occurs_at(s, p, n));
}

proof fn lemma_ws_back_skips(s: Seq<char>, j: int, e: int)
    requires
        0 <= e <= j <= s.len(),
        forall|k: int| e <= k < j ==> is_ws(#[trigger] s[k]),
        e > 0 ==> !is_ws(s[e - 1]),
    ensures
        ws_back(s, j) == e,
    decreases j - e,
{
    if e < j {
        lemma_ws_back_skips(s, j - 1, e);
    }
}

/// Whitespace around a body that starts and ends with something else
/// trims away.
proof fn lemma_trim_around(pad: Seq<char>, body: Seq<char>, tail: Seq<char>)
    requires
        forall|k: int| 0 <= k < pad.len() ==> is_ws(#[trigger] pad[k]),
        forall|k: int| 0 <= k < tail.len() ==> is_ws(#[trigger] tail[k]),
        body.len() > 0,
        !is_ws(body[0]),
        !is_ws(body.last()),
    ensures
        trim_start(pad + body + tail) == body + tail,
        trim(pad + body + tail) == body,
{
    let bt = body + tail;
    assert(bt[0] == body[0]);
    assert(pad + body + tail =~= pad + bt);
    assert(bt.last() == body.last() || tail.len() > 0);
    let s = pad + bt;
    assert forall|k: int| 0 <= k < pad.len() implies is_ws(#[trigger] s[k]) by {
        assert(s[k] == pad[k]);
    }
    assert(s[pad.len() as int] == bt[0]);
    crate::text::lemma_ws_fwd_bounds(s, 0);
    lemma_ws_fwd_skips_local(s, 0, pad.len() as int);
    assert(trim_start(s) =~= bt);
    assert forall|k: int| body.len() <= k < bt.len() implies is_ws(#[trigger] bt[k]) by {
        assert(bt[k] == tail[k - body.len()]);
    }
    assert(bt[body.len() - 1] == body.last());
    lemma_ws_back_skips(bt, bt.len() as int, body.len() as int);
    assert(bt.take(body.len() as int) =~= body);
}

proof fn lemma_ws_fwd_skips_local(s: Seq<char>, i: int, e: int)
    requires
        0 <= i <= e <= s.len(),
        forall|k: int| i <= k < e ==> is_ws(#[trigger] s[k]),
        e < s.len() ==> !is_ws(s[e]),
    ensures
        ws_fwd(s, i) == e,
    decreases e - i,
{
    if i < e {
        lemma_ws_fwd_skips_local(s, i + 1, e);
    }
}

/// The first character of `set` at or after `i` is at `e`.
proof fn lemma_set_pos_at(s: Seq<char>, set: Seq<char>, i: int, e: int)
    requires
        0 <= i <= e < s.len(),
        forall|k: int| i <= k < e ==> !set.contains(#[trigger] s[k]),
        set.contains(s[e]),
    ensures
        set_pos(s, set, i) == e,
    decreases e - i,
{
    if i < e {
        lemma_set_pos_at(s, set, i + 1, e);
    }
}

/// `<pre><key> = <v> } }` carries `v` for `key`, when the first
/// occurrence of `key` is the one after `pre`.
proof fn lemma_action_value(pre: Seq<char>, key: Seq<char>, v: Seq<char>, j: int)
    requires
        0 <= j < key.len(),
        !pre.contains(key[j]),
        forall|i: int| 0 <= i < j ==> key[i] != key[j],
        v.len() > 0,
        !is_ws(v[0]),
        !is_ws(v.last()),
        !v.contains('}'),
        !v.contains(','),
    ensures
        action_value(pre + key + (" = "@ + v + " } }"@), key) == Some(v),
{
    reveal_strlit(" = ");
    reveal_strlit(" } }");
    let post = " = "@ + v + " } }"@;
    let line = pre + key + post;
    lemma_found_after(pre, key, post, j);
    assert(line.skip(pre.len() + key.len() as int) =~= post);
    let sp = seq![' '];
    let body = seq!['='] + sp + v + " } }"@;
    assert(post =~= sp + body);
    assert(body.last() == '}');
    lemma_trim_padded(sp, body);
    let r = sp + v + " } }"@;
    assert(strip_prefix(body, seq!['=']) == Some(r)) by {
        assert(body.take(1) =~= seq!['=']);
        assert(body.skip(1) =~= r);
    }
    let r2 = v + " } }"@;
    assert(r =~= sp + r2);
    assert(r2[0] == v[0]);
    assert(r2.last() == '}');
    lemma_trim_padded(sp, r2);
    let set = seq!['}', ','];
    assert forall|k: int| 0 <= k < v.len() + 1 implies !set.contains(#[trigger] r2[k]) by {
        if k < v.len() {
            assert(r2[k] == v[k]);
            if set.contains(v[k]) {
                let m = choose|m: int| 0 <= m < set.len() && set[m] == v[k];
                assert(m == 0 || m == 1);
                assert(v.contains(v[k]));
            }
        } else {
            assert(r2[k] == ' ');
            if set.contains(' ') {
                let m = choose|m: int| 0 <= m < set.len() && set[m] == ' ';
                assert(m == 0 || m == 1);
            }
        }
    }
    assert(r2[v.len() as int + 1] == '}');
    assert(set[0] == '}');
    lemma_set_pos_at(r2, set, 0, v.len() as int + 1);
    assert(r2.take(v.len() as int + 1) =~= Seq::<char>::empty() + v + sp);
    assert forall|k: int| 0 <= k < sp.len() implies is_ws(#[trigger] sp[k]) by {}
    assert forall|k: int| 0 <= k < Seq::<char>::empty().len() implies is_ws(
        #[trigger] Seq::<char>::empty()[k],
    ) by {}
    lemma_trim_around(Seq::<char>::empty(), v, sp);
}

// ── Reading lines from a given state ─────────────────────────────────

/// The tweaks and current block after reading `ls` from `t` in block `cur`.
spec fn wp_run(ls: Seq<Seq<char>>, t: UserTweaks, cur: Option<Section>) -> (
    UserTweaks,
    Option<Section>,
)
    decreases ls.len(),
{
    if ls.len() == 0 {
        (t, cur)
    } else {
        let (t0, c0) = wp_run(ls.drop_last(), t, cur);
        wireplumber_line(t0, c0, ls.last())
    }
}

proof fn lemma_fold_is_run(ls: Seq<Seq<char>>, t: UserTweaks)
    ensures
        wireplumber_fold(ls, t) == wp_run(ls, t, None),
    decreases ls.len(),
{
    if ls.len() > 0 {
        lemma_fold_is_run(ls.drop_last(), t);
    }
}

proof fn lemma_run_concat(a: Seq<Seq<char>>, b: Seq<Seq<char>>, t: UserTweaks, cur: Option<Section>)
    ensures
        wp_run(a + b, t, cur) == wp_run(b, wp_run(a, t, cur).0, wp_run(a, t, cur).1),
    decreases b.len(),
{
    if b.len() == 0 {
        assert(a + b =~= a);
    } else {
        lemma_run_concat(a, b.drop_last(), t, cur);
        assert((a + b).drop_last() =~= a + b.drop_last());
        assert((a + b).last() == b.last());
    }
}

proof fn lemma_run_push(ls: Seq<Seq<char>>, l: Seq<char>, t: UserTweaks, cur: Option<Section>)
    ensures
        wp_run(ls.push(l), t, cur) == wireplumber_line(
            wp_run(ls, t, cur).0,
            wp_run(ls, t, cur).1,
            l,
        ),
{
    assert(ls.push(l).drop_last() =~= ls);
}

// ── What one line does ───────────────────────────────────────────────

/// None of the four block markers occurs in `line`.
spec fn no_marker(line: Seq<char>) -> bool {
    &&& !contains(line, "\"~alsa_input.usb-.*\""@)
    &&& !contains(line, "\"~alsa_input.pci-.*\""@)
    &&& !contains(line, "\"~alsa_input.*\""@)
    &&& !contains(line, "\"~bluez_input.*\""@)
}

/// The key that the block `cur` reads is not in `line`.
spec fn key_absent(line: Seq<char>, cur: Option<Section>) -> bool {
    match cur {
        Some(Section::Usb) => !contains(line, "api.alsa.headroom"@),
        Some(Section::Pci) => !contains(line, "api.alsa.headroom"@),
        Some(Section::AlsaAll) => !contains(line, "session.suspend-timeout-seconds"@),
        Some(Section::Bluez) => !contains(line, "node.latency"@),
        None => true,
    }
}

/// None of the three keys is in `line`.
spec fn no_key(line: Seq<char>) -> bool {
    &&& !contains(line, "api.alsa.headroom"@)
    &&& !contains(line, "session.suspend-timeout-seconds"@)
    &&& !contains(line, "node.latency"@)
}

proof fn lemma_no_tilde(line: Seq<char>)
    requires
        !line.contains('~'),
    ensures
        no_marker(line),
{
    reveal_strlit("\"~alsa_input.usb-.*\"");
    reveal_strlit("\"~alsa_input.pci-.*\"");
    reveal_strlit("\"~alsa_input.*\"");
    reveal_strlit("\"~bluez_input.*\"");
    assert("\"~alsa_input.usb-.*\""@[1] == '~');
    assert("\"~alsa_input.pci-.*\""@[1] == '~');
    assert("\"~alsa_input.*\""@[1] == '~');
    assert("\"~bluez_input.*\""@[1] == '~');
    lemma_absent(line, "\"~alsa_input.usb-.*\""@, '~');
    lemma_absent(line, "\"~alsa_input.pci-.*\""@, '~');
    lemma_absent(line, "\"~alsa_input.*\""@, '~');
    lemma_absent(line, "\"~bluez_input.*\""@, '~');
}

proof fn lemma_no_dot(line: Seq<char>)
    requires
        !line.contains('.'),
    ensures
        no_key(line),
{
    reveal_strlit("api.alsa.headroom");
    reveal_strlit("session.suspend-timeout-seconds");
    reveal_strlit("node.latency");
    assert("api.alsa.headroom"@[3] == '.');
    assert("session.suspend-timeout-seconds"@[7] == '.');
    assert("node.latency"@[4] == '.');
    lemma_absent(line, "api.alsa.headroom"@, '.');
    lemma_absent(line, "session.suspend-timeout-seconds"@, '.');
    lemma_absent(line, "node.latency"@, '.');
}

/// A line with no `h`, `m` and `y` carries none of the three keys.
proof fn lemma_no_hmy(line: Seq<char>)
    requires
        !line.contains('h'),
        !line.contains('m'),
        !line.contains('y'),
    ensures
        no_key(line),
{
    reveal_strlit("api.alsa.headroom");
    reveal_strlit("session.suspend-timeout-seconds");
    reveal_strlit("node.latency");
    assert("api.alsa.headroom"@[9] == 'h');
    assert("session.suspend-timeout-seconds"@[18] == 'm');
    assert("node.latency"@[11] == 'y');
    lemma_absent(line, "api.alsa.headroom"@, 'h');
    lemma_absent(line, "session.suspend-timeout-seconds"@, 'm');
    lemma_absent(line, "node.latency"@, 'y');
}

/// A line whose block is `next` afterwards, that does not carry the key of
/// that block and sets no Bluetooth value, leaves the tweaks as they are.
proof fn lemma_wp_quiet(t: UserTweaks, cur: Option<Section>, l: Seq<char>, next: Option<Section>)
    requires
        section_after(trim(l), cur) == next,
        key_absent(trim(l), next),
        trim(l).len() == 0 || trim(l)[0] != 'b',
    ensures
        wireplumber_line(t, cur, l) == (t, next),
{
    let line = trim(l);
    reveal_strlit("bluez5.enable-sbc-xq");
    reveal_strlit("bluetooth.autoswitch-to-headset-profile");
    if strip_prefix(line, "bluez5.enable-sbc-xq"@) is Some {
        assert(line.take(20)[0] == line[0]);
    }
    if strip_prefix(line, "bluetooth.autoswitch-to-headset-profile"@) is Some {
        assert(line.take(39)[0] == line[0]);
    }
    assert(strip_kv_spec(line, "bluez5.enable-sbc-xq"@) is None);
    assert(strip_kv_spec(line, "bluetooth.autoswitch-to-headset-profile"@) is None);
}

/// A line that neither opens a block, nor carries the key of the current
/// block, nor sets a Bluetooth value, changes nothing.
proof fn lemma_wp_inert(t: UserTweaks, cur: Option<Section>, l: Seq<char>)
    requires
        no_marker(trim(l)),
        key_absent(trim(l), cur),
        trim(l).len() == 0 || trim(l)[0] != 'b',
    ensures
        wireplumber_line(t, cur, l) == (t, cur),
{
    lemma_wp_quiet(t, cur, l, cur);
}

proof fn lemma_lacks(a: Seq<char>, b: Seq<char>, c: char)
    requires
        !a.contains(c),
        !b.contains(c),
    ensures
        !(a + b).contains(c),
{
    if (a + b).contains(c) {
        let k = choose|k: int| 0 <= k < (a + b).len() && (a + b)[k] == c;
        if k < a.len() {
            assert(a[k] == c);
        } else {
            assert(b[k - a.len()] == c);
        }
    }
}

proof fn lemma_lacks3(a: Seq<char>, b: Seq<char>, d: Seq<char>, c: char)
    requires
        !a.contains(c),
        !b.contains(c),
        !d.contains(c),
    ensures
        !(a + b + d).contains(c),
{
    lemma_lacks(a, b, c);
    lemma_lacks(a + b, d, c);
}

// ── The lines that name a node ───────────────────────────────────────

/// `{ node.name = "<name>" }`, indented as the renderer writes it.
spec fn marker_line(name: Seq<char>) -> Seq<char> {
    "      { node.name = \""@ + name + "\" }"@
}

/// [`marker_line`] without its indentation.
spec fn marker_body(name: Seq<char>) -> Seq<char> {
    "{ node.name = \""@ + name + "\" }"@
}

proof fn lemma_marker_trim(name: Seq<char>)
    ensures
        trim(marker_line(name)) == marker_body(name),
{
    reveal_strlit("      { node.name = \"");
    reveal_strlit("{ node.name = \"");
    reveal_strlit("      ");
    reveal_strlit("\" }");
    let pad = "      "@;
    let body = marker_body(name);
    assert(marker_line(name) =~= pad + body + Seq::<char>::empty());
    assert(body[0] == '{');
    assert(body.last() == '}');
    lemma_trim_around(pad, body, Seq::<char>::empty());
}

/// The four block markers, as the renderer writes their input patterns.
spec fn marker_of(name: Seq<char>) -> Seq<char> {
    "\""@ + name + "\""@
}

proof fn lemma_marker_present(name: Seq<char>)
    ensures
        contains(marker_body(name), marker_of(name)),
{
    reveal_strlit("{ node.name = \"");
    reveal_strlit("{ node.name = ");
    reveal_strlit("\" }");
    reveal_strlit(" }");
    reveal_strlit("\"");
    assert(marker_body(name) =~= "{ node.name = "@ + marker_of(name) + " }"@);
    lemma_present("{ node.name = "@, marker_of(name), " }"@);
}

proof fn lemma_markers_spelled()
    ensures
        marker_of("~alsa_input.usb-.*"@) == "\"~alsa_input.usb-.*\""@,
        marker_of("~alsa_input.pci-.*"@) == "\"~alsa_input.pci-.*\""@,
        marker_of("~alsa_input.*"@) == "\"~alsa_input.*\""@,
        marker_of("~bluez_input.*"@) == "\"~bluez_input.*\""@,
{
    reveal_strlit("\"");
    reveal_strlit("~alsa_input.usb-.*");
    reveal_strlit("~alsa_input.pci-.*");
    reveal_strlit("~alsa_input.*");
    reveal_strlit("~bluez_input.*");
    reveal_strlit("\"~alsa_input.usb-.*\"");
    reveal_strlit("\"~alsa_input.pci-.*\"");
    reveal_strlit("\"~alsa_input.*\"");
    reveal_strlit("\"~bluez_input.*\"");
    assert(marker_of("~alsa_input.usb-.*"@) =~= "\"~alsa_input.usb-.*\""@);
    assert(marker_of("~alsa_input.pci-.*"@) =~= "\"~alsa_input.pci-.*\""@);
    assert(marker_of("~alsa_input.*"@) =~= "\"~alsa_input.*\""@);
    assert(marker_of("~bluez_input.*"@) =~= "\"~bluez_input.*\""@);
}

/// The line naming the USB input opens the USB block.
proof fn lemma_wp_usb_in(t: UserTweaks, cur: Option<Section>)
    ensures
        wireplumber_line(t, cur, marker_line("~alsa_input.usb-.*"@)) == (t, Some(Section::Usb)),
{
    let name = "~alsa_input.usb-.*"@;
    let body = marker_body(name);
    reveal_strlit("~alsa_input.usb-.*");
    reveal_strlit("{ node.name = \"");
    reveal_strlit("\" }");
    reveal_strlit("api.alsa.headroom");
    lemma_marker_trim(name);
    lemma_marker_present(name);
    lemma_markers_spelled();
    lemma_lacks3("{ node.name = \""@, name, "\" }"@, 'h');
    assert("api.alsa.headroom"@[9] == 'h');
    lemma_absent(body, "api.alsa.headroom"@, 'h');
    assert(body[0] == '{');
    lemma_wp_quiet(t, cur, marker_line(name), Some(Section::Usb));
}

/// The line naming the PCI input opens the PCI block.
proof fn lemma_wp_pci_in(t: UserTweaks, cur: Option<Section>)
    ensures
        wireplumber_line(t, cur, marker_line("~alsa_input.pci-.*"@)) == (t, Some(Section::Pci)),
{
    let name = "~alsa_input.pci-.*"@;
    let body = marker_body(name);
    reveal_strlit("~alsa_input.pci-.*");
    reveal_strlit("{ node.name = \"");
    reveal_strlit("\" }");
    reveal_strlit("api.alsa.headroom");
    reveal_strlit("\"~alsa_input.usb-.*\"");
    lemma_marker_trim(name);
    lemma_marker_present(name);
    lemma_markers_spelled();
    lemma_lacks3("{ node.name = \""@, name, "\" }"@, 'h');
    lemma_lacks3("{ node.name = \""@, name, "\" }"@, 'b');
    assert("api.alsa.headroom"@[9] == 'h');
    assert("\"~alsa_input.usb-.*\""@[15] == 'b');
    lemma_absent(body, "api.alsa.headroom"@, 'h');
    lemma_absent(body, "\"~alsa_input.usb-.*\""@, 'b');
    assert(body[0] == '{');
    lemma_wp_quiet(t, cur, marker_line(name), Some(Section::Pci));
}

/// The line naming every ALSA input opens the block for all of them.
proof fn lemma_wp_all_in(t: UserTweaks, cur: Option<Section>)
    ensures
        wireplumber_line(t, cur, marker_line("~alsa_input.*"@)) == (t, Some(Section::AlsaAll)),
{
    let name = "~alsa_input.*"@;
    let body = marker_body(name);
    reveal_strlit("~alsa_input.*");
    reveal_strlit("{ node.name = \"");
    reveal_strlit("\" }");
    reveal_strlit("session.suspend-timeout-seconds");
    reveal_strlit("\"~alsa_input.usb-.*\"");
    reveal_strlit("\"~alsa_input.pci-.*\"");
    lemma_marker_trim(name);
    lemma_marker_present(name);
    lemma_markers_spelled();
    lemma_lacks3("{ node.name = \""@, name, "\" }"@, '-');
    lemma_lacks3("{ node.name = \""@, name, "\" }"@, 'b');
    lemma_lacks3("{ node.name = \""@, name, "\" }"@, 'c');
    assert("session.suspend-timeout-seconds"@[15] == '-');
    assert("\"~alsa_input.usb-.*\""@[15] == 'b');
    assert("\"~alsa_input.pci-.*\""@[14] == 'c');
    lemma_absent(body, "session.suspend-timeout-seconds"@, '-');
    lemma_absent(body, "\"~alsa_input.usb-.*\""@, 'b');
    lemma_absent(body, "\"~alsa_input.pci-.*\""@, 'c');
    assert(body[0] == '{');
    lemma_wp_quiet(t, cur, marker_line(name), Some(Section::AlsaAll));
}

/// The line naming the Bluetooth input opens the Bluetooth block.
proof fn lemma_wp_bluez_in(t: UserTweaks, cur: Option<Section>)
    ensures
        wireplumber_line(t, cur, marker_line("~bluez_input.*"@)) == (t, Some(Section::Bluez)),
{
    let name = "~bluez_input.*"@;
    let body = marker_body(name);
    reveal_strlit("~bluez_input.*");
    reveal_strlit("{ node.name = \"");
    reveal_strlit("\" }");
    reveal_strlit("node.latency");
    reveal_strlit("\"~alsa_input.usb-.*\"");
    reveal_strlit("\"~alsa_input.pci-.*\"");
    reveal_strlit("\"~alsa_input.*\"");
    lemma_marker_trim(name);
    lemma_marker_present(name);
    lemma_markers_spelled();
    lemma_lacks3("{ node.name = \""@, name, "\" }"@, 'y');
    lemma_lacks3("{ node.name = \""@, name, "\" }"@, 's');
    assert("node.latency"@[11] == 'y');
    assert("\"~alsa_input.usb-.*\""@[4] == 's');
    assert("\"~alsa_input.pci-.*\""@[4] == 's');
    assert("\"~alsa_input.*\""@[4] == 's');
    lemma_absent(body, "node.latency"@, 'y');
    lemma_absent(body, "\"~alsa_input.usb-.*\""@, 's');
    lemma_absent(body, "\"~alsa_input.pci-.*\""@, 's');
    lemma_absent(body, "\"~alsa_input.*\""@, 's');
    assert(body[0] == '{');
    lemma_wp_quiet(t, cur, marker_line(name), Some(Section::Bluez));
}

/// No marker is in a line naming an output: there `_` is followed by `o`.
proof fn lemma_out_no_marker(lead: Seq<char>, rest: Seq<char>)
    requires
        lead == "~alsa_"@ || lead == "~bluez_"@,
        rest.len() > 0,
        rest[0] == 'o',
        !rest.contains('_'),
    ensures
        no_marker(marker_body(lead + rest)),
{
    reveal_strlit("~alsa_");
    reveal_strlit("~bluez_");
    reveal_strlit("{ node.name = \"");
    reveal_strlit("\" }");
    reveal_strlit("\"~alsa_input.usb-.*\"");
    reveal_strlit("\"~alsa_input.pci-.*\"");
    reveal_strlit("\"~alsa_input.*\"");
    reveal_strlit("\"~bluez_input.*\"");
    let a = "{ node.name = \""@ + lead;
    let b = rest + "\" }"@;
    assert(marker_body(lead + rest) =~= a + b);
    assert(a.last() == '_');
    assert(a.drop_last() =~= "{ node.name = \""@ + lead.drop_last());
    lemma_lacks("{ node.name = \""@, lead.drop_last(), '_');
    lemma_lacks(rest, "\" }"@, '_');
    assert(b[0] == 'o');
    assert("\"~alsa_input.usb-.*\""@[6] == '_' && "\"~alsa_input.usb-.*\""@[7] == 'i');
    assert("\"~alsa_input.pci-.*\""@[6] == '_' && "\"~alsa_input.pci-.*\""@[7] == 'i');
    assert("\"~alsa_input.*\""@[6] == '_' && "\"~alsa_input.*\""@[7] == 'i');
    assert("\"~bluez_input.*\""@[7] == '_' && "\"~bluez_input.*\""@[8] == 'i');
    lemma_absent_pair(a, b, "\"~alsa_input.usb-.*\""@, 6);
    lemma_absent_pair(a, b, "\"~alsa_input.pci-.*\""@, 6);
    lemma_absent_pair(a, b, "\"~alsa_input.*\""@, 6);
    lemma_absent_pair(a, b, "\"~bluez_input.*\""@, 7);
}

/// Naming an output leaves the block, and the tweaks, as they are.
proof fn lemma_wp_out(t: UserTweaks, cur: Option<Section>, lead: Seq<char>, rest: Seq<char>)
    requires
        lead == "~alsa_"@ || lead == "~bluez_"@,
        rest.len() > 0,
        rest[0] == 'o',
        !rest.contains('_'),
        key_absent(marker_body(lead + rest), cur),
    ensures
        wireplumber_line(t, cur, marker_line(lead + rest)) == (t, cur),
{
    reveal_strlit("{ node.name = \"");
    lemma_marker_trim(lead + rest);
    lemma_out_no_marker(lead, rest);
    assert(marker_body(lead + rest)[0] == '{');
    lemma_wp_inert(t, cur, marker_line(lead + rest));
}

/// Decimal digits hold no character that is not a digit.
proof fn lemma_dec_lacks(n: nat, c: char)
    requires
        !is_digit(c),
    ensures
        !dec(n).contains(c),
{
    lemma_dec_digits(n);
    if dec(n).contains(c) {
        let k = choose|k: int| 0 <= k < dec(n).len() && dec(n)[k] == c;
        assert(is_digit(dec(n)[k]));
    }
}

// ── The lines that set a value ───────────────────────────────────────

/// `actions = { update-props = { <key> = <value> } }`, indented.
spec fn action_line(key: Seq<char>, value: Seq<char>) -> Seq<char> {
    "    actions = { update-props = { "@ + key + " = "@ + value + " } }"@
}

spec fn action_pre() -> Seq<char> {
    "actions = { update-props = { "@
}

proof fn lemma_action_line(key: Seq<char>, value: Seq<char>)
    requires
        key.len() > 0,
    ensures
        trim(action_line(key, value)) == action_pre() + key + (" = "@ + value + " } }"@),
        trim(action_line(key, value))[0] == 'a',
{
    reveal_strlit("    actions = { update-props = { ");
    reveal_strlit("actions = { update-props = { ");
    reveal_strlit("    ");
    reveal_strlit(" } }");
    let pad = "    "@;
    let body = action_pre() + key + (" = "@ + value + " } }"@);
    assert(action_line(key, value) =~= pad + body + Seq::<char>::empty());
    assert(body[0] == 'a');
    assert(body.last() == '}');
    lemma_trim_around(pad, body, Seq::<char>::empty());
}

/// The value of a setting line has no `~`, so it opens no block.
proof fn lemma_action_no_marker(key: Seq<char>, value: Seq<char>)
    requires
        !key.contains('~'),
        !value.contains('~'),
    ensures
        no_marker(action_pre() + key + (" = "@ + value + " } }"@)),
{
    reveal_strlit("actions = { update-props = { ");
    reveal_strlit(" = ");
    reveal_strlit(" } }");
    lemma_lacks3(" = "@, value, " } }"@, '~');
    lemma_lacks3(action_pre(), key, " = "@ + value + " } }"@, '~');
    lemma_no_tilde(action_pre() + key + (" = "@ + value + " } }"@));
}

/// The headroom line of a USB or PCI block sets that block's headroom.
proof fn lemma_wp_headroom(t: UserTweaks, s: Section, h: u32)
    requires
        s == Section::Usb || s == Section::Pci,
    ensures
        wireplumber_line(t, Some(s), action_line("api.alsa.headroom"@, dec(h as nat))) == (if s
            == Section::Usb {
            UserTweaks { headroom_usb: Some(h), ..t }
        } else {
            UserTweaks { headroom_pci: Some(h), ..t }
        }, Some(s)),
{
    let key = "api.alsa.headroom"@;
    let v = dec(h as nat);
    reveal_strlit("api.alsa.headroom");
    reveal_strlit("actions = { update-props = { ");
    reveal_strlit("bluez5.enable-sbc-xq");
    reveal_strlit("bluetooth.autoswitch-to-headset-profile");
    lemma_action_line(key, v);
    let line = action_pre() + key + (" = "@ + v + " } }"@);
    lemma_dec_digits(h as nat);
    lemma_dec_lacks(h as nat, '}');
    lemma_dec_lacks(h as nat, ',');
    lemma_dec_lacks(h as nat, '~');
    assert(!is_ws(v[0])) by {
        assert(is_digit(v[0]));
    }
    assert(!is_ws(v.last())) by {
        assert(is_digit(v[v.len() - 1]));
    }
    assert(key[9] == 'h');
    assert(forall|i: int| 0 <= i < 9 ==> key[i] != 'h');
    lemma_action_value(action_pre(), key, v, 9);
    lemma_parse_dec(h);
    lemma_action_no_marker(key, v);
    assert(section_after(line, Some(s)) == Some(s));
    if strip_prefix(line, "bluez5.enable-sbc-xq"@) is Some {
        assert(line.take(20)[0] == line[0]);
    }
    if strip_prefix(line, "bluetooth.autoswitch-to-headset-profile"@) is Some {
        assert(line.take(39)[0] == line[0]);
    }
    assert(strip_kv_spec(line, "bluez5.enable-sbc-xq"@) is None);
    assert(strip_kv_spec(line, "bluetooth.autoswitch-to-headset-profile"@) is None);
}

/// The no-suspend line of the block for every ALSA node turns suspension
/// off.
proof fn lemma_wp_no_suspend(t: UserTweaks)
    ensures
        wireplumber_line(t, Some(Section::AlsaAll), action_line("session.suspend-timeout-seconds"@, "0"@))
            == (UserTweaks { alsa_no_suspend: Some(true), ..t }, Some(Section::AlsaAll)),
{
    let key = "session.suspend-timeout-seconds"@;
    let v = "0"@;
    reveal_strlit("session.suspend-timeout-seconds");
    reveal_strlit("0");
    reveal_strlit("actions = { update-props = { ");
    reveal_strlit("bluez5.enable-sbc-xq");
    reveal_strlit("bluetooth.autoswitch-to-headset-profile");
    lemma_action_line(key, v);
    let line = action_pre() + key + (" = "@ + v + " } }"@);
    assert(key[18] == 'm');
    assert(forall|i: int| 0 <= i < 18 ==> key[i] != 'm');
    lemma_action_value(action_pre(), key, v, 18);
    lemma_action_no_marker(key, v);
    assert(section_after(line, Some(Section::AlsaAll)) == Some(Section::AlsaAll));
    if strip_prefix(line, "bluez5.enable-sbc-xq"@) is Some {
        assert(line.take(20)[0] == line[0]);
    }
    if strip_prefix(line, "bluetooth.autoswitch-to-headset-profile"@) is Some {
        assert(line.take(39)[0] == line[0]);
    }
    assert(strip_kv_spec(line, "bluez5.enable-sbc-xq"@) is None);
    assert(strip_kv_spec(line, "bluetooth.autoswitch-to-headset-profile"@) is None);
}

/// The quoted latency `"<n>/48000"`.
spec fn latency_value(l: u32) -> Seq<char> {
    "\""@ + dec(l as nat) + "/48000\""@
}

proof fn lemma_latency_number(l: u32)
    ensures
        parse_u32(before_char(trim_set(latency_value(l), seq!['"']), '/')) == Some(l),
{
    reveal_strlit("\"");
    reveal_strlit("/48000\"");
    let d = dec(l as nat);
    let v = latency_value(l);
    let set = seq!['"'];
    lemma_dec_digits(l as nat);
    assert(set.contains(v[0])) by {
        assert(set[0] == v[0]);
    }
    assert(v[1] == d[0]);
    assert(!set.contains(v[1])) by {
        assert(is_digit(d[0]));
        if set.contains(v[1]) {
            let m = choose|m: int| 0 <= m < set.len() && set[m] == v[1];
            assert(m == 0);
        }
    }
    assert(set_fwd(v, set, 1) == 1);
    assert(set_fwd(v, set, 0) == 1);
    let w = v.skip(1);
    assert(w =~= d + "/48000\""@);
    let n = w.len() as int;
    assert(set.contains(w[n - 1])) by {
        assert(set[0] == w[n - 1]);
    }
    assert(w[n - 2] == '0');
    assert(!set.contains(w[n - 2])) by {
        if set.contains(w[n - 2]) {
            let m = choose|m: int| 0 <= m < set.len() && set[m] == w[n - 2];
            assert(m == 0);
        }
    }
    assert(set_back(w, set, n - 1) == n - 1);
    assert(set_back(w, set, n) == n - 1);
    let u = w.take(n - 1);
    assert(trim_set(v, set) == u);
    reveal_strlit("/48000");
    assert(u =~= d + "/48000"@);
    lemma_char_pos(u, '/', 0);
    assert(u[d.len() as int] == '/');
    let p = char_pos(u, '/', 0);
    if p < d.len() {
        assert(u[p] == d[p]);
        assert(is_digit(d[p]));
    }
    assert(p == d.len());
    assert(before_char(u, '/') =~= d);
    lemma_parse_dec(l);
}

/// The latency line of the Bluetooth block sets the Bluetooth latency.
proof fn lemma_wp_latency(t: UserTweaks, l: u32)
    ensures
        wireplumber_line(t, Some(Section::Bluez), action_line("node.latency"@, latency_value(l)))
            == (UserTweaks { bt_latency: Some(l), ..t }, Some(Section::Bluez)),
{
    let key = "node.latency"@;
    let v = latency_value(l);
    reveal_strlit("node.latency");
    reveal_strlit("\"");
    reveal_strlit("/48000\"");
    reveal_strlit("actions = { update-props = { ");
    reveal_strlit("bluez5.enable-sbc-xq");
    reveal_strlit("bluetooth.autoswitch-to-headset-profile");
    lemma_action_line(key, v);
    let line = action_pre() + key + (" = "@ + v + " } }"@);
    lemma_dec_lacks(l as nat, '}');
    lemma_dec_lacks(l as nat, ',');
    lemma_dec_lacks(l as nat, '~');
    lemma_lacks3("\""@, dec(l as nat), "/48000\""@, '}');
    lemma_lacks3("\""@, dec(l as nat), "/48000\""@, ',');
    lemma_lacks3("\""@, dec(l as nat), "/48000\""@, '~');
    assert(v[0] == '"');
    assert(v.last() == '"');
    assert(key[11] == 'y');
    assert(forall|i: int| 0 <= i < 11 ==> key[i] != 'y');
    lemma_action_value(action_pre(), key, v, 11);
    lemma_latency_number(l);
    lemma_action_no_marker(key, v);
    assert(section_after(line, Some(Section::Bluez)) == Some(Section::Bluez));
    if strip_prefix(line, "bluez5.enable-sbc-xq"@) is Some {
        assert(line.take(20)[0] == line[0]);
    }
    if strip_prefix(line, "bluetooth.autoswitch-to-headset-profile"@) is Some {
        assert(line.take(39)[0] == line[0]);
    }
    assert(strip_kv_spec(line, "bluez5.enable-sbc-xq"@) is None);
    assert(strip_kv_spec(line, "bluetooth.autoswitch-to-headset-profile"@) is None);
}

/// `<key> = <value>` gives `value` for `key`.
proof fn lemma_kv_value(key: Seq<char>, value: Seq<char>)
    requires
        value.len() > 0,
        !is_ws(value[0]),
        !is_ws(value.last()),
    ensures
        strip_kv_spec(key + " = "@ + value, key) == Some(value),
{
    reveal_strlit(" = ");
    let line = key + " = "@ + value;
    assert(line.take(key.len() as int) =~= key);
    let r = line.skip(key.len() as int);
    let sp = seq![' '];
    let body = seq!['='] + sp + value;
    assert(r =~= sp + body);
    assert(body.last() == value.last());
    lemma_trim_padded(sp, body);
    let r2 = sp + value;
    assert(body.take(1) =~= seq!['=']);
    assert(body.skip(1) =~= r2);
    assert forall|k: int| 0 <= k < sp.len() implies is_ws(#[trigger] sp[k]) by {}
    assert(r2 =~= sp + value + Seq::<char>::empty());
    lemma_trim_around(sp, value, Seq::<char>::empty());
}

proof fn lemma_bool_word(on: bool)
    ensures
        bool_word(on).len() > 0,
        !is_ws(bool_word(on)[0]),
        !is_ws(bool_word(on).last()),
        bool_setting(bool_word(on), None) == Some(on),
        forall|prev: Option<bool>| bool_setting(bool_word(on), prev) == Some(on),
        !bool_word(on).contains('~'),
        !bool_word(on).contains('h'),
        !bool_word(on).contains('m'),
        !bool_word(on).contains('y'),
{
    reveal_strlit("true");
    reveal_strlit("false");
    if on {
        assert(bool_word(on) != "false"@) by {
            assert(bool_word(on).len() != "false"@.len());
        }
    }
}

/// The autoswitch setting line sets the call autoswitch.
proof fn lemma_wp_autoswitch(t: UserTweaks, on: bool)
    ensures
        wireplumber_line(t, None, "    bluetooth.autoswitch-to-headset-profile = "@ + bool_word(on))
            == (UserTweaks { bt_call_autoswitch: Some(on), ..t }, None::<Section>),
{
    let key = "bluetooth.autoswitch-to-headset-profile"@;
    let w = bool_word(on);
    reveal_strlit("    bluetooth.autoswitch-to-headset-profile = ");
    reveal_strlit("bluetooth.autoswitch-to-headset-profile");
    reveal_strlit("bluez5.enable-sbc-xq");
    reveal_strlit(" = ");
    reveal_strlit("    ");
    lemma_bool_word(on);
    let body = key + " = "@ + w;
    assert("    bluetooth.autoswitch-to-headset-profile = "@ + w =~= "    "@ + body
        + Seq::<char>::empty());
    assert(body[0] == 'b');
    assert(body.last() == w.last());
    lemma_trim_around("    "@, body, Seq::<char>::empty());
    lemma_kv_value(key, w);
    lemma_lacks3(key, " = "@, w, '~');
    lemma_no_tilde(body);
    assert(body[4] == 't');
    if strip_prefix(body, "bluez5.enable-sbc-xq"@) is Some {
        assert(body.take(20)[4] == body[4]);
    }
    assert(strip_kv_spec(body, "bluez5.enable-sbc-xq"@) is None);
}

/// The SBC-XQ setting line sets the codec hint, whatever block it is in.
proof fn lemma_wp_sbc(t: UserTweaks, cur: Option<Section>, on: bool)
    ensures
        wireplumber_line(t, cur, "    bluez5.enable-sbc-xq = "@ + bool_word(on)) == (UserTweaks {
            bt_sbc_xq: Some(on),
            ..t
        }, cur),
{
    let key = "bluez5.enable-sbc-xq"@;
    let w = bool_word(on);
    reveal_strlit("    bluez5.enable-sbc-xq = ");
    reveal_strlit("bluez5.enable-sbc-xq");
    reveal_strlit("bluetooth.autoswitch-to-headset-profile");
    reveal_strlit(" = ");
    reveal_strlit("    ");
    lemma_bool_word(on);
    let body = key + " = "@ + w;
    assert("    bluez5.enable-sbc-xq = "@ + w =~= "    "@ + body + Seq::<char>::empty());
    assert(body[0] == 'b');
    assert(body.last() == w.last());
    lemma_trim_around("    "@, body, Seq::<char>::empty());
    lemma_kv_value(key, w);
    lemma_lacks3(key, " = "@, w, '~');
    lemma_no_tilde(body);
    lemma_lacks3(key, " = "@, w, 'h');
    lemma_lacks3(key, " = "@, w, 'm');
    lemma_lacks3(key, " = "@, w, 'y');
    lemma_no_hmy(body);
    assert(section_after(body, cur) == cur);
    assert(body[4] == 'z');
    if strip_prefix(body, "bluetooth.autoswitch-to-headset-profile"@) is Some {
        assert(body.take(39)[4] == body[4]);
    }
    assert(strip_kv_spec(body, "bluetooth.autoswitch-to-headset-profile"@) is None);
}

// ── Lines that only hold the layout ──────────────────────────────────

proof fn lemma_trim_lacks(l: Seq<char>, c: char)
    requires
        !l.contains(c),
    ensures
        !trim(l).contains(c),
{
    let a = ws_fwd(l, 0);
    lemma_ws_fwd_bounds(l, 0);
    let s = l.skip(a);
    lemma_ws_back_bounds(s, s.len() as int);
    let b = ws_back(s, s.len() as int);
    if trim(l).contains(c) {
        let k = choose|k: int| 0 <= k < trim(l).len() && trim(l)[k] == c;
        assert(trim(l)[k] == s[k]);
        assert(s[k] == l[a + k]);
    }
}

/// A line with no `.`, no `~` and no `b` changes nothing.
proof fn lemma_wp_plain(t: UserTweaks, cur: Option<Section>, l: Seq<char>)
    requires
        !l.contains('.'),
        !l.contains('~'),
        !l.contains('b'),
    ensures
        wireplumber_line(t, cur, l) == (t, cur),
{
    lemma_trim_lacks(l, '.');
    lemma_trim_lacks(l, '~');
    lemma_trim_lacks(l, 'b');
    lemma_no_dot(trim(l));
    lemma_no_tilde(trim(l));
    if trim(l).len() > 0 {
        assert(trim(l).contains(trim(l)[0]));
    }
    lemma_wp_inert(t, cur, l);
}

/// A line without indentation or trailing blanks, not starting with `b`,
/// with no `~` and without the key of the current block, changes nothing.
proof fn lemma_wp_flush(t: UserTweaks, cur: Option<Section>, l: Seq<char>)
    requires
        l.len() > 0,
        !is_ws(l[0]),
        !is_ws(l.last()),
        l[0] != 'b',
        !l.contains('~'),
        key_absent(l, cur),
    ensures
        wireplumber_line(t, cur, l) == (t, cur),
{
    assert(l =~= Seq::<char>::empty() + l + Seq::<char>::empty());
    lemma_trim_around(Seq::<char>::empty(), l, Seq::<char>::empty());
    lemma_no_tilde(l);
    lemma_wp_inert(t, cur, l);
}

/// A line with no `h`, `-` and `y` carries none of the three keys.
proof fn lemma_no_hdy(line: Seq<char>)
    requires
        !line.contains('h'),
        !line.contains('-'),
        !line.contains('y'),
    ensures
        no_key(line),
{
    reveal_strlit("api.alsa.headroom");
    reveal_strlit("session.suspend-timeout-seconds");
    reveal_strlit("node.latency");
    assert("api.alsa.headroom"@[9] == 'h');
    assert("session.suspend-timeout-seconds"@[15] == '-');
    assert("node.latency"@[11] == 'y');
    lemma_absent(line, "api.alsa.headroom"@, 'h');
    lemma_absent(line, "session.suspend-timeout-seconds"@, '-');
    lemma_absent(line, "node.latency"@, 'y');
}

// ── One rule ─────────────────────────────────────────────────────────

/// The seven lines of one rule, as the renderer writes them.
spec fn rule_lines(input: Seq<char>, output: Seq<char>, key: Seq<char>, value: Seq<char>) -> Seq<
    Seq<char>,
> {
    Seq::empty().push("  {"@).push("    matches = ["@).push(marker_line(input)).push(
        marker_line(output),
    ).push("    ]"@).push(action_line(key, value)).push("  }"@)
}

proof fn lemma_run_rule(
    t: UserTweaks,
    cur: Option<Section>,
    input: Seq<char>,
    output: Seq<char>,
    key: Seq<char>,
    value: Seq<char>,
    s: Section,
    t2: UserTweaks,
)
    requires
        wireplumber_line(t, cur, marker_line(input)) == (t, Some(s)),
        wireplumber_line(t, Some(s), marker_line(output)) == (t, Some(s)),
        wireplumber_line(t, Some(s), action_line(key, value)) == (t2, Some(s)),
    ensures
        wp_run(rule_lines(input, output, key, value), t, cur) == (t2, Some(s)),
{
    reveal_strlit("  {");
    reveal_strlit("    matches = [");
    reveal_strlit("    ]");
    reveal_strlit("  }");
    let s0 = Seq::<Seq<char>>::empty();
    let s1 = s0.push("  {"@);
    let s2 = s1.push("    matches = ["@);
    let s3 = s2.push(marker_line(input));
    let s4 = s3.push(marker_line(output));
    let s5 = s4.push("    ]"@);
    let s6 = s5.push(action_line(key, value));
    let s7 = s6.push("  }"@);
    lemma_run_push(s0, "  {"@, t, cur);
    lemma_wp_plain(t, cur, "  {"@);
    lemma_run_push(s1, "    matches = ["@, t, cur);
    lemma_wp_plain(t, cur, "    matches = ["@);
    lemma_run_push(s2, marker_line(input), t, cur);
    lemma_run_push(s3, marker_line(output), t, cur);
    lemma_run_push(s4, "    ]"@, t, cur);
    lemma_wp_plain(t, Some(s), "    ]"@);
    lemma_run_push(s5, action_line(key, value), t, cur);
    lemma_run_push(s6, "  }"@, t, cur);
    lemma_wp_plain(t2, Some(s), "  }"@);
}

proof fn lemma_out_body_lacks(name: Seq<char>, c: char)
    requires
        !name.contains(c),
        c != '{' && c != ' ' && c != 'n' && c != 'o' && c != 'd' && c != 'e' && c != '.' && c
            != 'a' && c != 'm' && c != '=' && c != '"' && c != '}',
    ensures
        !marker_body(name).contains(c),
{
    reveal_strlit("{ node.name = \"");
    reveal_strlit("\" }");
    lemma_lacks3("{ node.name = \""@, name, "\" }"@, c);
}

/// The USB rule sets the USB headroom and leaves the USB block current.
proof fn lemma_run_usb(t: UserTweaks, cur: Option<Section>, h: u32)
    ensures
        wp_run(
            rule_lines("~alsa_input.usb-.*"@, "~alsa_output.usb-.*"@, "api.alsa.headroom"@, dec(h as nat)),
            t,
            cur,
        ) == (UserTweaks { headroom_usb: Some(h), ..t }, Some(Section::Usb)),
{
    reveal_strlit("~alsa_output.usb-.*");
    reveal_strlit("~alsa_");
    reveal_strlit("output.usb-.*");
    reveal_strlit("api.alsa.headroom");
    let out = "~alsa_output.usb-.*"@;
    assert(out =~= "~alsa_"@ + "output.usb-.*"@);
    lemma_wp_usb_in(t, cur);
    lemma_out_body_lacks(out, 'h');
    assert("api.alsa.headroom"@[9] == 'h');
    lemma_absent(marker_body(out), "api.alsa.headroom"@, 'h');
    lemma_wp_out(t, Some(Section::Usb), "~alsa_"@, "output.usb-.*"@);
    lemma_wp_headroom(t, Section::Usb, h);
    lemma_run_rule(
        t,
        cur,
        "~alsa_input.usb-.*"@,
        out,
        "api.alsa.headroom"@,
        dec(h as nat),
        Section::Usb,
        UserTweaks { headroom_usb: Some(h), ..t },
    );
}

/// The PCI rule sets the PCI headroom and leaves the PCI block current.
proof fn lemma_run_pci(t: UserTweaks, cur: Option<Section>, h: u32)
    ensures
        wp_run(
            rule_lines("~alsa_input.pci-.*"@, "~alsa_output.pci-.*"@, "api.alsa.headroom"@, dec(h as nat)),
            t,
            cur,
        ) == (UserTweaks { headroom_pci: Some(h), ..t }, Some(Section::Pci)),
{
    reveal_strlit("~alsa_output.pci-.*");
    reveal_strlit("~alsa_");
    reveal_strlit("output.pci-.*");
    reveal_strlit("api.alsa.headroom");
    let out = "~alsa_output.pci-.*"@;
    assert(out =~= "~alsa_"@ + "output.pci-.*"@);
    lemma_wp_pci_in(t, cur);
    lemma_out_body_lacks(out, 'h');
    assert("api.alsa.headroom"@[9] == 'h');
    lemma_absent(marker_body(out), "api.alsa.headroom"@, 'h');
    lemma_wp_out(t, Some(Section::Pci), "~alsa_"@, "output.pci-.*"@);
    lemma_wp_headroom(t, Section::Pci, h);
    lemma_run_rule(
        t,
        cur,
        "~alsa_input.pci-.*"@,
        out,
        "api.alsa.headroom"@,
        dec(h as nat),
        Section::Pci,
        UserTweaks { headroom_pci: Some(h), ..t },
    );
}

/// The rule for every ALSA node turns suspension off and leaves that block
/// current.
proof fn lemma_run_all(t: UserTweaks, cur: Option<Section>)
    ensures
        wp_run(
            rule_lines("~alsa_input.*"@, "~alsa_output.*"@, "session.suspend-timeout-seconds"@, "0"@),
            t,
            cur,
        ) == (UserTweaks { alsa_no_suspend: Some(true), ..t }, Some(Section::AlsaAll)),
{
    reveal_strlit("~alsa_output.*");
    reveal_strlit("~alsa_");
    reveal_strlit("output.*");
    reveal_strlit("session.suspend-timeout-seconds");
    let out = "~alsa_output.*"@;
    assert(out =~= "~alsa_"@ + "output.*"@);
    lemma_wp_all_in(t, cur);
    lemma_out_body_lacks(out, '-');
    assert("session.suspend-timeout-seconds"@[15] == '-');
    lemma_absent(marker_body(out), "session.suspend-timeout-seconds"@, '-');
    lemma_wp_out(t, Some(Section::AlsaAll), "~alsa_"@, "output.*"@);
    lemma_wp_no_suspend(t);
    lemma_run_rule(
        t,
        cur,
        "~alsa_input.*"@,
        out,
        "session.suspend-timeout-seconds"@,
        "0"@,
        Section::AlsaAll,
        UserTweaks { alsa_no_suspend: Some(true), ..t },
    );
}

/// The Bluetooth rule sets the latency and leaves the Bluetooth block
/// current.
proof fn lemma_run_bluez(t: UserTweaks, cur: Option<Section>, l: u32)
    ensures
        wp_run(
            rule_lines("~bluez_input.*"@, "~bluez_output.*"@, "node.latency"@, latency_value(l)),
            t,
            cur,
        ) == (UserTweaks { bt_latency: Some(l), ..t }, Some(Section::Bluez)),
{
    reveal_strlit("~bluez_output.*");
    reveal_strlit("~bluez_");
    reveal_strlit("output.*");
    reveal_strlit("node.latency");
    let out = "~bluez_output.*"@;
    assert(out =~= "~bluez_"@ + "output.*"@);
    lemma_wp_bluez_in(t, cur);
    lemma_out_body_lacks(out, 'y');
    assert("node.latency"@[11] == 'y');
    lemma_absent(marker_body(out), "node.latency"@, 'y');
    lemma_wp_out(t, Some(Section::Bluez), "~bluez_"@, "output.*"@);
    lemma_wp_latency(t, l);
    lemma_run_rule(
        t,
        cur,
        "~bluez_input.*"@,
        out,
        "node.latency"@,
        latency_value(l),
        Section::Bluez,
        UserTweaks { bt_latency: Some(l), ..t },
    );
}

// ── The blocks of the drop-in ────────────────────────────────────────

/// A blank line, then the line that opens a block.
spec fn opening(l: Seq<char>) -> Seq<Seq<char>> {
    Seq::empty().push(""@).push(l)
}

/// The line that closes a block.
spec fn closing(l: Seq<char>) -> Seq<Seq<char>> {
    Seq::empty().push(l)
}

/// The `wireplumber.settings` block, line by line.
spec fn settings_lines(t: UserTweaks) -> Seq<Seq<char>> {
    match t.bt_call_autoswitch {
        Some(on) => opening("wireplumber.settings = {"@).push(
            "    bluetooth.autoswitch-to-headset-profile = "@ + bool_word(on),
        ).push("}"@),
        None => Seq::empty(),
    }
}

/// The rules of the `monitor.alsa.rules` block, line by line.
spec fn alsa_rule_lines(t: UserTweaks) -> Seq<Seq<char>> {
    (match t.headroom_usb {
        Some(h) => rule_lines(
            "~alsa_input.usb-.*"@,
            "~alsa_output.usb-.*"@,
            "api.alsa.headroom"@,
            dec(h as nat),
        ),
        None => Seq::empty(),
    }) + (match t.headroom_pci {
        Some(h) => rule_lines(
            "~alsa_input.pci-.*"@,
            "~alsa_output.pci-.*"@,
            "api.alsa.headroom"@,
            dec(h as nat),
        ),
        None => Seq::empty(),
    }) + (if t.alsa_no_suspend == Some(true) {
        rule_lines("~alsa_input.*"@, "~alsa_output.*"@, "session.suspend-timeout-seconds"@, "0"@)
    } else {
        Seq::empty()
    })
}

/// The `monitor.alsa.rules` block, line by line.
spec fn alsa_lines(t: UserTweaks) -> Seq<Seq<char>> {
    if has_alsa_rules(t) {
        opening("monitor.alsa.rules = ["@) + alsa_rule_lines(t) + closing("]"@)
    } else {
        Seq::empty()
    }
}

/// The `monitor.bluez.rules` block, line by line.
spec fn bluez_lines(t: UserTweaks) -> Seq<Seq<char>> {
    match t.bt_latency {
        Some(l) => opening("monitor.bluez.rules = ["@) + rule_lines(
            "~bluez_input.*"@,
            "~bluez_output.*"@,
            "node.latency"@,
            latency_value(l),
        ) + closing("]"@),
        None => Seq::empty(),
    }
}

/// The `monitor.bluez.properties` block, line by line.
spec fn props_lines(t: UserTweaks) -> Seq<Seq<char>> {
    match t.bt_sbc_xq {
        Some(on) => opening("monitor.bluez.properties = {"@).push(
            "    bluez5.enable-sbc-xq = "@ + bool_word(on),
        ).push("}"@),
        None => Seq::empty(),
    }
}

proof fn lemma_run_opening(t: UserTweaks, cur: Option<Section>, l: Seq<char>)
    requires
        l.len() > 0,
        !is_ws(l[0]),
        !is_ws(l.last()),
        l[0] != 'b',
        !l.contains('~'),
        key_absent(l, cur),
    ensures
        wp_run(opening(l), t, cur) == (t, cur),
{
    reveal_strlit("");
    lemma_run_push(Seq::empty(), ""@, t, cur);
    lemma_wp_plain(t, cur, ""@);
    lemma_run_push(Seq::empty().push(""@), l, t, cur);
    lemma_wp_flush(t, cur, l);
}

proof fn lemma_run_closing(t: UserTweaks, cur: Option<Section>, l: Seq<char>)
    requires
        !l.contains('.'),
        !l.contains('~'),
        !l.contains('b'),
    ensures
        wp_run(closing(l), t, cur) == (t, cur),
{
    lemma_run_push(Seq::empty(), l, t, cur);
    lemma_wp_plain(t, cur, l);
}

proof fn lemma_run_header(t: UserTweaks)
    ensures
        wp_run(header_lines(), t, None) == (t, None::<Section>),
{
    let a = "# Generated by biglinux-microphone Tuning tab."@;
    let b = "# Edit via the GUI \u{2014} manual edits are preserved when possible but the"@;
    let c = "# UI is authoritative on next Apply."@;
    reveal_strlit("# Generated by biglinux-microphone Tuning tab.");
    reveal_strlit("# Edit via the GUI \u{2014} manual edits are preserved when possible but the");
    reveal_strlit("# UI is authoritative on next Apply.");
    assert(header_lines() =~= Seq::empty().push(a).push(b).push(c));
    lemma_run_push(Seq::empty(), a, t, None);
    lemma_wp_flush(t, None, a);
    lemma_run_push(Seq::empty().push(a), b, t, None);
    lemma_wp_flush(t, None, b);
    lemma_run_push(Seq::empty().push(a).push(b), c, t, None);
    lemma_wp_flush(t, None, c);
}

proof fn lemma_run_settings(t: UserTweaks, base: UserTweaks)
    ensures
        wp_run(settings_lines(t), base, None) == (UserTweaks {
            bt_call_autoswitch: if t.bt_call_autoswitch is Some {
                t.bt_call_autoswitch
            } else {
                base.bt_call_autoswitch
            },
            ..base
        }, None::<Section>),
{
    match t.bt_call_autoswitch {
        Some(on) => {
            let o = opening("wireplumber.settings = {"@);
            let a = "    bluetooth.autoswitch-to-headset-profile = "@ + bool_word(on);
            reveal_strlit("wireplumber.settings = {");
            reveal_strlit("}");
            lemma_run_opening(base, None, "wireplumber.settings = {"@);
            lemma_run_push(o, a, base, None);
            lemma_wp_autoswitch(base, on);
            lemma_run_push(o.push(a), "}"@, base, None);
            lemma_wp_plain(UserTweaks { bt_call_autoswitch: Some(on), ..base }, None, "}"@);
        },
        None => {},
    }
}

/// The tweaks after the ALSA block.
spec fn after_alsa(t: UserTweaks, base: UserTweaks) -> UserTweaks {
    UserTweaks {
        headroom_usb: if t.headroom_usb is Some {
            t.headroom_usb
        } else {
            base.headroom_usb
        },
        headroom_pci: if t.headroom_pci is Some {
            t.headroom_pci
        } else {
            base.headroom_pci
        },
        alsa_no_suspend: if t.alsa_no_suspend == Some(true) {
            Some(true)
        } else {
            base.alsa_no_suspend
        },
        ..base
    }
}

/// The block that is current after the ALSA block.
spec fn cur_after_alsa(t: UserTweaks) -> Option<Section> {
    if t.alsa_no_suspend == Some(true) {
        Some(Section::AlsaAll)
    } else if t.headroom_pci is Some {
        Some(Section::Pci)
    } else if t.headroom_usb is Some {
        Some(Section::Usb)
    } else {
        None
    }
}

proof fn lemma_run_alsa_rules(t: UserTweaks, base: UserTweaks)
    ensures
        wp_run(alsa_rule_lines(t), base, None) == (after_alsa(t, base), cur_after_alsa(t)),
{
    let u = match t.headroom_usb {
        Some(h) => rule_lines(
            "~alsa_input.usb-.*"@,
            "~alsa_output.usb-.*"@,
            "api.alsa.headroom"@,
            dec(h as nat),
        ),
        None => Seq::<Seq<char>>::empty(),
    };
    let p = match t.headroom_pci {
        Some(h) => rule_lines(
            "~alsa_input.pci-.*"@,
            "~alsa_output.pci-.*"@,
            "api.alsa.headroom"@,
            dec(h as nat),
        ),
        None => Seq::<Seq<char>>::empty(),
    };
    let n = if t.alsa_no_suspend == Some(true) {
        rule_lines("~alsa_input.*"@, "~alsa_output.*"@, "session.suspend-timeout-seconds"@, "0"@)
    } else {
        Seq::<Seq<char>>::empty()
    };
    assert(alsa_rule_lines(t) == u + p + n);
    let cu = if t.headroom_usb is Some {
        Some(Section::Usb)
    } else {
        None
    };
    let tu = UserTweaks {
        headroom_usb: if t.headroom_usb is Some {
            t.headroom_usb
        } else {
            base.headroom_usb
        },
        ..base
    };
    match t.headroom_usb {
        Some(h) => lemma_run_usb(base, None, h),
        None => {},
    }
    assert(wp_run(u, base, None) == (tu, cu));
    let cp = if t.headroom_pci is Some {
        Some(Section::Pci)
    } else {
        cu
    };
    let tp = UserTweaks {
        headroom_pci: if t.headroom_pci is Some {
            t.headroom_pci
        } else {
            base.headroom_pci
        },
        ..tu
    };
    match t.headroom_pci {
        Some(h) => lemma_run_pci(tu, cu, h),
        None => {},
    }
    assert(wp_run(p, tu, cu) == (tp, cp));
    if t.alsa_no_suspend == Some(true) {
        lemma_run_all(tp, cp);
    }
    lemma_run_concat(u, p, base, None);
    lemma_run_concat(u + p, n, base, None);
}

proof fn lemma_run_alsa(t: UserTweaks, base: UserTweaks)
    ensures
        wp_run(alsa_lines(t), base, None) == (after_alsa(t, base), cur_after_alsa(t)),
{
    if has_alsa_rules(t) {
        reveal_strlit("monitor.alsa.rules = [");
        reveal_strlit("]");
        let o = opening("monitor.alsa.rules = ["@);
        lemma_run_opening(base, None, "monitor.alsa.rules = ["@);
        lemma_run_alsa_rules(t, base);
        lemma_run_concat(o, alsa_rule_lines(t), base, None);
        lemma_run_closing(after_alsa(t, base), cur_after_alsa(t), "]"@);
        lemma_run_concat(o + alsa_rule_lines(t), closing("]"@), base, None);
    } else {
        assert(after_alsa(t, base) == base);
    }
}

proof fn lemma_run_bluez_block(t: UserTweaks, base: UserTweaks, cur: Option<Section>)
    ensures
        wp_run(bluez_lines(t), base, cur) == (match t.bt_latency {
            Some(l) => (UserTweaks { bt_latency: Some(l), ..base }, Some(Section::Bluez)),
            None => (base, cur),
        }),
{
    match t.bt_latency {
        Some(l) => {
            let head = "monitor.bluez.rules = ["@;
            reveal_strlit("monitor.bluez.rules = [");
            reveal_strlit("]");
            lemma_no_hdy(head);
            lemma_run_opening(base, cur, head);
            let o = opening(head);
            let r = rule_lines("~bluez_input.*"@, "~bluez_output.*"@, "node.latency"@, latency_value(l));
            lemma_run_bluez(base, cur, l);
            lemma_run_concat(o, r, base, cur);
            lemma_run_closing(UserTweaks { bt_latency: Some(l), ..base }, Some(Section::Bluez), "]"@);
            lemma_run_concat(o + r, closing("]"@), base, cur);
        },
        None => {},
    }
}

proof fn lemma_run_props(t: UserTweaks, base: UserTweaks, cur: Option<Section>)
    ensures
        wp_run(props_lines(t), base, cur) == (UserTweaks {
            bt_sbc_xq: if t.bt_sbc_xq is Some {
                t.bt_sbc_xq
            } else {
                base.bt_sbc_xq
            },
            ..base
        }, cur),
{
    match t.bt_sbc_xq {
        Some(on) => {
            let head = "monitor.bluez.properties = {"@;
            reveal_strlit("monitor.bluez.properties = {");
            reveal_strlit("}");
            lemma_no_hdy(head);
            let o = opening(head);
            let a = "    bluez5.enable-sbc-xq = "@ + bool_word(on);
            lemma_run_opening(base, cur, head);
            lemma_run_push(o, a, base, cur);
            lemma_wp_sbc(base, cur, on);
            lemma_run_push(o.push(a), "}"@, base, cur);
            lemma_wp_plain(UserTweaks { bt_sbc_xq: Some(on), ..base }, cur, "}"@);
        },
        None => {},
    }
}

// ── The text of the drop-in, line by line ────────────────────────────

proof fn lemma_joined_push(ls: Seq<Seq<char>>, l: Seq<char>)
    ensures
        joined_lines(ls.push(l)) == joined_lines(ls) + l + seq!['\n'],
{
    assert(ls.push(l).drop_last() =~= ls);
}

proof fn lemma_joined_opening(l: Seq<char>)
    ensures
        joined_lines(opening(l)) == seq!['\n'] + l + seq!['\n'],
{
    reveal_strlit("");
    lemma_joined_push(Seq::empty(), ""@);
    lemma_joined_push(Seq::empty().push(""@), l);
    assert(joined_lines(Seq::<Seq<char>>::empty()) =~= Seq::<char>::empty());
    assert(joined_lines(opening(l)) =~= seq!['\n'] + l + seq!['\n']);
}

proof fn lemma_joined_closing(l: Seq<char>)
    ensures
        joined_lines(closing(l)) == l + seq!['\n'],
{
    lemma_joined_push(Seq::empty(), l);
    assert(joined_lines(Seq::<Seq<char>>::empty()) =~= Seq::<char>::empty());
    assert(joined_lines(closing(l)) =~= l + seq!['\n']);
}

proof fn lemma_joined_rule(input: Seq<char>, output: Seq<char>, key: Seq<char>, value: Seq<char>)
    ensures
        rule(input, output, key, value) == joined_lines(rule_lines(input, output, key, value)),
{
    reveal_strlit("  {\n    matches = [\n      { node.name = \"");
    reveal_strlit("\" }\n      { node.name = \"");
    reveal_strlit("\" }\n    ]\n    actions = { update-props = { ");
    reveal_strlit(" = ");
    reveal_strlit(" } }\n  }\n");
    reveal_strlit("  {");
    reveal_strlit("    matches = [");
    reveal_strlit("      { node.name = \"");
    reveal_strlit("\" }");
    reveal_strlit("    ]");
    reveal_strlit("    actions = { update-props = { ");
    reveal_strlit(" } }");
    reveal_strlit("  }");
    let nl = seq!['\n'];
    let s0 = Seq::<Seq<char>>::empty();
    let s1 = s0.push("  {"@);
    let s2 = s1.push("    matches = ["@);
    let s3 = s2.push(marker_line(input));
    let s4 = s3.push(marker_line(output));
    let s5 = s4.push("    ]"@);
    let s6 = s5.push(action_line(key, value));
    lemma_joined_push(s0, "  {"@);
    lemma_joined_push(s1, "    matches = ["@);
    lemma_joined_push(s2, marker_line(input));
    lemma_joined_push(s3, marker_line(output));
    lemma_joined_push(s4, "    ]"@);
    lemma_joined_push(s5, action_line(key, value));
    lemma_joined_push(s6, "  }"@);
    assert(joined_lines(s0) =~= Seq::<char>::empty());
    let a = "  {\n    matches = [\n      { node.name = \""@;
    let b = "\" }\n      { node.name = \""@;
    let c = "\" }\n    ]\n    actions = { update-props = { "@;
    let d = " } }\n  }\n"@;
    assert(a =~= "  {"@ + nl + "    matches = ["@ + nl + "      { node.name = \""@);
    assert(b =~= "\" }"@ + nl + "      { node.name = \""@);
    assert(c =~= "\" }"@ + nl + "    ]"@ + nl + "    actions = { update-props = { "@);
    assert(d =~= " } }"@ + nl + "  }"@ + nl);
    assert(rule(input, output, key, value) =~= joined_lines(rule_lines(input, output, key, value)));
}

proof fn lemma_joined_settings(t: UserTweaks)
    ensures
        settings_part(t) == joined_lines(settings_lines(t)),
{
    match t.bt_call_autoswitch {
        Some(on) => {
            reveal_strlit("\nwireplumber.settings = {\n    bluetooth.autoswitch-to-headset-profile = ");
            reveal_strlit("\n}\n");
            reveal_strlit("wireplumber.settings = {");
            reveal_strlit("    bluetooth.autoswitch-to-headset-profile = ");
            reveal_strlit("}");
            let o = opening("wireplumber.settings = {"@);
            let a = "    bluetooth.autoswitch-to-headset-profile = "@ + bool_word(on);
            lemma_joined_opening("wireplumber.settings = {"@);
            lemma_joined_push(o, a);
            lemma_joined_push(o.push(a), "}"@);
            assert(settings_part(t) =~= joined_lines(settings_lines(t)));
        },
        None => {
            assert(joined_lines(Seq::<Seq<char>>::empty()) =~= Seq::<char>::empty());
        },
    }
}

proof fn lemma_joined_alsa(t: UserTweaks)
    ensures
        alsa_part(t) == joined_lines(alsa_lines(t)),
{
    assert(joined_lines(Seq::<Seq<char>>::empty()) =~= Seq::<char>::empty());
    if has_alsa_rules(t) {
        reveal_strlit("\nmonitor.alsa.rules = [\n");
        reveal_strlit("]\n");
        reveal_strlit("monitor.alsa.rules = [");
        reveal_strlit("]");
        let u = match t.headroom_usb {
            Some(h) => rule_lines(
                "~alsa_input.usb-.*"@,
                "~alsa_output.usb-.*"@,
                "api.alsa.headroom"@,
                dec(h as nat),
            ),
            None => Seq::<Seq<char>>::empty(),
        };
        let p = match t.headroom_pci {
            Some(h) => rule_lines(
                "~alsa_input.pci-.*"@,
                "~alsa_output.pci-.*"@,
                "api.alsa.headroom"@,
                dec(h as nat),
            ),
            None => Seq::<Seq<char>>::empty(),
        };
        let n = if t.alsa_no_suspend == Some(true) {
            rule_lines(
                "~alsa_input.*"@,
                "~alsa_output.*"@,
                "session.suspend-timeout-seconds"@,
                "0"@,
            )
        } else {
            Seq::<Seq<char>>::empty()
        };
        match t.headroom_usb {
            Some(h) => lemma_joined_rule(
                "~alsa_input.usb-.*"@,
                "~alsa_output.usb-.*"@,
                "api.alsa.headroom"@,
                dec(h as nat),
            ),
            None => {},
        }
        match t.headroom_pci {
            Some(h) => lemma_joined_rule(
                "~alsa_input.pci-.*"@,
                "~alsa_output.pci-.*"@,
                "api.alsa.headroom"@,
                dec(h as nat),
            ),
            None => {},
        }
        if t.alsa_no_suspend == Some(true) {
            lemma_joined_rule(
                "~alsa_input.*"@,
                "~alsa_output.*"@,
                "session.suspend-timeout-seconds"@,
                "0"@,
            );
        }
        lemma_joined_concat(u, p);
        lemma_joined_concat(u + p, n);
        assert(alsa_rule_lines(t) == u + p + n);
        assert(alsa_rules(t) =~= joined_lines(alsa_rule_lines(t)));
        let o = opening("monitor.alsa.rules = ["@);
        lemma_joined_opening("monitor.alsa.rules = ["@);
        lemma_joined_closing("]"@);
        lemma_joined_concat(o, alsa_rule_lines(t));
        lemma_joined_concat(o + alsa_rule_lines(t), closing("]"@));
        assert(alsa_part(t) =~= joined_lines(alsa_lines(t)));
    }
}

proof fn lemma_joined_bluez(t: UserTweaks)
    ensures
        bluez_part(t) == joined_lines(bluez_lines(t)),
{
    assert(joined_lines(Seq::<Seq<char>>::empty()) =~= Seq::<char>::empty());
    match t.bt_latency {
        Some(l) => {
            reveal_strlit("\nmonitor.bluez.rules = [\n");
            reveal_strlit("]\n");
            reveal_strlit("monitor.bluez.rules = [");
            reveal_strlit("]");
            let o = opening("monitor.bluez.rules = ["@);
            let r = rule_lines("~bluez_input.*"@, "~bluez_output.*"@, "node.latency"@, latency_value(l));
            lemma_joined_rule("~bluez_input.*"@, "~bluez_output.*"@, "node.latency"@, latency_value(l));
            assert(bluez_rules(t) == joined_lines(r));
            lemma_joined_opening("monitor.bluez.rules = ["@);
            lemma_joined_closing("]"@);
            lemma_joined_concat(o, r);
            lemma_joined_concat(o + r, closing("]"@));
            assert(bluez_part(t) =~= joined_lines(bluez_lines(t)));
        },
        None => {},
    }
}

proof fn lemma_joined_props(t: UserTweaks)
    ensures
        bluez_props_part(t) == joined_lines(props_lines(t)),
{
    match t.bt_sbc_xq {
        Some(on) => {
            reveal_strlit("\nmonitor.bluez.properties = {\n    bluez5.enable-sbc-xq = ");
            reveal_strlit("\n}\n");
            reveal_strlit("monitor.bluez.properties = {");
            reveal_strlit("    bluez5.enable-sbc-xq = ");
            reveal_strlit("}");
            let o = opening("monitor.bluez.properties = {"@);
            let a = "    bluez5.enable-sbc-xq = "@ + bool_word(on);
            lemma_joined_opening("monitor.bluez.properties = {"@);
            lemma_joined_push(o, a);
            lemma_joined_push(o.push(a), "}"@);
            assert(bluez_props_part(t) =~= joined_lines(props_lines(t)));
        },
        None => {
            assert(joined_lines(Seq::<Seq<char>>::empty()) =~= Seq::<char>::empty());
        },
    }
}

/// Every line of the drop-in, in order.
spec fn all_lines(t: UserTweaks) -> Seq<Seq<char>> {
    header_lines() + settings_lines(t) + alsa_lines(t) + bluez_lines(t) + props_lines(t)
}

/// Whether the drop-in has anything to say.
spec fn has_body(t: UserTweaks) -> bool {
    has_alsa_rules(t) || t.bt_latency is Some || t.bt_sbc_xq is Some || t.bt_call_autoswitch is Some
}

proof fn lemma_joined_all(t: UserTweaks)
    requires
        has_body(t),
    ensures
        render_wireplumber_spec(t) == joined_lines(all_lines(t)),
{
    lemma_header();
    lemma_joined_settings(t);
    lemma_joined_alsa(t);
    lemma_joined_bluez(t);
    lemma_joined_props(t);
    let h = header_lines();
    let a = settings_lines(t);
    let b = alsa_lines(t);
    let c = bluez_lines(t);
    let d = props_lines(t);
    lemma_joined_concat(h, a);
    lemma_joined_concat(h + a, b);
    lemma_joined_concat(h + a + b, c);
    lemma_joined_concat(h + a + b + c, d);
}

// ── Every line reads back as written ─────────────────────────────────

/// A line with no newline and no carriage return at its end.
spec fn clean(l: Seq<char>) -> bool {
    !l.contains('\n') && strip_cr(l) == l
}

spec fn all_clean(ls: Seq<Seq<char>>) -> bool {
    forall|i: int| 0 <= i < ls.len() ==> clean(#[trigger] ls[i])
}

proof fn lemma_clean_push(ls: Seq<Seq<char>>, l: Seq<char>)
    requires
        all_clean(ls),
        clean(l),
    ensures
        all_clean(ls.push(l)),
{
    assert forall|i: int| 0 <= i < ls.push(l).len() implies clean(#[trigger] ls.push(l)[i]) by {
        if i < ls.len() {
            assert(ls.push(l)[i] == ls[i]);
        }
    }
}

proof fn lemma_clean_concat(a: Seq<Seq<char>>, b: Seq<Seq<char>>)
    requires
        all_clean(a),
        all_clean(b),
    ensures
        all_clean(a + b),
{
    assert forall|i: int| 0 <= i < (a + b).len() implies clean(#[trigger] (a + b)[i]) by {
        if i < a.len() {
            assert((a + b)[i] == a[i]);
        } else {
            assert((a + b)[i] == b[i - a.len()]);
        }
    }
}

proof fn lemma_clean3(a: Seq<char>, b: Seq<char>, c: Seq<char>)
    requires
        !a.contains('\n'),
        !b.contains('\n'),
        !c.contains('\n'),
        c.len() > 0,
        c.last() != '\r',
    ensures
        clean(a + b + c),
{
    lemma_lacks3(a, b, c, '\n');
    assert((a + b + c).last() == c.last());
}

proof fn lemma_clean_lit(l: Seq<char>)
    requires
        !l.contains('\n'),
        l.len() > 0,
        l.last() != '\r',
    ensures
        clean(l),
{
}

proof fn lemma_clean_rule(input: Seq<char>, output: Seq<char>, key: Seq<char>, value: Seq<char>)
    requires
        !input.contains('\n'),
        !output.contains('\n'),
        !key.contains('\n'),
        !value.contains('\n'),
    ensures
        all_clean(rule_lines(input, output, key, value)),
{
    reveal_strlit("  {");
    reveal_strlit("    matches = [");
    reveal_strlit("      { node.name = \"");
    reveal_strlit("\" }");
    reveal_strlit("    ]");
    reveal_strlit("    actions = { update-props = { ");
    reveal_strlit(" = ");
    reveal_strlit(" } }");
    reveal_strlit("  }");
    let s0 = Seq::<Seq<char>>::empty();
    let s1 = s0.push("  {"@);
    let s2 = s1.push("    matches = ["@);
    let s3 = s2.push(marker_line(input));
    let s4 = s3.push(marker_line(output));
    let s5 = s4.push("    ]"@);
    let s6 = s5.push(action_line(key, value));
    lemma_clean_lit("  {"@);
    lemma_clean_push(s0, "  {"@);
    lemma_clean_lit("    matches = ["@);
    lemma_clean_push(s1, "    matches = ["@);
    lemma_clean3("      { node.name = \""@, input, "\" }"@);
    lemma_clean_push(s2, marker_line(input));
    lemma_clean3("      { node.name = \""@, output, "\" }"@);
    lemma_clean_push(s3, marker_line(output));
    lemma_clean_lit("    ]"@);
    lemma_clean_push(s4, "    ]"@);
    lemma_lacks3("    actions = { update-props = { "@, key, " = "@, '\n');
    lemma_clean3("    actions = { update-props = { "@ + key + " = "@, value, " } }"@);
    lemma_clean_push(s5, action_line(key, value));
    lemma_clean_lit("  }"@);
    lemma_clean_push(s6, "  }"@);
}

proof fn lemma_clean_opening(l: Seq<char>)
    requires
        clean(l),
    ensures
        all_clean(opening(l)),
{
    reveal_strlit("");
    assert(clean(""@));
    lemma_clean_push(Seq::empty(), ""@);
    lemma_clean_push(Seq::empty().push(""@), l);
}

proof fn lemma_clean_closing(l: Seq<char>)
    requires
        clean(l),
    ensures
        all_clean(closing(l)),
{
    lemma_clean_push(Seq::empty(), l);
}

proof fn lemma_clean_all(t: UserTweaks)
    ensures
        all_clean(all_lines(t)),
{
    reveal_strlit("true");
    reveal_strlit("false");
    reveal_strlit("}");
    reveal_strlit("]");
    assert(!bool_word(true).contains('\n'));
    assert(!bool_word(false).contains('\n'));
    lemma_header();
    assert(all_clean(header_lines()));
    // settings
    match t.bt_call_autoswitch {
        Some(on) => {
            reveal_strlit("wireplumber.settings = {");
            reveal_strlit("    bluetooth.autoswitch-to-headset-profile = ");
            let o = opening("wireplumber.settings = {"@);
            let a = "    bluetooth.autoswitch-to-headset-profile = "@ + bool_word(on);
            lemma_clean_lit("wireplumber.settings = {"@);
            lemma_clean_opening("wireplumber.settings = {"@);
            lemma_clean3(
                "    bluetooth.autoswitch-to-headset-profile = "@,
                Seq::<char>::empty(),
                bool_word(on),
            );
            assert(a =~= "    bluetooth.autoswitch-to-headset-profile = "@ + Seq::<char>::empty()
                + bool_word(on));
            lemma_clean_push(o, a);
            lemma_clean_lit("}"@);
            lemma_clean_push(o.push(a), "}"@);
        },
        None => {},
    }
    // ALSA
    if has_alsa_rules(t) {
        reveal_strlit("monitor.alsa.rules = [");
        reveal_strlit("~alsa_input.usb-.*");
        reveal_strlit("~alsa_output.usb-.*");
        reveal_strlit("~alsa_input.pci-.*");
        reveal_strlit("~alsa_output.pci-.*");
        reveal_strlit("~alsa_input.*");
        reveal_strlit("~alsa_output.*");
        reveal_strlit("api.alsa.headroom");
        reveal_strlit("session.suspend-timeout-seconds");
        reveal_strlit("0");
        lemma_clean_lit("monitor.alsa.rules = ["@);
        lemma_clean_opening("monitor.alsa.rules = ["@);
        lemma_clean_lit("]"@);
        lemma_clean_closing("]"@);
        let u = match t.headroom_usb {
            Some(h) => rule_lines(
                "~alsa_input.usb-.*"@,
                "~alsa_output.usb-.*"@,
                "api.alsa.headroom"@,
                dec(h as nat),
            ),
            None => Seq::<Seq<char>>::empty(),
        };
        let p = match t.headroom_pci {
            Some(h) => rule_lines(
                "~alsa_input.pci-.*"@,
                "~alsa_output.pci-.*"@,
                "api.alsa.headroom"@,
                dec(h as nat),
            ),
            None => Seq::<Seq<char>>::empty(),
        };
        let n = if t.alsa_no_suspend == Some(true) {
            rule_lines(
                "~alsa_input.*"@,
                "~alsa_output.*"@,
                "session.suspend-timeout-seconds"@,
                "0"@,
            )
        } else {
            Seq::<Seq<char>>::empty()
        };
        match t.headroom_usb {
            Some(h) => {
                lemma_dec_lacks(h as nat, '\n');
                lemma_clean_rule(
                    "~alsa_input.usb-.*"@,
                    "~alsa_output.usb-.*"@,
                    "api.alsa.headroom"@,
                    dec(h as nat),
                );
            },
            None => {},
        }
        match t.headroom_pci {
            Some(h) => {
                lemma_dec_lacks(h as nat, '\n');
                lemma_clean_rule(
                    "~alsa_input.pci-.*"@,
                    "~alsa_output.pci-.*"@,
                    "api.alsa.headroom"@,
                    dec(h as nat),
                );
            },
            None => {},
        }
        if t.alsa_no_suspend == Some(true) {
            lemma_clean_rule(
                "~alsa_input.*"@,
                "~alsa_output.*"@,
                "session.suspend-timeout-seconds"@,
                "0"@,
            );
        }
        lemma_clean_concat(u, p);
        lemma_clean_concat(u + p, n);
        assert(alsa_rule_lines(t) == u + p + n);
        lemma_clean_concat(opening("monitor.alsa.rules = ["@), alsa_rule_lines(t));
        lemma_clean_concat(opening("monitor.alsa.rules = ["@) + alsa_rule_lines(t), closing("]"@));
    }
    // Bluetooth rules
    match t.bt_latency {
        Some(l) => {
            reveal_strlit("monitor.bluez.rules = [");
            reveal_strlit("~bluez_input.*");
            reveal_strlit("~bluez_output.*");
            reveal_strlit("node.latency");
            reveal_strlit("\"");
            reveal_strlit("/48000\"");
            lemma_dec_lacks(l as nat, '\n');
            lemma_lacks3("\""@, dec(l as nat), "/48000\""@, '\n');
            lemma_clean_lit("monitor.bluez.rules = ["@);
            lemma_clean_opening("monitor.bluez.rules = ["@);
            lemma_clean_lit("]"@);
            lemma_clean_closing("]"@);
            let r = rule_lines("~bluez_input.*"@, "~bluez_output.*"@, "node.latency"@, latency_value(l));
            lemma_clean_rule("~bluez_input.*"@, "~bluez_output.*"@, "node.latency"@, latency_value(l));
            lemma_clean_concat(opening("monitor.bluez.rules = ["@), r);
            lemma_clean_concat(opening("monitor.bluez.rules = ["@) + r, closing("]"@));
        },
        None => {},
    }
    // BlueZ properties
    match t.bt_sbc_xq {
        Some(on) => {
            reveal_strlit("monitor.bluez.properties = {");
            reveal_strlit("    bluez5.enable-sbc-xq = ");
            let o = opening("monitor.bluez.properties = {"@);
            let a = "    bluez5.enable-sbc-xq = "@ + bool_word(on);
            lemma_clean_lit("monitor.bluez.properties = {"@);
            lemma_clean_opening("monitor.bluez.properties = {"@);
            lemma_clean3("    bluez5.enable-sbc-xq = "@, Seq::<char>::empty(), bool_word(on));
            assert(a =~= "    bluez5.enable-sbc-xq = "@ + Seq::<char>::empty() + bool_word(on));
            lemma_clean_push(o, a);
            lemma_clean_lit("}"@);
            lemma_clean_push(o.push(a), "}"@);
        },
        None => {},
    }
    assert(all_clean(Seq::<Seq<char>>::empty()));
    let h = header_lines();
    lemma_clean_concat(h, settings_lines(t));
    lemma_clean_concat(h + settings_lines(t), alsa_lines(t));
    lemma_clean_concat(h + settings_lines(t) + alsa_lines(t), bluez_lines(t));
    lemma_clean_concat(h + settings_lines(t) + alsa_lines(t) + bluez_lines(t), props_lines(t));
}

proof fn lemma_render_lines(t: UserTweaks)
    requires
        has_body(t),
    ensures
        lines(render_wireplumber_spec(t)) == all_lines(t),
{
    lemma_joined_all(t);
    lemma_clean_all(t);
    let all = all_lines(t);
    assert forall|i: int| 0 <= i < all.len() implies !(#[trigger] all[i]).contains('\n') by {
        assert(clean(all[i]));
    }
    lemma_lines_joined(all);
    let m = all.map_values(|l: Seq<char>| strip_cr(l));
    assert forall|i: int| 0 <= i < all.len() implies #[trigger] m[i] == all[i] by {
        assert(clean(all[i]));
    }
    assert(m =~= all);
}

/// Reading a rendered WirePlumber drop-in over `base` sets exactly the
/// headrooms, the Bluetooth latency, the SBC-XQ hint and the call
/// autoswitch that the tweaks carry, turns suspension off when they ask
/// for it, and leaves everything else as it was.
pub proof fn wireplumber_drop_in_reads_back(t: UserTweaks, base: UserTweaks)
    ensures
        parse_wireplumber_spec(render_wireplumber_spec(t), base) == (UserTweaks {
            headroom_usb: if t.headroom_usb is Some {
                t.headroom_usb
            } else {
                base.headroom_usb
            },
            headroom_pci: if t.headroom_pci is Some {
                t.headroom_pci
            } else {
                base.headroom_pci
            },
            bt_latency: if t.bt_latency is Some {
                t.bt_latency
            } else {
                base.bt_latency
            },
            bt_sbc_xq: if t.bt_sbc_xq is Some {
                t.bt_sbc_xq
            } else {
                base.bt_sbc_xq
            },
            bt_call_autoswitch: if t.bt_call_autoswitch is Some {
                t.bt_call_autoswitch
            } else {
                base.bt_call_autoswitch
            },
            alsa_no_suspend: if t.alsa_no_suspend == Some(true) {
                Some(true)
            } else {
                base.alsa_no_suspend
            },
            ..base
        }),
{
    if !has_body(t) {
        assert(lines(Seq::<char>::empty()) =~= Seq::<Seq<char>>::empty());
        return;
    }
    lemma_render_lines(t);
    let h = header_lines();
    let a = settings_lines(t);
    let b = alsa_lines(t);
    let c = bluez_lines(t);
    let d = props_lines(t);
    lemma_fold_is_run(all_lines(t), base);
    lemma_run_concat(h + a + b + c, d, base, None);
    lemma_run_concat(h + a + b, c, base, None);
    lemma_run_concat(h + a, b, base, None);
    lemma_run_concat(h, a, base, None);
    lemma_run_header(base);
    lemma_run_settings(t, base);
    let ts = wp_run(a, base, None).0;
    lemma_run_alsa(t, ts);
    let ta = after_alsa(t, ts);
    let ca = cur_after_alsa(t);
    lemma_run_bluez_block(t, ta, ca);
    let (tb, cb) = wp_run(c, ta, ca);
    lemma_run_props(t, tb, cb);
}

/// Rendering tweaks and reading the WirePlumber drop-in back from the
/// defaults gives every WirePlumber tweak back; suspension comes back off
/// only when it was asked to be off, since only that is written.
pub proof fn a_wireplumber_drop_in_round_trips(t: UserTweaks)
    ensures
        parse_wireplumber_spec(render_wireplumber_spec(t), no_tweaks()).headroom_usb
            == t.headroom_usb,
        parse_wireplumber_spec(render_wireplumber_spec(t), no_tweaks()).headroom_pci
            == t.headroom_pci,
        parse_wireplumber_spec(render_wireplumber_spec(t), no_tweaks()).bt_latency == t.bt_latency,
        parse_wireplumber_spec(render_wireplumber_spec(t), no_tweaks()).bt_sbc_xq == t.bt_sbc_xq,
        parse_wireplumber_spec(render_wireplumber_spec(t), no_tweaks()).bt_call_autoswitch
            == t.bt_call_autoswitch,
        parse_wireplumber_spec(render_wireplumber_spec(t), no_tweaks()).alsa_no_suspend == (if t.alsa_no_suspend
            == Some(true) {
            Some(true)
        } else {
            None
        }),
{
    wireplumber_drop_in_reads_back(t, no_tweaks());
}


// ── Where the block names can occur ──────────────────────────────────

/// A text with exactly two characters `p[j]`, neither followed as in `p`,
/// does not contain `p`.
proof fn lemma_absent_two(x: Seq<char>, y: Seq<char>, w: Seq<char>, p: Seq<char>, j: int)
    requires
        0 <= j,
        j + 2 < p.len(),
        !x.contains(p[j]),
        !y.contains(p[j]),
        !w.contains(p[j]),
        y.len() > 1,
        y[1] != p[j + 2],
        w.len() > 0,
        w[0] != p[j + 1],
    ensures
        !contains(x + seq![p[j]] + y + seq![p[j]] + w, p),
{
    let s = x + seq![p[j]] + y + seq![p[j]] + w;
    lemma_find_from(s, p, 0);
    if find(s, p) is Some {
        let k = find(s, p)->0;
        assert(s.subrange(k, k + p.len())[j] == p[j]);
        assert(s.subrange(k, k + p.len())[j + 1] == p[j + 1]);
        assert(s.subrange(k, k + p.len())[j + 2] == p[j + 2]);
        let i = k + j;
        assert(s[i] == p[j]);
        let a = x.len() as int;
        let b = a + 1 + y.len();
        if i < a {
            assert(x[i] == p[j]);
        } else if i == a {
            assert(s[i + 2] == y[1]);
        } else if i < b {
            assert(y[i - a - 1] == p[j]);
        } else if i == b {
            assert(s[i + 1] == w[0]);
        } else {
            assert(w[i - b - 1] == p[j]);
        }
    }
}

/// A rule lacks a character that its input, output, key and value lack
/// and that is none of the rule's own letters.
proof fn lemma_rule_lacks(input: Seq<char>, output: Seq<char>, key: Seq<char>, value: Seq<char>, c: char)
    requires
        c == 'z' || c == 'w',
        !input.contains(c),
        !output.contains(c),
        !key.contains(c),
        !value.contains(c),
    ensures
        !rule(input, output, key, value).contains(c),
{
    reveal_strlit("  {\n    matches = [\n      { node.name = \"");
    reveal_strlit("\" }\n      { node.name = \"");
    reveal_strlit("\" }\n    ]\n    actions = { update-props = { ");
    reveal_strlit(" = ");
    reveal_strlit(" } }\n  }\n");
    let l1 = "  {\n    matches = [\n      { node.name = \""@;
    let l2 = "\" }\n      { node.name = \""@;
    let l3 = "\" }\n    ]\n    actions = { update-props = { "@;
    let l4 = " = "@;
    let l5 = " } }\n  }\n"@;
    lemma_lacks3(l1, input, l2, c);
    lemma_lacks3(l1 + input + l2, output, l3, c);
    lemma_lacks3(l1 + input + l2 + output + l3, key, l4, c);
    lemma_lacks3(l1 + input + l2 + output + l3 + key + l4, value, l5, c);
}

proof fn lemma_alsa_part_lacks(t: UserTweaks, c: char)
    requires
        c == 'z' || c == 'w',
    ensures
        !alsa_part(t).contains(c),
{
    reveal_strlit("~alsa_input.usb-.*");
    reveal_strlit("~alsa_output.usb-.*");
    reveal_strlit("~alsa_input.pci-.*");
    reveal_strlit("~alsa_output.pci-.*");
    reveal_strlit("~alsa_input.*");
    reveal_strlit("~alsa_output.*");
    reveal_strlit("api.alsa.headroom");
    reveal_strlit("session.suspend-timeout-seconds");
    reveal_strlit("0");
    reveal_strlit("\nmonitor.alsa.rules = [\n");
    reveal_strlit("]\n");
    let usb = match t.headroom_usb {
        Some(h) => rule("~alsa_input.usb-.*"@, "~alsa_output.usb-.*"@, "api.alsa.headroom"@, dec(h as nat)),
        None => seq![],
    };
    let pci = match t.headroom_pci {
        Some(h) => rule("~alsa_input.pci-.*"@, "~alsa_output.pci-.*"@, "api.alsa.headroom"@, dec(h as nat)),
        None => seq![],
    };
    let ns = if t.alsa_no_suspend == Some(true) {
        rule("~alsa_input.*"@, "~alsa_output.*"@, "session.suspend-timeout-seconds"@, "0"@)
    } else {
        seq![]
    };
    match t.headroom_usb {
        Some(h) => {
            lemma_dec_lacks(h as nat, c);
            lemma_rule_lacks("~alsa_input.usb-.*"@, "~alsa_output.usb-.*"@, "api.alsa.headroom"@, dec(h as nat), c);
        },
        None => {},
    }
    match t.headroom_pci {
        Some(h) => {
            lemma_dec_lacks(h as nat, c);
            lemma_rule_lacks("~alsa_input.pci-.*"@, "~alsa_output.pci-.*"@, "api.alsa.headroom"@, dec(h as nat), c);
        },
        None => {},
    }
    if t.alsa_no_suspend == Some(true) {
        lemma_rule_lacks("~alsa_input.*"@, "~alsa_output.*"@, "session.suspend-timeout-seconds"@, "0"@, c);
    }
    assert(alsa_rules(t) == usb + pci + ns);
    lemma_lacks3(usb, pci, ns, c);
    if has_alsa_rules(t) {
        lemma_lacks3("\nmonitor.alsa.rules = [\n"@, alsa_rules(t), "]\n"@, c);
    }
}

proof fn lemma_bool_lacks(on: bool, c: char)
    requires
        c == 'z' || c == 'w',
    ensures
        !bool_word(on).contains(c),
{
    reveal_strlit("true");
    reveal_strlit("false");
}

/// Without a Bluetooth latency, the drop-in does not name the Bluetooth
/// rules block.
proof fn lemma_no_bluez_rules(t: UserTweaks)
    requires
        t.bt_latency is None,
    ensures
        !contains(render_wireplumber_spec(t), "monitor.bluez.rules"@),
{
    let p = "monitor.bluez.rules"@;
    reveal_strlit("monitor.bluez.rules");
    let out = render_wireplumber_spec(t);
    if out.len() == 0 {
        lemma_find_from(out, p, 0);
        return;
    }
    lemma_header();
    reveal_strlit("# Generated by biglinux-microphone Tuning tab.");
    reveal_strlit("# Edit via the GUI \u{2014} manual edits are preserved when possible but the");
    reveal_strlit("# UI is authoritative on next Apply.");
    reveal_strlit("\nwireplumber.settings = {\n    bluetooth.autoswitch-to-headset-profile = ");
    reveal_strlit("\n}\n");
    reveal_strlit("\nmonitor.bluez.properties = {\n    bluez5.enable-sbc-xq = ");
    let hl = header_lines();
    assert(joined_lines(hl) =~= hl[0] + seq!['\n'] + hl[1] + seq!['\n'] + hl[2] + seq!['\n']) by {
        reveal_with_fuel(joined_lines, 4);
        assert(hl.drop_last().drop_last().drop_last() =~= Seq::<Seq<char>>::empty());
    }
    assert(!HEADER@.contains('z'));
    let st = settings_part(t);
    match t.bt_call_autoswitch {
        Some(on) => {
            lemma_bool_lacks(on, 'z');
            lemma_lacks3(
                "\nwireplumber.settings = {\n    bluetooth.autoswitch-to-headset-profile = "@,
                bool_word(on),
                "\n}\n"@,
                'z',
            );
        },
        None => {},
    }
    lemma_alsa_part_lacks(t, 'z');
    assert(bluez_part(t) =~= Seq::<char>::empty());
    let lead = HEADER@ + st + alsa_part(t);
    lemma_lacks3(HEADER@, st, alsa_part(t), 'z');
    match t.bt_sbc_xq {
        Some(on) => {
            let l1 = "\nmonitor.bluez.properties = {\n    bluez5.enable-sbc-xq = "@;
            assert(l1[13] == 'z' && l1[38] == 'z');
            let x = lead + l1.subrange(0, 13);
            let y = l1.subrange(14, 38);
            let w = l1.subrange(39, l1.len() as int) + bool_word(on) + "\n}\n"@;
            assert(!l1.subrange(0, 13).contains('z'));
            assert(!y.contains('z'));
            assert(!l1.subrange(39, l1.len() as int).contains('z'));
            lemma_lacks(lead, l1.subrange(0, 13), 'z');
            lemma_bool_lacks(on, 'z');
            lemma_lacks3(l1.subrange(39, l1.len() as int), bool_word(on), "\n}\n"@, 'z');
            assert(y[1] == 'p');
            assert(w[0] == '5');
            assert(out =~= x + seq![p[12]] + y + seq![p[12]] + w);
            lemma_absent_two(x, y, w, p, 12);
        },
        None => {
            assert(out =~= lead);
            assert(p[12] == 'z');
            lemma_absent(lead, p, 'z');
        },
    }
}

/// Without the call autoswitch, the drop-in does not name the settings
/// block.
proof fn lemma_no_settings_block(t: UserTweaks)
    requires
        t.bt_call_autoswitch is None,
    ensures
        !contains(render_wireplumber_spec(t), "wireplumber.settings"@),
{
    let p = "wireplumber.settings"@;
    reveal_strlit("wireplumber.settings");
    let out = render_wireplumber_spec(t);
    if out.len() == 0 {
        lemma_find_from(out, p, 0);
        return;
    }
    lemma_header();
    reveal_strlit("# Generated by biglinux-microphone Tuning tab.");
    reveal_strlit("# Edit via the GUI \u{2014} manual edits are preserved when possible but the");
    reveal_strlit("# UI is authoritative on next Apply.");
    reveal_strlit("\n}\n");
    reveal_strlit("\nmonitor.bluez.properties = {\n    bluez5.enable-sbc-xq = ");
    reveal_strlit("\nmonitor.bluez.rules = [\n");
    reveal_strlit("]\n");
    reveal_strlit("~bluez_input.*");
    reveal_strlit("~bluez_output.*");
    reveal_strlit("node.latency");
    reveal_strlit("\"");
    reveal_strlit("/48000\"");
    let hl = header_lines();
    assert(joined_lines(hl) =~= hl[0] + seq!['\n'] + hl[1] + seq!['\n'] + hl[2] + seq!['\n']) by {
        reveal_with_fuel(joined_lines, 4);
        assert(hl.drop_last().drop_last().drop_last() =~= Seq::<Seq<char>>::empty());
    }
    let line = hl[1];
    let at = 48int;
    assert(line[at] == 'w' && line[at + 1] == 'h');
    let x = hl[0] + seq!['\n'] + line.subrange(0, at + 1);
    assert(!hl[0].contains('w'));
    assert(!line.subrange(0, at).contains('w'));
    assert(!line.subrange(at + 1, line.len() as int).contains('w'));
    assert(!hl[2].contains('w'));
    assert(!x.drop_last().contains('w')) by {
        assert(x.drop_last() =~= hl[0] + seq!['\n'] + line.subrange(0, at));
        lemma_lacks3(hl[0], seq!['\n'], line.subrange(0, at), 'w');
    }
    lemma_alsa_part_lacks(t, 'w');
    let b = bluez_part(t);
    match t.bt_latency {
        Some(l) => {
            lemma_dec_lacks(l as nat, 'w');
            lemma_lacks3("\""@, dec(l as nat), "/48000\""@, 'w');
            lemma_rule_lacks(
                "~bluez_input.*"@,
                "~bluez_output.*"@,
                "node.latency"@,
                "\""@ + dec(l as nat) + "/48000\""@,
                'w',
            );
            lemma_lacks3("\nmonitor.bluez.rules = [\n"@, bluez_rules(t), "]\n"@, 'w');
        },
        None => {},
    }
    let pp = bluez_props_part(t);
    match t.bt_sbc_xq {
        Some(on) => {
            lemma_bool_lacks(on, 'w');
            lemma_lacks3(
                "\nmonitor.bluez.properties = {\n    bluez5.enable-sbc-xq = "@,
                bool_word(on),
                "\n}\n"@,
                'w',
            );
        },
        None => {},
    }
    let y = line.subrange(at + 1, line.len() as int) + seq!['\n'] + hl[2] + seq!['\n'];
    lemma_lacks3(line.subrange(at + 1, line.len() as int), seq!['\n'], hl[2], 'w');
    lemma_lacks(line.subrange(at + 1, line.len() as int) + seq!['\n'] + hl[2], seq!['\n'], 'w');
    let rest = y + alsa_part(t) + b + pp;
    lemma_lacks3(y, alsa_part(t), b, 'w');
    lemma_lacks(y + alsa_part(t) + b, pp, 'w');
    assert(settings_part(t) =~= Seq::<char>::empty());
    assert(line =~= line.subrange(0, at + 1) + line.subrange(at + 1, line.len() as int));
    assert(out =~= x + rest);
    assert(rest[0] == 'h');
    lemma_absent_pair(x, rest, p, 0);
}

/// Each block is present exactly when something it carries is set, and
/// opens with its own name.
proof fn lemma_blocks(t: UserTweaks)
    ensures
        (settings_part(t).len() > 0) == (t.bt_call_autoswitch is Some),
        t.bt_call_autoswitch is Some ==> settings_part(t).take(24) == "\nwireplumber.settings = "@,
        (alsa_part(t).len() > 0) == has_alsa_rules(t),
        has_alsa_rules(t) ==> alsa_part(t).take(22) == "\nmonitor.alsa.rules = "@,
        (bluez_part(t).len() > 0) == (t.bt_latency is Some),
        t.bt_latency is Some ==> bluez_part(t).take(23) == "\nmonitor.bluez.rules = "@,
        (bluez_props_part(t).len() > 0) == (t.bt_sbc_xq is Some),
        t.bt_sbc_xq is Some ==> bluez_props_part(t).take(28) == "\nmonitor.bluez.properties = "@,
{
    reveal_strlit("\nwireplumber.settings = {\n    bluetooth.autoswitch-to-headset-profile = ");
    reveal_strlit("\nwireplumber.settings = ");
    reveal_strlit("\nmonitor.alsa.rules = [\n");
    reveal_strlit("\nmonitor.alsa.rules = ");
    reveal_strlit("\nmonitor.bluez.rules = [\n");
    reveal_strlit("\nmonitor.bluez.rules = ");
    reveal_strlit("\nmonitor.bluez.properties = {\n    bluez5.enable-sbc-xq = ");
    reveal_strlit("\nmonitor.bluez.properties = ");
    reveal_strlit("\n}\n");
    reveal_strlit("]\n");
    if t.bt_call_autoswitch is Some {
        assert(settings_part(t).take(24) =~= "\nwireplumber.settings = "@);
    }
    if has_alsa_rules(t) {
        assert(alsa_part(t).take(22) =~= "\nmonitor.alsa.rules = "@);
    }
    if t.bt_latency is Some {
        assert(bluez_part(t).take(23) =~= "\nmonitor.bluez.rules = "@);
    }
    if t.bt_sbc_xq is Some {
        assert(bluez_props_part(t).take(28) =~= "\nmonitor.bluez.properties = "@);
    }
}

/// With a Bluetooth latency the drop-in names the Bluetooth rules block,
/// and with the call autoswitch the settings block.
proof fn lemma_names_present(t: UserTweaks)
    ensures
        t.bt_latency is Some ==> contains(render_wireplumber_spec(t), "monitor.bluez.rules"@),
        t.bt_call_autoswitch is Some ==> contains(render_wireplumber_spec(t), "wireplumber.settings"@),
{
    reveal_strlit("\nmonitor.bluez.rules = [\n");
    reveal_strlit("\nwireplumber.settings = {\n    bluetooth.autoswitch-to-headset-profile = ");
    reveal_strlit("monitor.bluez.rules");
    reveal_strlit("wireplumber.settings");
    let out = render_wireplumber_spec(t);
    let s = settings_part(t);
    let a = alsa_part(t);
    let b = bluez_part(t);
    let p = bluez_props_part(t);
    if t.bt_latency is Some {
        let k: int = (HEADER@ + s + a).len() as int + 1;
        assert(out == (HEADER@ + s + a) + b + p);
        assert(out.subrange(k, k + 19) =~= "monitor.bluez.rules"@);
        assert(occurs_at(out, "monitor.bluez.rules"@, k));
        lemma_contains(out, "monitor.bluez.rules"@);
    }
    if t.bt_call_autoswitch is Some {
        let k: int = HEADER@.len() as int + 1;
        assert(out == HEADER@ + s + (a + b + p));
        assert(out.subrange(k, k + 20) =~= "wireplumber.settings"@);
        assert(occurs_at(out, "wireplumber.settings"@, k));
        lemma_contains(out, "wireplumber.settings"@);
    }
}

/// The WirePlumber drop-in is made of its blocks: it is empty exactly when
/// nothing it carries is set; otherwise it is the header followed by the
/// `wireplumber.settings`, `monitor.alsa.rules`, `monitor.bluez.rules` and
/// `monitor.bluez.properties` blocks, each present exactly when something
/// it carries is set and opening with its own name. The quantum and the
/// sample rates never reach it; it names the Bluetooth rules exactly when a
/// Bluetooth latency is set, and the settings block exactly when the call
/// autoswitch is set.
pub proof fn the_wireplumber_drop_in_is_made_of_its_blocks(
    t: UserTweaks,
    quantum: Option<u32>,
    rates: Option<SampleRates>,
)
    ensures
        ({
            let out = render_wireplumber_spec(t);
            &&& render_wireplumber_spec(UserTweaks { quantum, sample_rates: rates, ..t }) == out
            &&& (out.len() == 0) == (t.headroom_usb is None && t.headroom_pci is None
                && t.bt_latency is None && t.bt_sbc_xq is None && t.bt_call_autoswitch is None
                && t.alsa_no_suspend != Some(true))
            &&& out.len() > 0 ==> out == HEADER@ + settings_part(t) + alsa_part(t) + bluez_part(t)
                + bluez_props_part(t)
            &&& out.len() > 0 ==> out.take(HEADER@.len() as int) == HEADER@
            &&& (settings_part(t).len() > 0) == (t.bt_call_autoswitch is Some)
            &&& t.bt_call_autoswitch is Some ==> settings_part(t).take(24)
                == "\nwireplumber.settings = "@
            &&& (alsa_part(t).len() > 0) == has_alsa_rules(t)
            &&& has_alsa_rules(t) ==> alsa_part(t).take(22) == "\nmonitor.alsa.rules = "@
            &&& (bluez_part(t).len() > 0) == (t.bt_latency is Some)
            &&& t.bt_latency is Some ==> bluez_part(t).take(23) == "\nmonitor.bluez.rules = "@
            &&& (bluez_props_part(t).len() > 0) == (t.bt_sbc_xq is Some)
            &&& t.bt_sbc_xq is Some ==> bluez_props_part(t).take(28)
                == "\nmonitor.bluez.properties = "@
            &&& contains(out, "monitor.bluez.rules"@) == (t.bt_latency is Some)
            &&& contains(out, "wireplumber.settings"@) == (t.bt_call_autoswitch is Some)
        }),
{
    let out = render_wireplumber_spec(t);
    assert(render_wireplumber_spec(UserTweaks { quantum, sample_rates: rates, ..t }) == out);
    lemma_blocks(t);
    if out.len() > 0 {
        lemma_header();
        let rest = settings_part(t) + alsa_part(t) + bluez_part(t) + bluez_props_part(t);
        assert(out =~= HEADER@ + rest);
        assert(out.take(HEADER@.len() as int) =~= HEADER@);
    }
    lemma_names_present(t);
    if t.bt_latency is None {
        lemma_no_bluez_rules(t);
    }
    if t.bt_call_autoswitch is None {
        lemma_no_settings_block(t);
    }
}

} // verus!
