//! Reading a rendered PipeWire drop-in back gives the tweaks it was
//! rendered from.
use vstd::prelude::*;

use super::{
    join_dec, lines_text, no_tweaks, parse_pipewire_spec, parsed_numbers, pipewire_fold,
    pipewire_line, pipewire_props, rate_family, rates_of, render_pipewire_spec, strip_kv_spec,
    bracketed, SampleRates, UserTweaks, HEADER,
};
use crate::text::{
    dec, is_ws, lemma_ws_back_bounds, lemma_ws_fwd_bounds, lines, parse_u32, starts_with,
    strip_cr, strip_prefix, strip_suffix, trim, trim_end, trim_start, words, ws_back, ws_fwd,
};
use crate::text_laws::{
    joined_lines, lemma_dec_digits, lemma_lines_joined, lemma_parse_dec, lemma_words_concat,
    lemma_words_single,
};

verus! {

proof fn lemma_ws_fwd_skips(s: Seq<char>, i: int, e: int)
    requires
        0 <= i <= e <= s.len(),
        forall|k: int| i <= k < e ==> is_ws(#[trigger] s[k]),
        e < s.len() ==> !is_ws(s[e]),
    ensures
        ws_fwd(s, i) == e,
    decreases e - i,
{
    if i < e {
        lemma_ws_fwd_skips(s, i + 1, e);
    }
}

/// Whitespace before a body that starts and ends with something else
/// trims away.
pub(crate) proof fn lemma_trim_padded(pad: Seq<char>, body: Seq<char>)
    requires
        forall|k: int| 0 <= k < pad.len() ==> is_ws(#[trigger] pad[k]),
        body.len() > 0,
        !is_ws(body[0]),
        !is_ws(body.last()),
    ensures
        trim_start(pad + body) == body,
        trim(pad + body) == body,
{
    let s = pad + body;
    assert forall|k: int| 0 <= k < pad.len() implies is_ws(#[trigger] s[k]) by {
        assert(s[k] == pad[k]);
    }
    assert(s[pad.len() as int] == body[0]);
    lemma_ws_fwd_skips(s, 0, pad.len() as int);
    assert(trim_start(s) =~= body);
    assert(ws_back(body, body.len() as int) == body.len());
    assert(trim_end(body) =~= body);
}

/// A line whose trimmed text does not start with `d` names no key of the
/// PipeWire drop-in.
proof fn lemma_inert_line(t: UserTweaks, l: Seq<char>)
    requires
        trim(l).len() == 0 || trim(l)[0] != 'd',
    ensures
        pipewire_line(t, l) == t,
{
    let line = trim(l);
    reveal_strlit("default.clock.quantum");
    reveal_strlit("default.clock.allowed-rates");
    if starts_with(line, "default.clock.quantum"@) {
        assert(line[0] == line.take(21)[0]);
    }
    if starts_with(line, "default.clock.allowed-rates"@) {
        assert(line[0] == line.take(27)[0]);
    }
}

proof fn lemma_fold_concat(a: Seq<Seq<char>>, b: Seq<Seq<char>>, t: UserTweaks)
    ensures
        pipewire_fold(a + b, t) == pipewire_fold(b, pipewire_fold(a, t)),
    decreases b.len(),
{
    if b.len() == 0 {
        assert(a + b =~= a);
    } else {
        lemma_fold_concat(a, b.drop_last(), t);
        assert((a + b).drop_last() =~= a + b.drop_last());
        assert((a + b).last() == b.last());
    }
}

proof fn lemma_fold_inert(ls: Seq<Seq<char>>, t: UserTweaks)
    requires
        forall|i: int|
            0 <= i < ls.len() ==> trim(#[trigger] ls[i]).len() == 0 || trim(ls[i])[0] != 'd',
    ensures
        pipewire_fold(ls, t) == t,
    decreases ls.len(),
{
    if ls.len() > 0 {
        let init = ls.drop_last();
        assert forall|i: int| 0 <= i < init.len() implies trim(#[trigger] init[i]).len() == 0
            || trim(init[i])[0] != 'd' by {
            assert(init[i] == ls[i]);
        }
        lemma_fold_inert(init, t);
        lemma_inert_line(t, ls.last());
    }
}

/// The quantum line sets the quantum.
proof fn lemma_quantum_line(t: UserTweaks, q: u32)
    ensures
        pipewire_line(t, "    default.clock.quantum = "@ + dec(q as nat)) == (UserTweaks {
            quantum: Some(q),
            ..t
        }),
{
    reveal_strlit("    default.clock.quantum = ");
    reveal_strlit("default.clock.quantum = ");
    reveal_strlit("default.clock.quantum");
    reveal_strlit(" = ");
    reveal_strlit(" ");
    reveal_strlit("= ");
    let d = dec(q as nat);
    lemma_dec_digits(q as nat);
    let key = "default.clock.quantum"@;
    let body = "default.clock.quantum = "@ + d;
    let pad = "    "@;
    reveal_strlit("    ");
    assert("    default.clock.quantum = "@ + d =~= pad + body);
    assert(!is_ws(d[0])) by {
        assert(crate::text::is_digit(d[0]));
    }
    assert(!is_ws(d.last())) by {
        assert(crate::text::is_digit(d[d.len() - 1]));
    }
    assert(body.last() == d.last());
    lemma_trim_padded(pad, body);
    assert(body.take(21) =~= key);
    let r = " = "@ + d;
    assert(body.skip(21) =~= r);
    assert(strip_prefix(body, key) == Some(r));
    let sp = " "@;
    reveal_strlit(" ");
    reveal_strlit(" = ");
    assert(r =~= sp + ("= "@ + d));
    reveal_strlit("= ");
    assert(("= "@ + d)[0] == '=');
    lemma_trim_padded(sp, "= "@ + d);
    let r2 = " "@ + d;
    assert(("= "@ + d).take(1) =~= seq!['=']);
    assert(("= "@ + d).skip(1) =~= r2);
    lemma_trim_padded(sp, d);
    assert(strip_kv_spec(body, key) == Some(d));
    lemma_parse_dec(q);
}

/// The decimal notations of some numbers.
pub open spec fn decs(rs: Seq<u32>) -> Seq<Seq<char>> {
    rs.map_values(|n: u32| dec(n as nat))
}

proof fn lemma_dec_not_ws(n: nat)
    ensures
        dec(n).len() > 0,
        forall|k: int| 0 <= k < dec(n).len() ==> !is_ws(#[trigger] dec(n)[k]),
{
    lemma_dec_digits(n);
    assert forall|k: int| 0 <= k < dec(n).len() implies !is_ws(#[trigger] dec(n)[k]) by {
        assert(crate::text::is_digit(dec(n)[k]));
    }
}

proof fn lemma_words_space()
    ensures
        words(seq![' ']) == Seq::<Seq<char>>::empty(),
{
    let s = seq![' '];
    assert(is_ws(s[0]));
    assert(ws_fwd(s, 1) == 1);
    assert(ws_fwd(s, 0) == 1);
}

proof fn lemma_words_join(rs: Seq<u32>)
    requires
        rs.len() >= 1,
    ensures
        words(seq![' '] + join_dec(rs) + seq![' ']) == decs(rs),
    decreases rs.len(),
{
    let x = rs.last();
    lemma_dec_not_ws(x as nat);
    let v = dec(x as nat).push(' ');
    lemma_words_single(dec(x as nat), ' ');
    if rs.len() == 1 {
        assert(join_dec(rs) == dec(rs[0] as nat));
        assert(seq![' '] + join_dec(rs) + seq![' '] =~= seq![' '] + v);
        lemma_words_concat(seq![' '], v);
        lemma_words_space();
        assert(decs(rs) =~= seq![dec(x as nat)]);
        assert(words(seq![' '] + v) =~= seq![dec(x as nat)]);
    } else {
        let init = rs.drop_last();
        lemma_words_join(init);
        let u = seq![' '] + join_dec(init) + seq![' '];
        assert(join_dec(rs) == join_dec(init) + seq![' '] + dec(x as nat));
        assert(seq![' '] + join_dec(rs) + seq![' '] =~= u + v);
        assert(u.last() == ' ');
        lemma_words_concat(u, v);
        assert(decs(rs) =~= decs(init).push(dec(x as nat)));
        assert(words(u + v) =~= decs(init) + seq![dec(x as nat)]);
    }
}

proof fn lemma_parsed_decs(rs: Seq<u32>)
    ensures
        parsed_numbers(decs(rs)) == rs,
    decreases rs.len(),
{
    if rs.len() > 0 {
        let init = rs.drop_last();
        lemma_parsed_decs(init);
        assert(decs(rs).drop_last() =~= decs(init));
        lemma_parse_dec(rs.last());
        assert(init.push(rs.last()) =~= rs);
    } else {
        assert(decs(rs) =~= Seq::<Seq<char>>::empty());
    }
}

/// The allowed-rates line sets the rate family.
proof fn lemma_rates_line(t: UserTweaks, f: SampleRates)
    ensures
        pipewire_line(t, "    default.clock.allowed-rates = [ "@ + join_dec(rates_of(f)) + " ]"@)
            == (UserTweaks { sample_rates: Some(f), ..t }),
{
    reveal_strlit("    default.clock.allowed-rates = [ ");
    reveal_strlit("default.clock.allowed-rates = [ ");
    reveal_strlit("default.clock.allowed-rates");
    reveal_strlit("default.clock.quantum");
    reveal_strlit(" ]");
    reveal_strlit("    ");
    reveal_strlit(" = [ ");
    reveal_strlit("= [ ");
    reveal_strlit(" [ ");
    reveal_strlit("[ ");
    reveal_strlit(" ");
    let rs = rates_of(f);
    let j = join_dec(rs);
    let line = "    default.clock.allowed-rates = [ "@ + j + " ]"@;
    let body = "default.clock.allowed-rates = [ "@ + j + " ]"@;
    assert(line =~= "    "@ + body);
    assert(body[0] == 'd');
    assert(body.last() == ']');
    lemma_trim_padded("    "@, body);
    if starts_with(body, "default.clock.quantum"@) {
        assert(body.take(21)[14] == body[14]);
        assert(body[14] == 'a');
    }
    assert(strip_kv_spec(body, "default.clock.quantum"@) is None);
    let rest = " = [ "@ + j + " ]"@;
    assert(body.take(27) =~= "default.clock.allowed-rates"@);
    assert(body.skip(27) =~= rest);
    let a = "= [ "@ + j + " ]"@;
    assert(rest =~= " "@ + a);
    assert(a[0] == '=');
    assert(a.last() == ']');
    lemma_trim_padded(" "@, a);
    let b = " [ "@ + j + " ]"@;
    assert(a.take(1) =~= seq!['=']);
    assert(a.skip(1) =~= b);
    let c = "[ "@ + j + " ]"@;
    assert(b =~= " "@ + c);
    assert(c[0] == '[');
    assert(c.last() == ']');
    lemma_trim_padded(" "@, c);
    let d = " "@ + j + " ]"@;
    assert(c.take(1) =~= seq!['[']);
    assert(c.skip(1) =~= d);
    let inside = seq![' '] + j + seq![' '];
    assert(d.skip(d.len() - 1) =~= seq![']']);
    assert(d.take(d.len() - 1) =~= inside);
    assert(bracketed(rest) == Some(inside));
    lemma_words_join(rs);
    lemma_parsed_decs(rs);
    assert(rate_family(rs) == Some(f));
}

pub(crate) proof fn lemma_joined_concat(a: Seq<Seq<char>>, b: Seq<Seq<char>>)
    ensures
        joined_lines(a + b) == joined_lines(a) + joined_lines(b),
    decreases b.len(),
{
    if b.len() == 0 {
        assert(a + b =~= a);
        assert(joined_lines(b) =~= Seq::<char>::empty());
        assert(joined_lines(a) + joined_lines(b) =~= joined_lines(a));
    } else {
        lemma_joined_concat(a, b.drop_last());
        assert((a + b).drop_last() =~= a + b.drop_last());
        assert((a + b).last() == b.last());
        assert(joined_lines(a + b) =~= joined_lines(a) + joined_lines(b));
    }
}

pub(crate) proof fn lemma_lines_text_joined(ls: Seq<Seq<char>>)
    ensures
        lines_text(ls) == joined_lines(ls),
    decreases ls.len(),
{
    if ls.len() > 0 {
        lemma_lines_text_joined(ls.drop_last());
    }
}

/// The three comment lines every drop-in starts with.
pub open spec fn header_lines() -> Seq<Seq<char>> {
    seq![
        "# Generated by biglinux-microphone Tuning tab."@,
        "# Edit via the GUI \u{2014} manual edits are preserved when possible but the"@,
        "# UI is authoritative on next Apply."@,
    ]
}

pub(crate) proof fn lemma_header()
    ensures
        HEADER@ == joined_lines(header_lines()),
        forall|i: int| 0 <= i < 3 ==> !(#[trigger] header_lines()[i]).contains('\n'),
        forall|i: int| 0 <= i < 3 ==> (#[trigger] header_lines()[i]).len() > 0 && header_lines()[i][0] == '#',
        forall|i: int| 0 <= i < 3 ==> (#[trigger] header_lines()[i]).last() != '\r',
{
    reveal_strlit("# Generated by biglinux-microphone Tuning tab.");
    reveal_strlit("# Edit via the GUI \u{2014} manual edits are preserved when possible but the");
    reveal_strlit("# UI is authoritative on next Apply.");
    reveal_strlit("# Generated by biglinux-microphone Tuning tab.\n# Edit via the GUI \u{2014} manual edits are preserved when possible but the\n# UI is authoritative on next Apply.\n");
    reveal_with_fuel(joined_lines, 4);
    assert(HEADER@ =~= joined_lines(header_lines()));
}

pub(crate) proof fn lemma_first_char_kept(l: Seq<char>)
    requires
        l.len() > 0,
        !is_ws(l[0]),
    ensures
        trim(l).len() > 0,
        trim(l)[0] == l[0],
{
    assert(ws_fwd(l, 0) == 0);
    assert(trim_start(l) =~= l);
    lemma_ws_back_bounds(l, l.len() as int);
    if ws_back(l, l.len() as int) == 0 {
        assert(is_ws(l[0]));
    }
}

pub(crate) proof fn lemma_no_newline_concat(a: Seq<char>, b: Seq<char>)
    requires
        !a.contains('\n'),
        !b.contains('\n'),
    ensures
        !(a + b).contains('\n'),
{
    if (a + b).contains('\n') {
        let k = choose|k: int| 0 <= k < (a + b).len() && (a + b)[k] == '\n';
        if k < a.len() {
            assert(a[k] == '\n');
        } else {
            assert(b[k - a.len()] == '\n');
        }
    }
}

pub(crate) proof fn lemma_dec_no_newline(n: nat)
    ensures
        !dec(n).contains('\n'),
        dec(n).last() != '\r',
{
    lemma_dec_digits(n);
    if dec(n).contains('\n') {
        let k = choose|k: int| 0 <= k < dec(n).len() && dec(n)[k] == '\n';
        assert(crate::text::is_digit(dec(n)[k]));
    }
    assert(crate::text::is_digit(dec(n)[dec(n).len() - 1]));
}

proof fn lemma_join_no_newline(rs: Seq<u32>)
    ensures
        !join_dec(rs).contains('\n'),
    decreases rs.len(),
{
    if rs.len() == 1 {
        lemma_dec_no_newline(rs[0] as nat);
    } else if rs.len() > 1 {
        lemma_join_no_newline(rs.drop_last());
        lemma_dec_no_newline(rs.last() as nat);
        assert(!seq![' '].contains('\n'));
        lemma_no_newline_concat(join_dec(rs.drop_last()), seq![' ']);
        lemma_no_newline_concat(join_dec(rs.drop_last()) + seq![' '], dec(rs.last() as nat));
    }
}

/// The opening lines of the properties block.
pub open spec fn mid_lines() -> Seq<Seq<char>> {
    seq![""@, "context.properties = {"@]
}

/// The closing line of the properties block.
pub open spec fn close_lines() -> Seq<Seq<char>> {
    seq!["}"@]
}

proof fn lemma_props_clean(t: UserTweaks)
    ensures
        forall|i: int|
            0 <= i < pipewire_props(t).len() ==> !(#[trigger] pipewire_props(t)[i]).contains('\n')
                && pipewire_props(t)[i].last() != '\r',
{
    let props = pipewire_props(t);
    reveal_strlit("    default.clock.quantum = ");
    reveal_strlit("    default.clock.allowed-rates = [ ");
    reveal_strlit(" ]");
    assert forall|i: int| 0 <= i < props.len() implies !(#[trigger] props[i]).contains('\n')
        && props[i].last() != '\r' by {
        match t.quantum {
            Some(q) => {
                if i == 0 {
                    lemma_dec_no_newline(q as nat);
                    lemma_no_newline_concat("    default.clock.quantum = "@, dec(q as nat));
                    assert(props[i] == "    default.clock.quantum = "@ + dec(q as nat));
                    assert(props[i].last() == dec(q as nat).last());
                }
            },
            None => {},
        }
        match t.sample_rates {
            Some(f) => {
                if i == props.len() - 1 {
                    lemma_join_no_newline(rates_of(f));
                    lemma_no_newline_concat(
                        "    default.clock.allowed-rates = [ "@,
                        join_dec(rates_of(f)),
                    );
                    lemma_no_newline_concat(
                        "    default.clock.allowed-rates = [ "@ + join_dec(rates_of(f)),
                        " ]"@,
                    );
                    assert(props[i] == "    default.clock.allowed-rates = [ "@ + join_dec(
                        rates_of(f),
                    ) + " ]"@);
                }
            },
            None => {},
        }
    }
}

proof fn lemma_render_text(t: UserTweaks)
    requires
        pipewire_props(t).len() > 0,
    ensures
        render_pipewire_spec(t) == joined_lines(
            header_lines() + mid_lines() + pipewire_props(t) + close_lines(),
        ),
{
    let props = pipewire_props(t);
    reveal_strlit("\ncontext.properties = {\n");
    reveal_strlit("context.properties = {");
    reveal_strlit("}\n");
    reveal_strlit("}");
    reveal_strlit("");
    lemma_header();
    reveal_with_fuel(joined_lines, 3);
    assert("\ncontext.properties = {\n"@ =~= joined_lines(mid_lines()));
    assert("}\n"@ =~= joined_lines(close_lines()));
    lemma_lines_text_joined(props);
    lemma_joined_concat(header_lines(), mid_lines());
    lemma_joined_concat(header_lines() + mid_lines(), props);
    lemma_joined_concat(header_lines() + mid_lines() + props, close_lines());
}

proof fn lemma_render_lines(t: UserTweaks)
    requires
        pipewire_props(t).len() > 0,
    ensures
        lines(render_pipewire_spec(t)) == header_lines() + mid_lines() + pipewire_props(t)
            + close_lines(),
{
    let props = pipewire_props(t);
    let all = header_lines() + mid_lines() + props + close_lines();
    lemma_render_text(t);
    lemma_header();
    lemma_props_clean(t);
    reveal_strlit("context.properties = {");
    reveal_strlit("}");
    reveal_strlit("");
    assert forall|i: int| 0 <= i < all.len() implies !(#[trigger] all[i]).contains('\n')
        && strip_cr(all[i]) == all[i] by {
        if i < 3 {
            assert(all[i] == header_lines()[i]);
        } else if i < 5 {
            assert(all[i] == mid_lines()[i - 3]);
        } else if i < 5 + props.len() {
            assert(all[i] == props[i - 5]);
        } else {
            assert(all[i] == close_lines()[0]);
        }
    }
    lemma_lines_joined(all);
    assert(all.map_values(|l: Seq<char>| strip_cr(l)) =~= all);
}

proof fn lemma_frame_inert(t: UserTweaks)
    ensures
        pipewire_fold(header_lines() + mid_lines(), t) == t,
        pipewire_fold(close_lines(), t) == t,
{
    let head = header_lines() + mid_lines();
    lemma_header();
    reveal_strlit("context.properties = {");
    reveal_strlit("}");
    reveal_strlit("");
    assert forall|i: int| 0 <= i < head.len() implies trim(#[trigger] head[i]).len() == 0 || trim(
        head[i],
    )[0] != 'd' by {
        if i < 3 {
            assert(head[i] == header_lines()[i]);
            lemma_first_char_kept(header_lines()[i]);
        } else if i == 3 {
            assert(head[i] =~= Seq::<char>::empty());
            assert(trim(head[i]) =~= Seq::<char>::empty());
        } else {
            assert(head[i] == "context.properties = {"@);
            lemma_first_char_kept(head[i]);
        }
    }
    lemma_fold_inert(head, t);
    assert forall|i: int| 0 <= i < close_lines().len() implies trim(#[trigger] close_lines()[i]).len()
        == 0 || trim(close_lines()[i])[0] != 'd' by {
        lemma_first_char_kept(close_lines()[i]);
    }
    lemma_fold_inert(close_lines(), t);
}

proof fn lemma_fold_one(l: Seq<char>, t: UserTweaks)
    ensures
        pipewire_fold(seq![l], t) == pipewire_line(t, l),
{
    let ls = seq![l];
    assert(ls.drop_last() =~= Seq::<Seq<char>>::empty());
    assert(ls.last() == l);
    assert(pipewire_fold(ls.drop_last(), t) == t);
}

proof fn lemma_fold_props(t: UserTweaks, base: UserTweaks)
    ensures
        pipewire_fold(pipewire_props(t), base) == (UserTweaks {
            quantum: if t.quantum is Some {
                t.quantum
            } else {
                base.quantum
            },
            sample_rates: if t.sample_rates is Some {
                t.sample_rates
            } else {
                base.sample_rates
            },
            ..base
        }),
{
    let qs = match t.quantum {
        Some(q) => seq!["    default.clock.quantum = "@ + dec(q as nat)],
        None => Seq::<Seq<char>>::empty(),
    };
    let fs = match t.sample_rates {
        Some(f) => seq!["    default.clock.allowed-rates = [ "@ + join_dec(rates_of(f)) + " ]"@],
        None => Seq::<Seq<char>>::empty(),
    };
    assert(pipewire_props(t) =~= qs + fs);
    lemma_fold_concat(qs, fs, base);
    let after_q = pipewire_fold(qs, base);
    match t.quantum {
        Some(q) => {
            lemma_fold_one("    default.clock.quantum = "@ + dec(q as nat), base);
            lemma_quantum_line(base, q);
            assert(after_q == (UserTweaks { quantum: Some(q), ..base }));
        },
        None => {
            assert(after_q == base);
        },
    }
    match t.sample_rates {
        Some(f) => {
            lemma_fold_one(
                "    default.clock.allowed-rates = [ "@ + join_dec(rates_of(f)) + " ]"@,
                after_q,
            );
            lemma_rates_line(after_q, f);
        },
        None => {},
    }
}

/// Reading a rendered PipeWire drop-in over `base` sets exactly the
/// quantum and the rate family the tweaks carry, and leaves everything
/// else as it was; an empty drop-in changes nothing.
pub proof fn pipewire_drop_in_reads_back(t: UserTweaks, base: UserTweaks)
    ensures
        parse_pipewire_spec(render_pipewire_spec(t), base) == (UserTweaks {
            quantum: if t.quantum is Some {
                t.quantum
            } else {
                base.quantum
            },
            sample_rates: if t.sample_rates is Some {
                t.sample_rates
            } else {
                base.sample_rates
            },
            ..base
        }),
{
    let props = pipewire_props(t);
    if props.len() == 0 {
        assert(lines(Seq::<char>::empty()) =~= Seq::<Seq<char>>::empty());
        return;
    }
    lemma_render_lines(t);
    let head = header_lines() + mid_lines();
    assert(header_lines() + mid_lines() + props + close_lines() =~= (head + props) + close_lines());
    lemma_fold_concat(head + props, close_lines(), base);
    lemma_fold_concat(head, props, base);
    lemma_frame_inert(base);
    lemma_fold_props(t, base);
    lemma_frame_inert(pipewire_fold(props, base));
}

/// Rendering tweaks and reading the drop-in back from the defaults gives
/// the quantum and the rate family back.
pub proof fn a_pipewire_drop_in_round_trips(t: UserTweaks)
    ensures
        parse_pipewire_spec(render_pipewire_spec(t), no_tweaks()).quantum == t.quantum,
        parse_pipewire_spec(render_pipewire_spec(t), no_tweaks()).sample_rates == t.sample_rates,
{
    pipewire_drop_in_reads_back(t, no_tweaks());
}

} // verus!
