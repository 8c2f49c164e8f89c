//! Hardware capture devices: which ones the microphone picker offers and
//! which one is the default.
//!
//! Our own virtual endpoints (`mic-biglinux*`, `output-biglinux`, the echo
//! canceller's source) and `pw-loopback` ports are never offered: picking
//! one would route the microphone into itself.
use vstd::prelude::*;

use super::{header_id, header_id_v, property_value_spec, property_value_v};
use crate::pipeline::{EC_SOURCE_NAME, MIC_CAPTURE_NODE_NAME, MIC_NODE_NAME, OUTPUT_NODE_NAME};
use crate::text::{
    eq_v, find, find_v, occurs_at, from_chars, lines, lines_view, opt_chars, slice_v, starts_with,
    starts_with_v, str_lines, strip_prefix, strip_prefix_v, to_chars, trim_start, trim_start_v,
};

verus! {

/// One hardware capture source in the PipeWire graph.
#[derive(Debug, Clone, PartialEq, Eq)]
pub struct Source {
    pub node_id: u32,
    /// Stable identifier (`alsa_input.usb-...`), matched against the
    /// `default.audio.source` metadata.
    pub node_name: String,
    /// Name people read; `node_name` when nothing better is published.
    pub description: String,
}

/// What a [`Source`] holds, as mathematical values.
pub struct SourceView {
    pub node_id: u32,
    pub node_name: Seq<char>,
    pub description: Seq<char>,
}

impl View for Source {
    type V = SourceView;

    open spec fn view(&self) -> SourceView {
        SourceView { node_id: self.node_id, node_name: self.node_name@, description: self.description@ }
    }
}

/// The views of a list of sources.
pub open spec fn sources_view(s: Seq<Source>) -> Seq<SourceView> {
    s.map_values(|x: Source| x@)
}

/// Nodes the picker must hide: our virtual endpoints and loopback ports.
pub open spec fn is_virtual_source_spec(name: Seq<char>) -> bool {
    ||| name == MIC_NODE_NAME@
    ||| name == MIC_CAPTURE_NODE_NAME@
    ||| name == EC_SOURCE_NAME@
    ||| name == OUTPUT_NODE_NAME@
    ||| starts_with(name, "input.pw-loopback"@)
    ||| starts_with(name, "output.pw-loopback"@)
}

/// Whether `node_name` is one of our virtual endpoints or a loopback port.
pub fn is_virtual_source(node_name: &Vec<char>) -> (r: bool)
    ensures
        r == is_virtual_source_spec(node_name@),
{
    eq_v(node_name, &to_chars(MIC_NODE_NAME)) || eq_v(node_name, &to_chars(MIC_CAPTURE_NODE_NAME))
        || eq_v(node_name, &to_chars(EC_SOURCE_NAME)) || eq_v(node_name, &to_chars(OUTPUT_NODE_NAME))
        || starts_with_v(node_name, &to_chars("input.pw-loopback")) || starts_with_v(
        node_name,
        &to_chars("output.pw-loopback"),
    )
}

/// The description shown for a source: `node.description`, else
/// `node.nick`, and the node name when the chosen one is empty or absent.
pub open spec fn shown_description(
    description: Option<Seq<char>>,
    nick: Option<Seq<char>>,
    name: Seq<char>,
) -> Seq<char> {
    let chosen = match description {
        Some(d) => Some(d),
        None => nick,
    };
    match chosen {
        Some(c) => if c.len() > 0 {
            c
        } else {
            name
        },
        None => name,
    }
}

/// What a pass over `pw-cli ls Node` has collected so far.
pub struct SourceScan {
    pub out: Seq<SourceView>,
    pub id: Option<u32>,
    pub name: Option<Seq<char>>,
    pub description: Option<Seq<char>>,
    pub nick: Option<Seq<char>>,
    pub media_class: Option<Seq<char>>,
}

/// Close the current object: it is offered when it has an id, a name and
/// the class `Audio/Source`, and is not one of ours.
pub open spec fn flush_source(st: SourceScan) -> SourceScan {
    SourceScan {
        out: match (st.id, st.name, st.media_class) {
            (Some(n), Some(name), Some(class)) => if class == "Audio/Source"@
                && !is_virtual_source_spec(name) {
                st.out.push(
                    SourceView {
                        node_id: n,
                        node_name: name,
                        description: shown_description(st.description, st.nick, name),
                    },
                )
            } else {
                st.out
            },
            _ => st.out,
        },
        id: None,
        name: None,
        description: None,
        nick: None,
        media_class: None,
    }
}

/// One line of `pw-cli ls Node`.
pub open spec fn scan_source_line(st: SourceScan, line: Seq<char>) -> SourceScan {
    let t = trim_start(line);
    match strip_prefix(t, "id "@) {
        Some(rest) => SourceScan { id: header_id(rest), ..flush_source(st) },
        None => match property_value_spec(t, "node.name"@) {
            Some(v) => SourceScan { name: Some(v), ..st },
            None => match property_value_spec(t, "node.description"@) {
                Some(v) => SourceScan { description: Some(v), ..st },
                None => match property_value_spec(t, "node.nick"@) {
                    Some(v) => SourceScan { nick: Some(v), ..st },
                    None => match property_value_spec(t, "media.class"@) {
                        Some(v) => SourceScan { media_class: Some(v), ..st },
                        None => st,
                    },
                },
            },
        },
    }
}

/// The scan after the given lines.
pub open spec fn scan_sources(ls: Seq<Seq<char>>) -> SourceScan
    decreases ls.len(),
{
    if ls.len() == 0 {
        SourceScan {
            out: Seq::empty(),
            id: None,
            name: None,
            description: None,
            nick: None,
            media_class: None,
        }
    } else {
        scan_source_line(scan_sources(ls.drop_last()), ls.last())
    }
}

/// The real capture sources a `pw-cli ls Node` listing names, in order.
pub open spec fn listed_sources(stdout: Seq<char>) -> Seq<SourceView> {
    flush_source(scan_sources(lines(stdout))).out
}

/// Append the object collected so far when it is a real capture source.
fn push_source(
    out: &mut Vec<Source>,
    id: Option<u32>,
    name: Option<Vec<char>>,
    description: Option<Vec<char>>,
    nick: Option<Vec<char>>,
    media_class: Option<Vec<char>>,
)
    ensures
        sources_view(final(out)@) == flush_source(
            SourceScan {
                out: sources_view(old(out)@),
                id,
                name: opt_chars(name),
                description: opt_chars(description),
                nick: opt_chars(nick),
                media_class: opt_chars(media_class),
            },
        ).out,
{
    let audio_source = to_chars("Audio/Source");
    let ghost gdesc = opt_chars(description);
    let ghost gnick = opt_chars(nick);
    if let (Some(n), Some(nm), Some(class)) = (id, name, media_class) {
        if eq_v(&class, &audio_source) && !is_virtual_source(&nm) {
            let chosen = match description {
                Some(d) => Some(d),
                None => nick,
            };
            assert(opt_chars(chosen) == match gdesc {
                Some(d) => Some(d),
                None => gnick,
            });
            let desc = match chosen {
                Some(c) => if c.len() > 0 {
                    c
                } else {
                    slice_v(&nm, 0, nm.len())
                },
                None => slice_v(&nm, 0, nm.len()),
            };
            assert(nm@.subrange(0, nm@.len() as int) =~= nm@);
            assert(desc@ == shown_description(gdesc, gnick, nm@));
            let ghost before = sources_view(out@);
            out.push(Source { node_id: n, node_name: from_chars(&nm), description: from_chars(&desc) });
            assert(sources_view(out@) =~= before.push(out@.last()@));
        }
    }
}

/// Parse `pw-cli ls Node` into the real capture sources it lists.
pub fn parse_sources(stdout: &str) -> (r: Vec<Source>)
    ensures
        sources_view(r@) == listed_sources(stdout@),
{
    let ls = str_lines(stdout);
    let id_prefix = to_chars("id ");
    let k_name = to_chars("node.name");
    let k_desc = to_chars("node.description");
    let k_nick = to_chars("node.nick");
    let k_class = to_chars("media.class");
    let mut out: Vec<Source> = Vec::new();
    let mut id: Option<u32> = None;
    let mut name: Option<Vec<char>> = None;
    let mut description: Option<Vec<char>> = None;
    let mut nick: Option<Vec<char>> = None;
    let mut media_class: Option<Vec<char>> = None;
    let mut i: usize = 0;
    assert(lines_view(ls@).take(0) =~= Seq::<Seq<char>>::empty());
    assert(sources_view(out@) =~= Seq::<SourceView>::empty());
    while i < ls.len()
        invariant
            i <= ls.len(),
            lines_view(ls@) == lines(stdout@),
            id_prefix@ == "id "@,
            k_name@ == "node.name"@,
            k_desc@ == "node.description"@,
            k_nick@ == "node.nick"@,
            k_class@ == "media.class"@,
            scan_sources(lines_view(ls@).take(i as int)) == (SourceScan {
                out: sources_view(out@),
                id,
                name: opt_chars(name),
                description: opt_chars(description),
                nick: opt_chars(nick),
                media_class: opt_chars(media_class),
            }),
        decreases ls.len() - i,
    {
        assert(lines_view(ls@).take(i + 1).drop_last() =~= lines_view(ls@).take(i as int));
        let t = trim_start_v(&ls[i]);
        match strip_prefix_v(&t, &id_prefix) {
            Some(rest) => {
                push_source(&mut out, id, name, description, nick, media_class);
                name = None;
                description = None;
                nick = None;
                media_class = None;
                id = header_id_v(&rest);
            },
            None => match property_value_v(&t, &k_name) {
                Some(v) => {
                    name = Some(v);
                },
                None => match property_value_v(&t, &k_desc) {
                    Some(v) => {
                        description = Some(v);
                    },
                    None => match property_value_v(&t, &k_nick) {
                        Some(v) => {
                            nick = Some(v);
                        },
                        None => match property_value_v(&t, &k_class) {
                            Some(v) => {
                                media_class = Some(v);
                            },
                            None => {},
                        },
                    },
                },
            },
        }
        i = i + 1;
    }
    push_source(&mut out, id, name, description, nick, media_class);
    assert(lines_view(ls@).take(ls.len() as int) =~= lines_view(ls@));
    out
}

/// The real capture sources of a `pw-cli ls Node` listing.
pub fn list_sources(pw_cli_ls_node: &str) -> (r: Vec<Source>)
    ensures
        sources_view(r@) == listed_sources(pw_cli_ls_node@),
{
    parse_sources(pw_cli_ls_node)
}

/// The `name` field of the JSON value `pw-metadata` prints for a default
/// device, found without a JSON parser: the first `"name":`, then a
/// double-quoted string after optional whitespace.
pub open spec fn metadata_name(stdout: Seq<char>) -> Option<Seq<char>> {
    let needle = "\"name\":"@;
    match find(stdout, needle) {
        None => None,
        Some(pos) => match strip_prefix(trim_start(stdout.skip(pos + needle.len())), seq!['"']) {
            None => None,
            Some(after) => match find(after, seq!['"']) {
                None => None,
                Some(end) => Some(after.take(end)),
            },
        },
    }
}

/// [`metadata_name`] on text.
pub fn metadata_name_v(stdout: &str) -> (r: Option<String>)
    ensures
        r.deep_view() == metadata_name(stdout@),
{
    let s = to_chars(stdout);
    let needle = to_chars("\"name\":");
    let quote = to_chars("\"");
    assert(quote@ =~= seq!['"']) by {
        reveal_strlit("\"");
    }
    proof {
        crate::text::lemma_find_from(s@, needle@, 0);
    }
    let pos = match find_v(&s, &needle) {
        Some(p) => p,
        None => return None,
    };
    assert(occurs_at(s@, needle@, pos as int));
    assert(pos + needle.len() <= s.len());
    let start = pos + needle.len();
    let rest = slice_v(&s, start, s.len());
    assert(rest@ =~= s@.skip(pos + needle@.len()));
    let after = match strip_prefix_v(&trim_start_v(&rest), &quote) {
        Some(a) => a,
        None => return None,
    };
    proof {
        crate::text::lemma_find_from(after@, quote@, 0);
    }
    let end = match find_v(&after, &quote) {
        Some(e) => e,
        None => return None,
    };
    let name = slice_v(&after, 0, end);
    assert(name@ =~= after@.take(end as int));
    Some(from_chars(&name))
}

/// The `node.name` of the default source in `pw-metadata 0
/// default.audio.source` output.
pub fn parse_default_source(stdout: &str) -> (r: Option<String>)
    ensures
        r.deep_view() == metadata_name(stdout@),
{
    metadata_name_v(stdout)
}

/// The id of the first listed source named `name`.
pub open spec fn id_named(sources: Seq<SourceView>, name: Seq<char>) -> Option<u32>
    decreases sources.len(),
{
    if sources.len() == 0 {
        None
    } else if sources[0].node_name == name {
        Some(sources[0].node_id)
    } else {
        id_named(sources.drop_first(), name)
    }
}

/// The sources and the id of the default one, when it is among them.
pub fn snapshot(sources: Vec<Source>, default_name: Option<String>) -> (r: (Vec<Source>, Option<u32>))
    ensures
        r.0@ == sources@,
        r.1 == match default_name {
            Some(n) => id_named(sources_view(sources@), n@),
            None => None,
        },
{
    let ghost given = default_name;
    let name = match default_name {
        Some(n) => n,
        None => return (sources, None),
    };
    assert(given == Some(name));
    let wanted = to_chars(name.as_str());
    let mut i: usize = 0;
    assert(sources_view(sources@).skip(0) =~= sources_view(sources@));
    while i < sources.len()
        invariant
            i <= sources.len(),
            wanted@ == name@,
            given == Some(name),
            given == default_name,
            id_named(sources_view(sources@), name@) == id_named(
                sources_view(sources@).skip(i as int),
                name@,
            ),
        decreases sources.len() - i,
    {
        let ghost rest = sources_view(sources@).skip(i as int);
        assert(rest.drop_first() =~= sources_view(sources@).skip(i + 1));
        assert(rest[0] == sources@[i as int]@);
        if eq_v(&to_chars(sources[i].node_name.as_str()), &wanted) {
            let id = sources[i].node_id;
            assert(rest.len() > 0);
            assert(rest[0].node_name == name@);
            assert(id_named(rest, name@) == Some(id));
            return (sources, Some(id));
        }
        i = i + 1;
    }
    (sources, None)
}


// ── Reading block by block ───────────────────────────────────────────

/// A line that opens an object of the listing: `id ...` after indentation.
pub open spec fn is_object_header(l: Seq<char>) -> bool {
    strip_prefix(trim_start(l), "id "@) is Some
}

/// The scan of nothing.
pub open spec fn empty_source_scan() -> SourceScan {
    SourceScan { out: Seq::empty(), id: None, name: None, description: None, nick: None, media_class: None }
}

/// The scan of `ls` from the state `st`.
pub open spec fn scan_sources_from(st: SourceScan, ls: Seq<Seq<char>>) -> SourceScan
    decreases ls.len(),
{
    if ls.len() == 0 {
        st
    } else {
        scan_source_line(scan_sources_from(st, ls.drop_last()), ls.last())
    }
}

/// The sources a sequence of lines gives.
pub open spec fn sources_of_lines(ls: Seq<Seq<char>>) -> Seq<SourceView> {
    flush_source(scan_sources(ls)).out
}

proof fn lemma_scan_sources_from_empty(ls: Seq<Seq<char>>)
    ensures
        scan_sources(ls) == scan_sources_from(empty_source_scan(), ls),
    decreases ls.len(),
{
    if ls.len() > 0 {
        lemma_scan_sources_from_empty(ls.drop_last());
    }
}

proof fn lemma_scan_sources_concat(st: SourceScan, a: Seq<Seq<char>>, b: Seq<Seq<char>>)
    ensures
        scan_sources_from(st, a + b) == scan_sources_from(scan_sources_from(st, a), b),
    decreases b.len(),
{
    if b.len() == 0 {
        assert(a + b =~= a);
    } else {
        assert((a + b).drop_last() =~= a + b.drop_last());
        assert((a + b).last() == b.last());
        lemma_scan_sources_concat(st, a, b.drop_last());
    }
}

/// A state's collected sources only ever grow at the end.
proof fn lemma_flush_source_offset(x: SourceScan, o: Seq<SourceView>)
    ensures
        flush_source((SourceScan { out: o + x.out, ..x })) == (SourceScan {
            out: o + flush_source(x).out,
            ..flush_source(x)
        }),
{
    match (x.id, x.name, x.media_class) {
        (Some(n), Some(name), Some(class)) => {
            if class == "Audio/Source"@ && !is_virtual_source_spec(name) {
                let v = SourceView {
                    node_id: n,
                    node_name: name,
                    description: shown_description(x.description, x.nick, name),
                };
                assert((o + x.out).push(v) =~= o + x.out.push(v));
            }
        },
        _ => {},
    }
}

proof fn lemma_scan_sources_offset(st: SourceScan, ls: Seq<Seq<char>>)
    ensures
        ({
            let base = scan_sources_from(SourceScan { out: Seq::empty(), ..st }, ls);
            scan_sources_from(st, ls) == (SourceScan { out: st.out + base.out, ..base })
        }),
    decreases ls.len(),
{
    let st0 = SourceScan { out: Seq::empty(), ..st };
    if ls.len() == 0 {
        assert(st.out + st0.out =~= st.out);
    } else {
        lemma_scan_sources_offset(st, ls.drop_last());
        let x0 = scan_sources_from(st0, ls.drop_last());
        lemma_flush_source_offset(x0, st.out);
    }
}

/// A listing is read object by object: the sources of a listing cut before
/// an object's `id` line are the sources of the part before the cut
/// followed by those of the part after it.
pub proof fn sources_are_read_block_by_block(a: Seq<Seq<char>>, b: Seq<Seq<char>>)
    requires
        b.len() > 0,
        is_object_header(b[0]),
    ensures
        sources_of_lines(a + b) == sources_of_lines(a) + sources_of_lines(b),
{
    let e = empty_source_scan();
    lemma_scan_sources_from_empty(a + b);
    lemma_scan_sources_from_empty(a);
    lemma_scan_sources_from_empty(b);
    lemma_scan_sources_concat(e, a, b);
    let sa = scan_sources_from(e, a);
    let head = seq![b[0]];
    let rest = b.subrange(1, b.len() as int);
    assert(b =~= head + rest);
    lemma_scan_sources_concat(sa, head, rest);
    lemma_scan_sources_concat(e, head, rest);
    assert(head.drop_last() =~= Seq::<Seq<char>>::empty());
    assert(head.last() == b[0]);
    assert(scan_sources_from(sa, head.drop_last()) == sa);
    assert(scan_sources_from(e, head.drop_last()) == e);
    let t = scan_sources_from(sa, head);
    let t0 = scan_sources_from(e, head);
    assert(t == scan_source_line(sa, b[0]));
    assert(t0 == scan_source_line(e, b[0]));
    assert(flush_source(e).out =~= Seq::<SourceView>::empty());
    assert(t0 == SourceScan { out: Seq::empty(), ..t });
    lemma_scan_sources_offset(t, rest);
    let base = scan_sources_from(t0, rest);
    lemma_flush_source_offset(base, t.out);
    assert(t.out == flush_source(sa).out);
}

/// Lines before the first object's `id` line give no source.
pub proof fn lines_before_any_object_give_no_source(ls: Seq<Seq<char>>)
    requires
        forall|i: int| 0 <= i < ls.len() ==> !is_object_header(#[trigger] ls[i]),
    ensures
        sources_of_lines(ls).len() == 0,
        scan_sources(ls).id is None,
        scan_sources(ls).out.len() == 0,
    decreases ls.len(),
{
    if ls.len() > 0 {
        lines_before_any_object_give_no_source(ls.drop_last());
        assert(!is_object_header(ls[ls.len() - 1]));
    }
}

/// One object (its `id` line and the lines up to the next one) gives at
/// most one source, read from its own lines alone.
pub proof fn one_object_gives_at_most_one_source(b: Seq<Seq<char>>)
    requires
        b.len() > 0,
        is_object_header(b[0]),
        forall|i: int| 1 <= i < b.len() ==> !is_object_header(#[trigger] b[i]),
    ensures
        sources_of_lines(b).len() <= 1,
{
    lemma_one_object(b);
}

proof fn lemma_one_object(b: Seq<Seq<char>>)
    requires
        b.len() > 0,
        is_object_header(b[0]),
        forall|i: int| 1 <= i < b.len() ==> !is_object_header(#[trigger] b[i]),
    ensures
        scan_sources(b).out.len() == 0,
    decreases b.len(),
{
    if b.len() == 1 {
        assert(b.drop_last() =~= Seq::<Seq<char>>::empty());
        assert(flush_source(scan_sources(b.drop_last())).out.len() == 0);
    } else {
        let c = b.drop_last();
        assert forall|i: int| 1 <= i < c.len() implies !is_object_header(#[trigger] c[i]) by {
            assert(c[i] == b[i]);
        }
        lemma_one_object(c);
        assert(!is_object_header(b[b.len() - 1]));
    }
}


/// The properties a line of an object can set.
pub enum SourceProperty {
    Name,
    Description,
    Nick,
    Class,
}

/// The value a non-header line sets for `prop`, trying `node.name`, then
/// `node.description`, `node.nick` and `media.class`, the first key the
/// line carries deciding.
pub open spec fn line_sets(l: Seq<char>, prop: SourceProperty) -> Option<Seq<char>> {
    let t = trim_start(l);
    let name = property_value_spec(t, "node.name"@);
    let description = property_value_spec(t, "node.description"@);
    let nick = property_value_spec(t, "node.nick"@);
    let class = property_value_spec(t, "media.class"@);
    match prop {
        SourceProperty::Name => name,
        SourceProperty::Description => if name is Some { None } else { description },
        SourceProperty::Nick => if name is Some || description is Some { None } else { nick },
        SourceProperty::Class => if name is Some || description is Some || nick is Some {
            None
        } else {
            class
        },
    }
}

/// The value of the last of `ls` that sets `prop`.
pub open spec fn last_set(ls: Seq<Seq<char>>, prop: SourceProperty) -> Option<Seq<char>>
    decreases ls.len(),
{
    if ls.len() == 0 {
        None
    } else {
        match line_sets(ls.last(), prop) {
            Some(v) => Some(v),
            None => last_set(ls.drop_last(), prop),
        }
    }
}

/// The source one object gives: its `id` line must carry a number, its
/// last `node.name` must be a name that is none of ours and no loopback
/// port, and its last `media.class` must be `Audio/Source`; the
/// description is the last `node.description`, else the last `node.nick`,
/// when that is not empty, else the name.
pub open spec fn object_source(b: Seq<Seq<char>>) -> Seq<SourceView> {
    let body = b.subrange(1, b.len() as int);
    match (
        header_id(strip_prefix(trim_start(b[0]), "id "@)->Some_0),
        last_set(body, SourceProperty::Name),
        last_set(body, SourceProperty::Class),
    ) {
        (Some(n), Some(name), Some(class)) => if class == "Audio/Source"@ && !is_virtual_source_spec(
            name,
        ) {
            seq![
                SourceView {
                    node_id: n,
                    node_name: name,
                    description: shown_description(
                        last_set(body, SourceProperty::Description),
                        last_set(body, SourceProperty::Nick),
                        name,
                    ),
                },
            ]
        } else {
            Seq::empty()
        },
        _ => Seq::empty(),
    }
}

proof fn lemma_object_scan(b: Seq<Seq<char>>)
    requires
        b.len() > 0,
        is_object_header(b[0]),
        forall|i: int| 1 <= i < b.len() ==> !is_object_header(#[trigger] b[i]),
    ensures
        ({
            let body = b.subrange(1, b.len() as int);
            let st = scan_sources(b);
            &&& st.out.len() == 0
            &&& st.id == header_id(strip_prefix(trim_start(b[0]), "id "@)->Some_0)
            &&& st.name == last_set(body, SourceProperty::Name)
            &&& st.description == last_set(body, SourceProperty::Description)
            &&& st.nick == last_set(body, SourceProperty::Nick)
            &&& st.media_class == last_set(body, SourceProperty::Class)
        }),
    decreases b.len(),
{
    if b.len() == 1 {
        assert(b.drop_last() =~= Seq::<Seq<char>>::empty());
        assert(b.last() == b[0]);
        assert(flush_source(scan_sources(b.drop_last())).out.len() == 0);
        assert(b.subrange(1, 1) =~= Seq::<Seq<char>>::empty());
    } else {
        let c = b.drop_last();
        assert forall|i: int| 1 <= i < c.len() implies !is_object_header(#[trigger] c[i]) by {
            assert(c[i] == b[i]);
        }
        lemma_object_scan(c);
        assert(!is_object_header(b[b.len() - 1]));
        let body = b.subrange(1, b.len() as int);
        assert(body.drop_last() =~= c.subrange(1, c.len() as int));
        assert(body.last() == b.last());
    }
}

/// One object (its `id` line and the lines up to the next one) gives the
/// source [`object_source`] describes, and nothing else; together with
/// [`sources_are_read_block_by_block`] and
/// [`lines_before_any_object_give_no_source`], a listing gives one such
/// source per object, in order.
pub proof fn an_object_gives_its_source(b: Seq<Seq<char>>)
    requires
        b.len() > 0,
        is_object_header(b[0]),
        forall|i: int| 1 <= i < b.len() ==> !is_object_header(#[trigger] b[i]),
    ensures
        sources_of_lines(b) == object_source(b),
{
    lemma_object_scan(b);
    let st = scan_sources(b);
    assert(st.out =~= Seq::<SourceView>::empty());
    match (st.id, st.name, st.media_class) {
        (Some(n), Some(name), Some(class)) => {
            if class == "Audio/Source"@ && !is_virtual_source_spec(name) {
                let v = SourceView {
                    node_id: n,
                    node_name: name,
                    description: shown_description(st.description, st.nick, name),
                };
                assert(st.out.push(v) =~= seq![v]);
            }
        },
        _ => {},
    }
}


/// Objects laid end to end.
pub open spec fn objects_text(bs: Seq<Seq<Seq<char>>>) -> Seq<Seq<char>>
    decreases bs.len(),
{
    if bs.len() == 0 {
        Seq::empty()
    } else {
        objects_text(bs.drop_last()) + bs.last()
    }
}

/// The sources of objects, one object after another.
pub open spec fn objects_sources(bs: Seq<Seq<Seq<char>>>) -> Seq<SourceView>
    decreases bs.len(),
{
    if bs.len() == 0 {
        Seq::empty()
    } else {
        objects_sources(bs.drop_last()) + object_source(bs.last())
    }
}

/// An object: its `id` line, then lines that open no other object.
pub open spec fn is_object(b: Seq<Seq<char>>) -> bool {
    &&& b.len() > 0
    &&& is_object_header(b[0])
    &&& forall|i: int| 1 <= i < b.len() ==> !is_object_header(#[trigger] b[i])
}

/// A listing is read block by block: lines that open no object, followed
/// by objects, give the source of each object in turn, so a garbled object
/// costs only itself and each source's fields come from its own object.
pub proof fn a_listing_gives_one_source_per_object(pre: Seq<Seq<char>>, bs: Seq<Seq<Seq<char>>>)
    requires
        forall|i: int| 0 <= i < pre.len() ==> !is_object_header(#[trigger] pre[i]),
        forall|k: int| 0 <= k < bs.len() ==> is_object(#[trigger] bs[k]),
    ensures
        sources_of_lines(pre + objects_text(bs)) == objects_sources(bs),
    decreases bs.len(),
{
    if bs.len() == 0 {
        assert(pre + objects_text(bs) =~= pre);
        lines_before_any_object_give_no_source(pre);
    } else {
        let rest = bs.drop_last();
        assert forall|k: int| 0 <= k < rest.len() implies is_object(#[trigger] rest[k]) by {
            assert(rest[k] == bs[k]);
        }
        a_listing_gives_one_source_per_object(pre, rest);
        let b = bs.last();
        assert(is_object(bs[bs.len() - 1]));
        assert(pre + objects_text(bs) =~= (pre + objects_text(rest)) + b);
        sources_are_read_block_by_block(pre + objects_text(rest), b);
        an_object_gives_its_source(b);
    }
}

} // verus!
