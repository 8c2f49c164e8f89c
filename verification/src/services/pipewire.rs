//! Parsers for what `pw-cli` prints, and the plain data they produce.
//!
//! The commands themselves run in the application around this library;
//! everything that decides what their output means is here.

pub mod default_sink;
pub mod live;
pub mod module;
pub mod sources;
pub mod types;
pub mod user_tweaks;

use vstd::prelude::*;

use crate::text::{
    char_pos, from_chars, lines_view, opt_chars, lines, parse_u32, parse_u32_v, slice_v, str_lines, strip_prefix, strip_prefix_v,
    strip_suffix, strip_suffix_v, to_chars, trim, trim_start, trim_start_v, trim_v,
};
pub use default_sink::parse_default_sink;
pub use live::{parse_node_id, parse_node_state, LiveOutcome};
pub use module::{
    restart_aec_service, restart_mic_service, restart_output_service, start_aec_service,
    start_mic_service, start_output_service, stop_aec_service, stop_mic_service, stop_output_service,
    SystemctlCall,
};
pub use sources::{list_sources, parse_default_source, parse_sources, snapshot, Source};
pub use types::{app_stream_from_props, AppStream, AppStreamView, Command, StreamDirection};
use types::{direction_of, direction_of_v, streams_view};
use sources::{is_object, is_object_header, objects_text};

verus! {

/// The quoted value of a property line `key = "value"`, or `None` when the
/// key does not match or the value is not double-quoted.
pub open spec fn property_value_spec(line: Seq<char>, key: Seq<char>) -> Option<Seq<char>> {
    match strip_prefix(line, key) {
        None => None,
        Some(after_key) => match strip_prefix(trim_start(after_key), seq!['=']) {
            None => None,
            Some(after_eq) => match strip_prefix(trim_start(after_eq), seq!['"']) {
                None => None,
                Some(inside) => strip_suffix(inside, seq!['"']),
            },
        },
    }
}

/// [`property_value`] on characters.
pub fn property_value_v(line: &Vec<char>, key: &Vec<char>) -> (r: Option<Vec<char>>)
    ensures
        opt_chars(r) == property_value_spec(line@, key@),
{
    let eq = to_chars("=");
    let quote = to_chars("\"");
    assert(eq@ =~= seq!['=']) by {
        reveal_strlit("=");
    }
    assert(quote@ =~= seq!['"']) by {
        reveal_strlit("\"");
    }
    let after_key = match strip_prefix_v(line, key) {
        Some(a) => a,
        None => return None,
    };
    let after_eq = match strip_prefix_v(&trim_start_v(&after_key), &eq) {
        Some(a) => a,
        None => return None,
    };
    let inside = match strip_prefix_v(&trim_start_v(&after_eq), &quote) {
        Some(a) => a,
        None => return None,
    };
    strip_suffix_v(&inside, &quote)
}

/// Extract the quoted value of a property line of the form `key = "value"`.
pub fn property_value(line: &str, key: &str) -> (r: Option<String>)
    ensures
        r.deep_view() == property_value_spec(line@, key@),
{
    match property_value_v(&to_chars(line), &to_chars(key)) {
        Some(v) => Some(from_chars(&v)),
        None => None,
    }
}

/// The part of `rest` before its first comma, as `split(',').next()` gives it.
pub open spec fn first_field(rest: Seq<char>) -> Seq<char> {
    rest.take(char_pos(rest, ',', 0))
}

/// The id an `id <n>, type ...` header line carries.
pub open spec fn header_id(rest: Seq<char>) -> Option<u32> {
    parse_u32(trim(first_field(rest)))
}

/// [`header_id`] on characters.
pub fn header_id_v(rest: &Vec<char>) -> (r: Option<u32>)
    ensures
        r == header_id(rest@),
{
    let mut j: usize = 0;
    while j < rest.len() && rest[j] != ','
        invariant
            j <= rest.len(),
            char_pos(rest@, ',', 0) == char_pos(rest@, ',', j as int),
        decreases rest.len() - j,
    {
        j = j + 1;
    }
    let field = slice_v(rest, 0, j);
    assert(field@ =~= first_field(rest@));
    parse_u32_v(&trim_v(&field))
}

/// What a pass over `pw-cli ls Node` has collected so far.
pub struct NodeScan {
    pub out: Seq<AppStreamView>,
    pub id: Option<u32>,
    pub direction: Option<StreamDirection>,
    pub app: Option<Seq<char>>,
    pub media_name: Option<Seq<char>>,
}

/// Close the current object: it becomes a stream when it had both an id
/// and a stream `media.class`.
pub open spec fn flush_node(st: NodeScan) -> NodeScan {
    NodeScan {
        out: match (st.id, st.direction) {
            (Some(n), Some(d)) => st.out.push(
                AppStreamView {
                    node_id: n,
                    application_name: match st.app {
                        Some(a) => a,
                        None => Seq::empty(),
                    },
                    media_name: st.media_name,
                    direction: d,
                },
            ),
            _ => st.out,
        },
        id: None,
        direction: None,
        app: None,
        media_name: None,
    }
}

/// One line of `pw-cli ls Node`.
pub open spec fn scan_node_line(st: NodeScan, line: Seq<char>) -> NodeScan {
    let t = trim_start(line);
    match strip_prefix(t, "id "@) {
        Some(rest) => NodeScan { id: header_id(rest), ..flush_node(st) },
        None => match property_value_spec(t, "media.class"@) {
            Some(v) => NodeScan { direction: direction_of(v), ..st },
            None => match property_value_spec(t, "application.name"@) {
                Some(v) => NodeScan { app: Some(v), ..st },
                None => match property_value_spec(t, "media.name"@) {
                    Some(v) => NodeScan { media_name: Some(v), ..st },
                    None => st,
                },
            },
        },
    }
}

/// The scan after the given lines.
pub open spec fn scan_nodes(ls: Seq<Seq<char>>) -> NodeScan
    decreases ls.len(),
{
    if ls.len() == 0 {
        NodeScan { out: Seq::empty(), id: None, direction: None, app: None, media_name: None }
    } else {
        scan_node_line(scan_nodes(ls.drop_last()), ls.last())
    }
}

/// Every `Stream/*/Audio` object of a `pw-cli ls Node` listing, in order.
pub open spec fn pw_cli_streams(stdout: Seq<char>) -> Seq<AppStreamView> {
    flush_node(scan_nodes(lines(stdout))).out
}

/// Parse `pw-cli ls Node` into the application streams it lists. An object
/// becomes a stream only when it has a numeric id header and a stream
/// `media.class`.
pub fn parse_pw_cli_nodes(stdout: &str) -> (r: Vec<AppStream>)
    ensures
        streams_view(r@) == pw_cli_streams(stdout@),
{
    let ls = str_lines(stdout);
    let id_prefix = to_chars("id ");
    let k_class = to_chars("media.class");
    let k_app = to_chars("application.name");
    let k_media = to_chars("media.name");
    let mut out: Vec<AppStream> = Vec::new();
    let mut id: Option<u32> = None;
    let mut direction: Option<StreamDirection> = None;
    let mut app: Option<Vec<char>> = None;
    let mut media_name: Option<Vec<char>> = None;
    let mut i: usize = 0;
    assert(lines_view(ls@).take(0) =~= Seq::<Seq<char>>::empty());
    assert(streams_view(out@) =~= Seq::<AppStreamView>::empty());
    while i < ls.len()
        invariant
            i <= ls.len(),
            lines_view(ls@) == lines(stdout@),
            id_prefix@ == "id "@,
            k_class@ == "media.class"@,
            k_app@ == "application.name"@,
            k_media@ == "media.name"@,
            scan_nodes(lines_view(ls@).take(i as int)) == (NodeScan {
                out: streams_view(out@),
                id,
                direction,
                app: opt_chars(app),
                media_name: opt_chars(media_name),
            }),
        decreases ls.len() - i,
    {
        let ghost before = lines_view(ls@).take(i as int);
        assert(lines_view(ls@).take(i + 1).drop_last() =~= before);
        assert(lines_view(ls@)[i as int] == ls@[i as int]@);
        let t = trim_start_v(&ls[i]);
        match strip_prefix_v(&t, &id_prefix) {
            Some(rest) => {
                if let (Some(n), Some(d)) = (id, direction) {
                    let a = match app {
                        Some(a) => from_chars(&a),
                        None => String::new(),
                    };
                    let m = match media_name {
                        Some(m) => Some(from_chars(&m)),
                        None => None,
                    };
                    let ghost old_out = out@;
                    out.push(AppStream { node_id: n, application_name: a, media_name: m, direction: d });
                    assert(streams_view(out@) =~= streams_view(old_out).push(out@.last()@));
                }
                app = None;
                media_name = None;
                direction = None;
                id = header_id_v(&rest);
            },
            None => {
                match property_value_v(&t, &k_class) {
                    Some(v) => {
                        direction = direction_of_v(&v);
                    },
                    None => match property_value_v(&t, &k_app) {
                        Some(v) => {
                            app = Some(v);
                        },
                        None => match property_value_v(&t, &k_media) {
                            Some(v) => {
                                media_name = Some(v);
                            },
                            None => {},
                        },
                    },
                }
            },
        }
        i = i + 1;
    }
    if let (Some(n), Some(d)) = (id, direction) {
        let a = match app {
            Some(a) => from_chars(&a),
            None => String::new(),
        };
        let m = match media_name {
            Some(m) => Some(from_chars(&m)),
            None => None,
        };
        let ghost old_out = out@;
        out.push(AppStream { node_id: n, application_name: a, media_name: m, direction: d });
        assert(streams_view(out@) =~= streams_view(old_out).push(out@.last()@));
    }
    assert(lines_view(ls@).take(ls.len() as int) =~= lines_view(ls@));
    out
}


// ── Reading block by block ───────────────────────────────────────────

/// The scan of nothing.
pub open spec fn empty_node_scan() -> NodeScan {
    NodeScan { out: Seq::empty(), id: None, direction: None, app: None, media_name: None }
}

/// The scan of `ls` from the state `st`.
pub open spec fn scan_nodes_from(st: NodeScan, ls: Seq<Seq<char>>) -> NodeScan
    decreases ls.len(),
{
    if ls.len() == 0 {
        st
    } else {
        scan_node_line(scan_nodes_from(st, ls.drop_last()), ls.last())
    }
}

/// The streams a sequence of lines gives.
pub open spec fn streams_of_lines(ls: Seq<Seq<char>>) -> Seq<AppStreamView> {
    flush_node(scan_nodes(ls)).out
}

proof fn lemma_scan_nodes_from_empty(ls: Seq<Seq<char>>)
    ensures
        scan_nodes(ls) == scan_nodes_from(empty_node_scan(), ls),
    decreases ls.len(),
{
    if ls.len() > 0 {
        lemma_scan_nodes_from_empty(ls.drop_last());
    }
}

proof fn lemma_scan_nodes_concat(st: NodeScan, a: Seq<Seq<char>>, b: Seq<Seq<char>>)
    ensures
        scan_nodes_from(st, a + b) == scan_nodes_from(scan_nodes_from(st, a), b),
    decreases b.len(),
{
    if b.len() == 0 {
        assert(a + b =~= a);
    } else {
        assert((a + b).drop_last() =~= a + b.drop_last());
        assert((a + b).last() == b.last());
        lemma_scan_nodes_concat(st, a, b.drop_last());
    }
}

proof fn lemma_flush_node_offset(x: NodeScan, o: Seq<AppStreamView>)
    ensures
        flush_node((NodeScan { out: o + x.out, ..x })) == (NodeScan {
            out: o + flush_node(x).out,
            ..flush_node(x)
        }),
{
    match (x.id, x.direction) {
        (Some(n), Some(d)) => {
            let v = AppStreamView {
                node_id: n,
                application_name: match x.app {
                    Some(a) => a,
                    None => Seq::empty(),
                },
                media_name: x.media_name,
                direction: d,
            };
            assert((o + x.out).push(v) =~= o + x.out.push(v));
        },
        _ => {},
    }
}

proof fn lemma_scan_nodes_offset(st: NodeScan, ls: Seq<Seq<char>>)
    ensures
        ({
            let base = scan_nodes_from(NodeScan { out: Seq::empty(), ..st }, ls);
            scan_nodes_from(st, ls) == (NodeScan { out: st.out + base.out, ..base })
        }),
    decreases ls.len(),
{
    let st0 = NodeScan { out: Seq::empty(), ..st };
    if ls.len() == 0 {
        assert(st.out + st0.out =~= st.out);
    } else {
        lemma_scan_nodes_offset(st, ls.drop_last());
        let x0 = scan_nodes_from(st0, ls.drop_last());
        lemma_flush_node_offset(x0, st.out);
    }
}

/// A listing is read object by object: the streams of a listing cut before
/// an object's `id` line are the streams of the part before the cut
/// followed by those of the part after it, so a garbled object costs only
/// itself.
pub proof fn streams_are_read_block_by_block(a: Seq<Seq<char>>, b: Seq<Seq<char>>)
    requires
        b.len() > 0,
        is_object_header(b[0]),
    ensures
        streams_of_lines(a + b) == streams_of_lines(a) + streams_of_lines(b),
{
    let e = empty_node_scan();
    lemma_scan_nodes_from_empty(a + b);
    lemma_scan_nodes_from_empty(a);
    lemma_scan_nodes_from_empty(b);
    lemma_scan_nodes_concat(e, a, b);
    let sa = scan_nodes_from(e, a);
    let head = seq![b[0]];
    let rest = b.subrange(1, b.len() as int);
    assert(b =~= head + rest);
    lemma_scan_nodes_concat(sa, head, rest);
    lemma_scan_nodes_concat(e, head, rest);
    assert(head.drop_last() =~= Seq::<Seq<char>>::empty());
    assert(head.last() == b[0]);
    assert(scan_nodes_from(sa, head.drop_last()) == sa);
    assert(scan_nodes_from(e, head.drop_last()) == e);
    let t = scan_nodes_from(sa, head);
    let t0 = scan_nodes_from(e, head);
    assert(t == scan_node_line(sa, b[0]));
    assert(t0 == scan_node_line(e, b[0]));
    assert(flush_node(e).out =~= Seq::<AppStreamView>::empty());
    assert(t0 == NodeScan { out: Seq::empty(), ..t });
    lemma_scan_nodes_offset(t, rest);
    let base = scan_nodes_from(t0, rest);
    lemma_flush_node_offset(base, t.out);
    assert(t.out == flush_node(sa).out);
}

/// Lines before the first object's `id` line give no stream.
pub proof fn lines_before_any_object_give_no_stream(ls: Seq<Seq<char>>)
    requires
        forall|i: int| 0 <= i < ls.len() ==> !is_object_header(#[trigger] ls[i]),
    ensures
        streams_of_lines(ls).len() == 0,
        scan_nodes(ls).id is None,
        scan_nodes(ls).out.len() == 0,
    decreases ls.len(),
{
    if ls.len() > 0 {
        lines_before_any_object_give_no_stream(ls.drop_last());
        assert(!is_object_header(ls[ls.len() - 1]));
    }
}

proof fn lemma_one_node_object(b: Seq<Seq<char>>)
    requires
        b.len() > 0,
        is_object_header(b[0]),
        forall|i: int| 1 <= i < b.len() ==> !is_object_header(#[trigger] b[i]),
    ensures
        scan_nodes(b).out.len() == 0,
        scan_nodes(b).id == header_id(strip_prefix(trim_start(b[0]), "id "@)->Some_0),
    decreases b.len(),
{
    if b.len() == 1 {
        assert(b.drop_last() =~= Seq::<Seq<char>>::empty());
        assert(b.last() == b[0]);
        assert(flush_node(scan_nodes(b.drop_last())).out.len() == 0);
    } else {
        let c = b.drop_last();
        assert forall|i: int| 1 <= i < c.len() implies !is_object_header(#[trigger] c[i]) by {
            assert(c[i] == b[i]);
        }
        lemma_one_node_object(c);
        assert(!is_object_header(b[b.len() - 1]));
    }
}

/// One object gives at most one stream, read from its own lines alone, and
/// only when its `id` line carries a number: the stream then has that id.
pub proof fn one_object_gives_at_most_one_stream(b: Seq<Seq<char>>)
    requires
        b.len() > 0,
        is_object_header(b[0]),
        forall|i: int| 1 <= i < b.len() ==> !is_object_header(#[trigger] b[i]),
    ensures
        streams_of_lines(b).len() <= 1,
        header_id(strip_prefix(trim_start(b[0]), "id "@)->Some_0) is None ==> streams_of_lines(
            b,
        ).len() == 0,
        streams_of_lines(b).len() == 1 ==> Some(streams_of_lines(b)[0].node_id) == header_id(
            strip_prefix(trim_start(b[0]), "id "@)->Some_0,
        ),
{
    lemma_one_node_object(b);
}


/// The properties a line of an object can set.
pub enum NodeProperty {
    Class,
    Application,
    MediaName,
}

/// The value a non-header line sets for `prop`, trying `media.class`,
/// then `application.name` and `media.name`, the first key the line
/// carries deciding.
pub open spec fn node_line_sets(l: Seq<char>, prop: NodeProperty) -> Option<Seq<char>> {
    let t = trim_start(l);
    let class = property_value_spec(t, "media.class"@);
    let app = property_value_spec(t, "application.name"@);
    let media = property_value_spec(t, "media.name"@);
    match prop {
        NodeProperty::Class => class,
        NodeProperty::Application => if class is Some { None } else { app },
        NodeProperty::MediaName => if class is Some || app is Some { None } else { media },
    }
}

/// The value of the last of `ls` that sets `prop`.
pub open spec fn node_last_set(ls: Seq<Seq<char>>, prop: NodeProperty) -> Option<Seq<char>>
    decreases ls.len(),
{
    if ls.len() == 0 {
        None
    } else {
        match node_line_sets(ls.last(), prop) {
            Some(v) => Some(v),
            None => node_last_set(ls.drop_last(), prop),
        }
    }
}

/// The stream one object gives: its `id` line must carry a number and its
/// last `media.class` must name a stream direction; the application name
/// is the last `application.name` (empty when there is none) and the title
/// the last `media.name`.
pub open spec fn object_stream(b: Seq<Seq<char>>) -> Seq<AppStreamView> {
    let body = b.subrange(1, b.len() as int);
    let direction = match node_last_set(body, NodeProperty::Class) {
        Some(v) => direction_of(v),
        None => None,
    };
    match (header_id(strip_prefix(trim_start(b[0]), "id "@)->Some_0), direction) {
        (Some(n), Some(d)) => seq![
            AppStreamView {
                node_id: n,
                application_name: match node_last_set(body, NodeProperty::Application) {
                    Some(a) => a,
                    None => Seq::empty(),
                },
                media_name: node_last_set(body, NodeProperty::MediaName),
                direction: d,
            },
        ],
        _ => Seq::empty(),
    }
}

proof fn lemma_object_node_scan(b: Seq<Seq<char>>)
    requires
        b.len() > 0,
        is_object_header(b[0]),
        forall|i: int| 1 <= i < b.len() ==> !is_object_header(#[trigger] b[i]),
    ensures
        ({
            let body = b.subrange(1, b.len() as int);
            let st = scan_nodes(b);
            &&& st.out.len() == 0
            &&& st.id == header_id(strip_prefix(trim_start(b[0]), "id "@)->Some_0)
            &&& st.direction == match node_last_set(body, NodeProperty::Class) {
                Some(v) => direction_of(v),
                None => None,
            }
            &&& st.app == node_last_set(body, NodeProperty::Application)
            &&& st.media_name == node_last_set(body, NodeProperty::MediaName)
        }),
    decreases b.len(),
{
    if b.len() == 1 {
        assert(b.drop_last() =~= Seq::<Seq<char>>::empty());
        assert(b.last() == b[0]);
        assert(flush_node(scan_nodes(b.drop_last())).out.len() == 0);
        assert(b.subrange(1, 1) =~= Seq::<Seq<char>>::empty());
    } else {
        let c = b.drop_last();
        assert forall|i: int| 1 <= i < c.len() implies !is_object_header(#[trigger] c[i]) by {
            assert(c[i] == b[i]);
        }
        lemma_object_node_scan(c);
        assert(!is_object_header(b[b.len() - 1]));
        let body = b.subrange(1, b.len() as int);
        assert(body.drop_last() =~= c.subrange(1, c.len() as int));
        assert(body.last() == b.last());
    }
}

/// One object (its `id` line and the lines up to the next one) gives the
/// stream [`object_stream`] describes, and nothing else.
pub proof fn an_object_gives_its_stream(b: Seq<Seq<char>>)
    requires
        b.len() > 0,
        is_object_header(b[0]),
        forall|i: int| 1 <= i < b.len() ==> !is_object_header(#[trigger] b[i]),
    ensures
        streams_of_lines(b) == object_stream(b),
{
    lemma_object_node_scan(b);
    let st = scan_nodes(b);
    assert(st.out =~= Seq::<AppStreamView>::empty());
    match (st.id, st.direction) {
        (Some(n), Some(d)) => {
            let v = AppStreamView {
                node_id: n,
                application_name: match st.app {
                    Some(a) => a,
                    None => Seq::empty(),
                },
                media_name: st.media_name,
                direction: d,
            };
            assert(st.out.push(v) =~= seq![v]);
        },
        _ => {},
    }
}

/// The streams of objects, one object after another.
pub open spec fn objects_streams(bs: Seq<Seq<Seq<char>>>) -> Seq<AppStreamView>
    decreases bs.len(),
{
    if bs.len() == 0 {
        Seq::empty()
    } else {
        objects_streams(bs.drop_last()) + object_stream(bs.last())
    }
}

/// A listing is read block by block: lines that open no object, followed
/// by objects, give the stream of each object in turn, so a garbled `id`
/// line costs only its own object and each stream's fields come from its
/// own object.
pub proof fn a_listing_gives_one_stream_per_object(pre: Seq<Seq<char>>, bs: Seq<Seq<Seq<char>>>)
    requires
        forall|i: int| 0 <= i < pre.len() ==> !is_object_header(#[trigger] pre[i]),
        forall|k: int| 0 <= k < bs.len() ==> is_object(#[trigger] bs[k]),
    ensures
        streams_of_lines(pre + objects_text(bs)) == objects_streams(bs),
    decreases bs.len(),
{
    if bs.len() == 0 {
        assert(pre + objects_text(bs) =~= pre);
        lines_before_any_object_give_no_stream(pre);
    } else {
        let rest = bs.drop_last();
        assert forall|k: int| 0 <= k < rest.len() implies is_object(#[trigger] rest[k]) by {
            assert(rest[k] == bs[k]);
        }
        a_listing_gives_one_stream_per_object(pre, rest);
        let b = bs.last();
        assert(is_object(bs[bs.len() - 1]));
        assert(pre + objects_text(bs) =~= (pre + objects_text(rest)) + b);
        streams_are_read_block_by_block(pre + objects_text(rest), b);
        an_object_gives_its_stream(b);
    }
}

} // verus!
