//! Automatic echo cancellation, resolved from the current output route.
//!
//! The microphone can hear the speakers and not headphones; where the
//! sound goes is read from the default sink's node and the active route of
//! its device in a `pw-dump` listing. Running `pw-dump` is the
//! application's part, and so is decoding its JSON into [`RouteObject`]s.
use vstd::prelude::*;

use crate::config::echo_cancel::{EchoCancelConfig, EchoMode};
use crate::text::{contains, contains_v, eq_v, parse_u64, parse_u64_v, to_chars};

verus! {

/// A JSON value that is compared by text: absent (or null), a string, or
/// anything else (which equals nothing).
#[derive(Debug, Clone)]
pub enum JsonText {
    Absent,
    Text(String),
    Other,
}

/// One entry of a metadata object's `metadata` array: its `key` when that
/// is a string, and the `name` field of its `value` (the value is decoded
/// first when it is JSON text; `None` when that text is not JSON).
#[derive(Debug, Clone)]
pub struct MetadataItem {
    pub key: Option<String>,
    pub name: Option<JsonText>,
}

/// A `device.id` property: a number, a string, or anything else.
#[derive(Debug, Clone)]
pub enum DeviceRef {
    Number(u64),
    Text(String),
    Other,
}

/// The `direction` of a device route: the text `Output`, another string,
/// a number, or anything else.
#[derive(Debug, Clone)]
pub enum RouteDirection {
    Text(String),
    Number(u64),
    Other,
}

/// One route of a device's `Route` parameter.
#[derive(Debug, Clone)]
pub struct RouteEntry {
    pub direction: RouteDirection,
    /// The route's `name` when it is a string.
    pub name: Option<String>,
}

/// An object of a `pw-dump` listing, reduced to what resolving the route
/// reads.
#[derive(Debug, Clone)]
pub struct RouteObject {
    /// `id`, when it is a non-negative integer.
    pub id: Option<u64>,
    /// `info` is present and null: the monitor's way of saying the object
    /// went away.
    pub removed: bool,
    /// The `metadata` array, when there is one.
    pub metadata: Option<Vec<MetadataItem>>,
    /// `info.props."node.name"`.
    pub node_name: JsonText,
    /// `info.props."device.id"`.
    pub device_id: DeviceRef,
    /// `info.props."device.form-factor"` when it is a string.
    pub form_factor: Option<String>,
    /// `info.props."device.form_factor"` when it is a string.
    pub form_factor_alt: Option<String>,
    /// `info.props."port.name"` when it is a string.
    pub port_name: Option<String>,
    /// `info.params.Route`, when it is an array.
    pub routes: Option<Vec<RouteEntry>>,
}

/// Two compared values are equal: both absent, or the same text.
pub open spec fn same_json(a: JsonText, b: JsonText) -> bool {
    match (a, b) {
        (JsonText::Absent, JsonText::Absent) => true,
        (JsonText::Text(x), JsonText::Text(y)) => x@ == y@,
        _ => false,
    }
}

/// The text of an optional string.
pub open spec fn opt_text(o: Option<String>) -> Option<Seq<char>> {
    match o {
        Some(s) => Some(s@),
        None => None,
    }
}

/// The first entry of `es` at or after `k` keyed `default.audio.sink`.
pub open spec fn sink_entry(es: Seq<MetadataItem>, k: int) -> Option<int>
    decreases es.len() - k,
{
    if k < 0 || k >= es.len() {
        None
    } else if opt_text(es[k].key) == Some("default.audio.sink"@) {
        Some(k)
    } else {
        sink_entry(es, k + 1)
    }
}

/// The first object at or after `i` whose metadata names the default sink,
/// and the index of that entry.
pub open spec fn first_sink(g: Seq<RouteObject>, i: int) -> Option<(int, int)>
    decreases g.len() - i,
{
    if i < 0 || i >= g.len() {
        None
    } else {
        match g[i].metadata {
            Some(es) => match sink_entry(es@, 0) {
                Some(k) => Some((i, k)),
                None => first_sink(g, i + 1),
            },
            None => first_sink(g, i + 1),
        }
    }
}

/// The first object at or after `i` whose node name equals `name`.
pub open spec fn node_named(g: Seq<RouteObject>, name: JsonText, i: int) -> Option<int>
    decreases g.len() - i,
{
    if i < 0 || i >= g.len() {
        None
    } else if same_json(g[i].node_name, name) {
        Some(i)
    } else {
        node_named(g, name, i + 1)
    }
}

/// The device a node's `device.id` names.
pub open spec fn device_of(o: RouteObject) -> Option<u64> {
    match o.device_id {
        DeviceRef::Number(n) => Some(n),
        DeviceRef::Text(s) => parse_u64(s@),
        DeviceRef::Other => None,
    }
}

/// The first object at or after `i` whose `id` is `id` (an object without
/// a numeric id matches `None`).
pub open spec fn object_with_id(g: Seq<RouteObject>, id: Option<u64>, i: int) -> Option<int>
    decreases g.len() - i,
{
    if i < 0 || i >= g.len() {
        None
    } else if g[i].id == id {
        Some(i)
    } else {
        object_with_id(g, id, i + 1)
    }
}

/// A route that plays out: direction `Output` or 1.
pub open spec fn is_output_route(r: RouteEntry) -> bool {
    match r.direction {
        RouteDirection::Text(s) => s@ == "Output"@,
        RouteDirection::Number(n) => n == 1,
        RouteDirection::Other => false,
    }
}

/// The first output route at or after `k`.
pub open spec fn output_route(rs: Seq<RouteEntry>, k: int) -> Option<int>
    decreases rs.len() - k,
{
    if k < 0 || k >= rs.len() {
        None
    } else if is_output_route(rs[k]) {
        Some(k)
    } else {
        output_route(rs, k + 1)
    }
}

/// The name of a device's first output route.
pub open spec fn route_name(o: RouteObject) -> Option<Seq<char>> {
    match o.routes {
        None => None,
        Some(rs) => match output_route(rs@, 0) {
            None => None,
            Some(k) => opt_text(rs@[k].name),
        },
    }
}

/// `str::to_ascii_lowercase` of one character.
pub open spec fn lower(c: char) -> char {
    if 'A' <= c <= 'Z' {
        ((c as u32) + 32) as char
    } else {
        c
    }
}

/// `str::to_ascii_lowercase`.
pub open spec fn lowercase(s: Seq<char>) -> Seq<char> {
    s.map_values(|c: char| lower(c))
}

/// Whether the microphone can hear what plays: not through headphones or a
/// headset, told by the device's form factor when it has one, else by the
/// port's name; an unknown output counts as speakers.
pub open spec fn can_hear(form_factor: Option<Seq<char>>, port: Option<Seq<char>>) -> bool {
    match form_factor {
        Some(f) => !(f == "headphone"@ || f == "headset"@),
        None => match port {
            None => true,
            Some(p) => !contains(lowercase(p), "headphone"@) && !contains(
                lowercase(p),
                "headset"@,
            ),
        },
    }
}

/// The decision a listing supports: `None` when it does not say where the
/// default sink is; else whether the microphone can hear it.
pub open spec fn route_decision(g: Seq<RouteObject>) -> Option<bool> {
    match first_sink(g, 0) {
        None => None,
        Some((i, k)) => match g[i].metadata->0@[k].name {
            None => None,
            Some(name) => match node_named(g, name, 0) {
                None => None,
                Some(n) => {
                    let node = g[n];
                    let route = match object_with_id(g, device_of(node), 0) {
                        None => None,
                        Some(d) => route_name(g[d]),
                    };
                    let form = match opt_text(node.form_factor) {
                        Some(f) => Some(f),
                        None => opt_text(node.form_factor_alt),
                    };
                    let port = match route {
                        Some(r) => Some(r),
                        None => opt_text(node.port_name),
                    };
                    Some(can_hear(form, port))
                },
            },
        },
    }
}

fn text_is(s: &String, lit: &str) -> (r: bool)
    ensures
        r == (s@ == lit@),
{
    eq_v(&to_chars(s.as_str()), &to_chars(lit))
}

fn lowercase_v(v: &Vec<char>) -> (r: Vec<char>)
    ensures
        r@ == lowercase(v@),
{
    let mut r: Vec<char> = Vec::new();
    let mut i: usize = 0;
    while i < v.len()
        invariant
            i <= v.len(),
            r@ == lowercase(v@.take(i as int)),
        decreases v.len() - i,
    {
        let c = v[i];
        let l = if 'A' <= c && c <= 'Z' {
            ((c as u8) + 32) as char
        } else {
            c
        };
        assert(l == lower(c)) by {
            if 'A' <= c && c <= 'Z' {
                assert(((c as u8) + 32) as char == ((c as u32) + 32) as char);
            }
        }
        r.push(l);
        i = i + 1;
        assert(r@ =~= lowercase(v@.take(i as int)));
    }
    assert(v@.take(v@.len() as int) =~= v@);
    r
}

/// Whether the microphone can hear the output, from the device's form
/// factor or, without one, the port's name.
pub fn microphone_can_hear_it(form_factor: Option<&str>, port: Option<&str>) -> (r: bool)
    ensures
        r == can_hear(crate::text::opt_str(form_factor), crate::text::opt_str(port)),
{
    match form_factor {
        Some(form) => {
            let f = to_chars(form);
            !(eq_v(&f, &to_chars("headphone")) || eq_v(&f, &to_chars("headset")))
        },
        None => match port {
            None => true,
            Some(p) => {
                let l = lowercase_v(&to_chars(p));
                !contains_v(&l, &to_chars("headphone")) && !contains_v(&l, &to_chars("headset"))
            },
        },
    }
}

fn sink_entry_v(es: &Vec<MetadataItem>) -> (r: Option<usize>)
    ensures
        match r {
            Some(k) => sink_entry(es@, 0) == Some(k as int),
            None => sink_entry(es@, 0) is None,
        },
{
    let mut k: usize = 0;
    while k < es.len()
        invariant
            k <= es.len(),
            sink_entry(es@, 0) == sink_entry(es@, k as int),
        decreases es.len() - k,
    {
        let hit = match &es[k].key {
            Some(key) => text_is(key, "default.audio.sink"),
            None => false,
        };
        if hit {
            return Some(k);
        }
        k = k + 1;
    }
    None
}

fn first_sink_v(g: &Vec<RouteObject>) -> (r: Option<(usize, usize)>)
    ensures
        match r {
            Some((i, k)) => first_sink(g@, 0) == Some((i as int, k as int)),
            None => first_sink(g@, 0) is None,
        },
{
    let mut i: usize = 0;
    while i < g.len()
        invariant
            i <= g.len(),
            first_sink(g@, 0) == first_sink(g@, i as int),
        decreases g.len() - i,
    {
        match &g[i].metadata {
            Some(es) => match sink_entry_v(es) {
                Some(k) => {
                    return Some((i, k));
                },
                None => {},
            },
            None => {},
        }
        i = i + 1;
    }
    None
}

fn same_json_v(a: &JsonText, b: &JsonText) -> (r: bool)
    ensures
        r == same_json(*a, *b),
{
    match (a, b) {
        (JsonText::Absent, JsonText::Absent) => true,
        (JsonText::Text(x), JsonText::Text(y)) => eq_v(
            &to_chars(x.as_str()),
            &to_chars(y.as_str()),
        ),
        _ => false,
    }
}

fn node_named_v(g: &Vec<RouteObject>, name: &JsonText) -> (r: Option<usize>)
    ensures
        match r {
            Some(n) => node_named(g@, *name, 0) == Some(n as int),
            None => node_named(g@, *name, 0) is None,
        },
{
    let mut i: usize = 0;
    while i < g.len()
        invariant
            i <= g.len(),
            node_named(g@, *name, 0) == node_named(g@, *name, i as int),
        decreases g.len() - i,
    {
        if same_json_v(&g[i].node_name, name) {
            return Some(i);
        }
        i = i + 1;
    }
    None
}

fn object_with_id_v(g: &Vec<RouteObject>, id: Option<u64>) -> (r: Option<usize>)
    ensures
        match r {
            Some(d) => object_with_id(g@, id, 0) == Some(d as int),
            None => object_with_id(g@, id, 0) is None,
        },
{
    let mut i: usize = 0;
    while i < g.len()
        invariant
            i <= g.len(),
            object_with_id(g@, id, 0) == object_with_id(g@, id, i as int),
        decreases g.len() - i,
    {
        if g[i].id == id {
            return Some(i);
        }
        i = i + 1;
    }
    None
}

fn route_name_v(o: &RouteObject) -> (r: Option<String>)
    ensures
        opt_text(r) == route_name(*o),
{
    match &o.routes {
        None => None,
        Some(rs) => {
            let mut k: usize = 0;
            while k < rs.len()
                invariant
                    k <= rs.len(),
                    o.routes == Some(*rs),
                    output_route(rs@, 0) == output_route(rs@, k as int),
                decreases rs.len() - k,
            {
                let out = match &rs[k].direction {
                    RouteDirection::Text(s) => text_is(s, "Output"),
                    RouteDirection::Number(n) => *n == 1,
                    RouteDirection::Other => false,
                };
                if out {
                    assert(is_output_route(rs@[k as int]));
                    assert(output_route(rs@, k as int) == Some(k as int));
                    return match &rs[k].name {
                        Some(s) => Some(s.clone()),
                        None => None,
                    };
                }
                k = k + 1;
            }
            None
        },
    }
}

fn device_of_v(o: &RouteObject) -> (r: Option<u64>)
    ensures
        r == device_of(*o),
{
    match &o.device_id {
        DeviceRef::Number(n) => Some(*n),
        DeviceRef::Text(s) => parse_u64_v(&to_chars(s.as_str())),
        DeviceRef::Other => None,
    }
}

fn opt_ref(o: &Option<String>) -> (r: Option<&str>)
    ensures
        crate::text::opt_str(r) == opt_text(*o),
{
    match o {
        Some(s) => Some(s.as_str()),
        None => None,
    }
}

proof fn lemma_sink_entry(es: Seq<MetadataItem>, k: int)
    requires
        0 <= k,
    ensures
        match sink_entry(es, k) {
            Some(j) => k <= j < es.len(),
            None => true,
        },
    decreases es.len() - k,
{
    if k < es.len() && opt_text(es[k].key) != Some("default.audio.sink"@) {
        lemma_sink_entry(es, k + 1);
    }
}

proof fn lemma_first_sink(g: Seq<RouteObject>, i: int)
    requires
        0 <= i,
    ensures
        match first_sink(g, i) {
            Some((a, k)) => i <= a < g.len() && g[a].metadata is Some && 0 <= k
                < g[a].metadata->0@.len(),
            None => true,
        },
    decreases g.len() - i,
{
    if i < g.len() {
        match g[i].metadata {
            Some(es) => {
                lemma_sink_entry(es@, 0);
                if sink_entry(es@, 0) is None {
                    lemma_first_sink(g, i + 1);
                }
            },
            None => {
                lemma_first_sink(g, i + 1);
            },
        }
    }
}

proof fn lemma_node_named(g: Seq<RouteObject>, name: JsonText, i: int)
    requires
        0 <= i,
    ensures
        match node_named(g, name, i) {
            Some(n) => i <= n < g.len(),
            None => true,
        },
    decreases g.len() - i,
{
    if i < g.len() && !same_json(g[i].node_name, name) {
        lemma_node_named(g, name, i + 1);
    }
}

proof fn lemma_object_with_id(g: Seq<RouteObject>, id: Option<u64>, i: int)
    requires
        0 <= i,
    ensures
        match object_with_id(g, id, i) {
            Some(n) => i <= n < g.len(),
            None => true,
        },
    decreases g.len() - i,
{
    if i < g.len() && g[i].id != id {
        lemma_object_with_id(g, id, i + 1);
    }
}

/// Where the default sink plays, as far as the listing tells: `None` when
/// it does not name the default sink or its node; else whether the
/// microphone can hear it.
pub fn decision_from_graph(graph: &Vec<RouteObject>) -> (r: Option<bool>)
    ensures
        r == route_decision(graph@),
{
    proof {
        lemma_first_sink(graph@, 0);
    }
    let (i, k) = match first_sink_v(graph) {
        None => {
            return None;
        },
        Some(p) => p,
    };
    let name: &JsonText = match &graph[i].metadata {
        Some(es) => match &es[k].name {
            None => {
                return None;
            },
            Some(n) => n,
        },
        None => {
            return None;
        },
    };
    proof {
        lemma_node_named(graph@, *name, 0);
    }
    let n = match node_named_v(graph, name) {
        None => {
            return None;
        },
        Some(n) => n,
    };
    let node = &graph[n];
    let dev = device_of_v(node);
    proof {
        lemma_object_with_id(graph@, dev, 0);
    }
    let route = match object_with_id_v(graph, dev) {
        None => None,
        Some(d) => route_name_v(&graph[d]),
    };
    let form = match &node.form_factor {
        Some(f) => Some(f.as_str()),
        None => opt_ref(&node.form_factor_alt),
    };
    let port = match &route {
        Some(r) => Some(r.as_str()),
        None => opt_ref(&node.port_name),
    };
    Some(microphone_can_hear_it(form, port))
}

// ── Settling the canceller ───────────────────────────────────────────

/// The canceller after settling: on for `Always`, off for `Never`, and
/// for `Automatic` what the route says, unchanged when it says nothing.
pub open spec fn settled(c: EchoCancelConfig, decision: Option<bool>) -> EchoCancelConfig {
    match c.mode {
        EchoMode::Always => EchoCancelConfig { enabled: true, ..c },
        EchoMode::Never => EchoCancelConfig { enabled: false, ..c },
        EchoMode::Automatic => match decision {
            Some(w) => EchoCancelConfig { enabled: w, ..c },
            None => c,
        },
    }
}

/// Derive whether the canceller runs from its mode and, in automatic
/// mode, from the route decision (`None` when the graph could not be read
/// or did not say).
pub fn settle(config: &mut EchoCancelConfig, decision: Option<bool>)
    ensures
        *final(config) == settled(*old(config), decision),
{
    match config.mode {
        EchoMode::Always => {
            config.enabled = true;
        },
        EchoMode::Never => {
            config.enabled = false;
        },
        EchoMode::Automatic => match decision {
            Some(w) => {
                config.enabled = w;
            },
            None => {},
        },
    }
}

// ── Following the monitor ────────────────────────────────────────────

/// The objects carry ids, in strictly increasing order.
pub open spec fn sorted_ids(s: Seq<RouteObject>) -> bool {
    &&& forall|i: int| 0 <= i < s.len() ==> (#[trigger] s[i]).id is Some
    &&& forall|i: int, j: int| 0 <= i < j < s.len() ==> (#[trigger] s[i]).id->0 < (#[trigger] s[j]).id->0
}

/// `s` with `o` in its place by id: replacing the object with the same id,
/// else inserted before the first larger id.
pub open spec fn upsert(s: Seq<RouteObject>, o: RouteObject) -> Seq<RouteObject>
    decreases s.len(),
{
    if s.len() == 0 {
        seq![o]
    } else if s[0].id->0 == o.id->0 {
        seq![o] + s.drop_first()
    } else if s[0].id->0 > o.id->0 {
        seq![o] + s
    } else {
        seq![s[0]] + upsert(s.drop_first(), o)
    }
}

/// `s` without the object whose id is `id`.
pub open spec fn without(s: Seq<RouteObject>, id: u64) -> Seq<RouteObject>
    decreases s.len(),
{
    if s.len() == 0 {
        s
    } else if s[0].id == Some(id) {
        s.drop_first()
    } else {
        seq![s[0]] + without(s.drop_first(), id)
    }
}

/// The view after one monitored object: skipped without a numeric id,
/// dropped when it was removed, else put in place.
pub open spec fn fold_one(s: Seq<RouteObject>, o: RouteObject) -> Seq<RouteObject> {
    match o.id {
        None => s,
        Some(id) => if o.removed {
            without(s, id)
        } else {
            upsert(s, o)
        },
    }
}

/// The view after a batch, object by object.
pub open spec fn fold_batch(s: Seq<RouteObject>, batch: Seq<RouteObject>) -> Seq<RouteObject>
    decreases batch.len(),
{
    if batch.len() == 0 {
        s
    } else {
        fold_one(fold_batch(s, batch.drop_last()), batch.last())
    }
}

proof fn lemma_upsert(s: Seq<RouteObject>, o: RouteObject, p: int)
    requires
        sorted_ids(s),
        o.id is Some,
        0 <= p <= s.len(),
        forall|i: int| 0 <= i < p ==> (#[trigger] s[i]).id->0 < o.id->0,
        p < s.len() ==> s[p].id->0 >= o.id->0,
    ensures
        upsert(s, o) == (if p < s.len() && s[p].id->0 == o.id->0 {
            s.take(p) + seq![o] + s.skip(p + 1)
        } else {
            s.take(p) + seq![o] + s.skip(p)
        }),
        sorted_ids(upsert(s, o)),
    decreases s.len(),
{
    if s.len() == 0 {
        assert(upsert(s, o) =~= s.take(p) + seq![o] + s.skip(p));
    } else if p == 0 {
        if s[0].id->0 == o.id->0 {
            assert(upsert(s, o) =~= s.take(0) + seq![o] + s.skip(1));
        } else {
            assert(upsert(s, o) =~= s.take(0) + seq![o] + s.skip(0));
        }
        let u = upsert(s, o);
        assert forall|i: int, j: int| 0 <= i < j < u.len() implies (#[trigger] u[i]).id->0 < (
        #[trigger] u[j]).id->0 by {
            if i > 0 {
                if s[0].id->0 == o.id->0 {
                    assert(u[i] == s[i] && u[j] == s[j]);
                } else {
                    assert(u[i] == s[i - 1] && u[j] == s[j - 1]);
                }
            } else {
                if s[0].id->0 == o.id->0 {
                    assert(u[j] == s[j]);
                } else {
                    assert(u[j] == s[j - 1]);
                }
            }
        }
    } else {
        let t = s.drop_first();
        assert forall|i: int| 0 <= i < p - 1 implies (#[trigger] t[i]).id->0 < o.id->0 by {
            assert(t[i] == s[i + 1]);
        }
        lemma_upsert(t, o, p - 1);
        if p < s.len() && s[p].id->0 == o.id->0 {
            assert(upsert(s, o) =~= s.take(p) + seq![o] + s.skip(p + 1));
        } else {
            assert(upsert(s, o) =~= s.take(p) + seq![o] + s.skip(p));
        }
        let u = upsert(s, o);
        let ut = upsert(t, o);
        assert(u =~= seq![s[0]] + ut);
        assert forall|i: int, j: int| 0 <= i < j < u.len() implies (#[trigger] u[i]).id->0 < (
        #[trigger] u[j]).id->0 by {
            if i == 0 {
                assert(u[j] == ut[j - 1]);
                if j - 1 < p - 1 {
                    assert(ut[j - 1] == t[j - 1]);
                } else if j - 1 == p - 1 {
                    assert(ut[j - 1] == o);
                } else if p < s.len() && s[p].id->0 == o.id->0 {
                    assert(ut[j - 1] == t[j - 1]);
                } else {
                    assert(ut[j - 1] == t[j - 2]);
                }
            } else {
                assert(u[i] == ut[i - 1] && u[j] == ut[j - 1]);
            }
        }
    }
}

proof fn lemma_without(s: Seq<RouteObject>, id: u64, p: int)
    requires
        sorted_ids(s),
        0 <= p <= s.len(),
        forall|i: int| 0 <= i < p ==> (#[trigger] s[i]).id != Some(id),
        p < s.len() ==> s[p].id == Some(id),
    ensures
        without(s, id) == (if p < s.len() {
            s.take(p) + s.skip(p + 1)
        } else {
            s
        }),
        sorted_ids(without(s, id)),
    decreases s.len(),
{
    if s.len() == 0 {
    } else if p == 0 {
        assert(without(s, id) =~= s.take(0) + s.skip(1));
        let w = without(s, id);
        assert forall|i: int, j: int| 0 <= i < j < w.len() implies (#[trigger] w[i]).id->0 < (
        #[trigger] w[j]).id->0 by {
            assert(w[i] == s[i + 1] && w[j] == s[j + 1]);
        }
        assert forall|i: int| 0 <= i < w.len() implies (#[trigger] w[i]).id is Some by {
            assert(w[i] == s[i + 1]);
        }
    } else {
        let t = s.drop_first();
        assert forall|i: int| 0 <= i < p - 1 implies (#[trigger] t[i]).id != Some(id) by {
            assert(t[i] == s[i + 1]);
        }
        lemma_without(t, id, p - 1);
        if p < s.len() {
            assert(without(s, id) =~= s.take(p) + s.skip(p + 1));
        } else {
            assert(without(s, id) =~= s);
        }
        let w = without(s, id);
        let wt = without(t, id);
        assert(w =~= seq![s[0]] + wt);
        assert forall|i: int, j: int| 0 <= i < j < w.len() implies (#[trigger] w[i]).id->0 < (
        #[trigger] w[j]).id->0 by {
            if i == 0 {
                assert(w[j] == wt[j - 1]);
                if p < s.len() {
                    if j - 1 < p - 1 {
                        assert(wt[j - 1] == t[j - 1]);
                    } else {
                        assert(wt[j - 1] == t[j]);
                    }
                } else {
                    assert(wt[j - 1] == t[j - 1]);
                }
            } else {
                assert(w[i] == wt[i - 1] && w[j] == wt[j - 1]);
            }
        }
        assert forall|i: int| 0 <= i < w.len() implies (#[trigger] w[i]).id is Some by {
            if i > 0 {
                assert(w[i] == wt[i - 1]);
            }
        }
    }
}

fn id_below(o: &RouteObject, id: u64) -> (r: bool)
    ensures
        r == (o.id is Some && o.id->0 < id),
{
    match o.id {
        Some(x) => x < id,
        None => false,
    }
}

/// Follows the graph as `pw-dump --monitor` reports it: the first batch is
/// every object, later ones only what changed, and a removal is an object
/// whose `info` is null. It speaks only when the decision changes.
pub struct RouteWatch {
    /// The objects, by increasing id.
    pub objects: Vec<RouteObject>,
    /// The last decision reported.
    pub last: Option<bool>,
}

impl RouteWatch {
    /// A watch that has seen nothing.
    pub fn new() -> (r: RouteWatch)
        ensures
            r.objects@ == Seq::<RouteObject>::empty(),
            r.last is None,
    {
        RouteWatch { objects: Vec::new(), last: None }
    }

    /// The objects are kept by increasing id.
    pub open spec fn wf(&self) -> bool {
        sorted_ids(self.objects@)
    }

    fn put(&mut self, o: RouteObject)
        requires
            old(self).wf(),
            o.id is Some,
        ensures
            final(self).wf(),
            final(self).objects@ == upsert(old(self).objects@, o),
            final(self).last == old(self).last,
    {
        let id = match o.id {
            Some(id) => id,
            None => {
                return;
            },
        };
        let mut p: usize = 0;
        while p < self.objects.len() && id_below(&self.objects[p], id)
            invariant
                p <= self.objects.len(),
                sorted_ids(self.objects@),
                o.id == Some(id),
                forall|i: int| 0 <= i < p ==> (#[trigger] self.objects@[i]).id->0 < id,
            decreases self.objects.len() - p,
        {
            p = p + 1;
        }
        proof {
            lemma_upsert(self.objects@, o, p as int);
        }
        let ghost before = self.objects@;
        let replace = p < self.objects.len() && self.objects[p].id == Some(id);
        if replace {
            self.objects.remove(p);
            self.objects.insert(p, o);
            assert(self.objects@ =~= before.take(p as int) + seq![o] + before.skip(p + 1));
        } else {
            self.objects.insert(p, o);
            assert(self.objects@ =~= before.take(p as int) + seq![o] + before.skip(p as int));
        }
    }

    fn drop_id(&mut self, id: u64)
        requires
            old(self).wf(),
        ensures
            final(self).wf(),
            final(self).objects@ == without(old(self).objects@, id),
            final(self).last == old(self).last,
    {
        let mut p: usize = 0;
        while p < self.objects.len() && self.objects[p].id != Some(id)
            invariant
                p <= self.objects.len(),
                sorted_ids(self.objects@),
                forall|i: int| 0 <= i < p ==> (#[trigger] self.objects@[i]).id != Some(id),
            decreases self.objects.len() - p,
        {
            p = p + 1;
        }
        proof {
            lemma_without(self.objects@, id, p as int);
        }
        let ghost before = self.objects@;
        if p < self.objects.len() {
            self.objects.remove(p);
            assert(self.objects@ =~= before.take(p as int) + before.skip(p + 1));
        }
    }

    /// Fold one monitor batch in and report the route decision, only when
    /// it differs from the last one reported; a batch after which the graph
    /// does not decide reports nothing and forgets nothing.
    pub fn absorb(&mut self, batch: Vec<RouteObject>) -> (r: Option<bool>)
        requires
            old(self).wf(),
        ensures
            final(self).wf(),
            final(self).objects@ == fold_batch(old(self).objects@, batch@),
            match route_decision(final(self).objects@) {
                None => r is None && final(self).last == old(self).last,
                Some(w) => final(self).last == Some(w) && r == (if old(self).last == Some(w) {
                    None
                } else {
                    Some(w)
                }),
            },
    {
        let ghost start = self.objects@;
        let ghost b = batch@;
        let mut rest = batch;
        let ghost mut i: int = 0;
        while rest.len() > 0
            invariant
                0 <= i <= b.len(),
                rest@ == b.skip(i),
                self.wf(),
                self.objects@ == fold_batch(start, b.take(i)),
                self.last == old(self).last,
            decreases rest.len(),
        {
            let o = rest.remove(0);
            assert(o == b[i]);
            assert(b.take(i + 1).drop_last() =~= b.take(i));
            assert(b.take(i + 1).last() == o);
            match o.id {
                None => {},
                Some(id) => {
                    if o.removed {
                        self.drop_id(id);
                    } else {
                        self.put(o);
                    }
                },
            }
            proof {
                i = i + 1;
            }
            assert(rest@ =~= b.skip(i));
        }
        assert(b.take(b.len() as int) =~= b);
        let wanted = match decision_from_graph(&self.objects) {
            None => {
                return None;
            },
            Some(w) => w,
        };
        if self.last == Some(wanted) {
            None
        } else {
            self.last = Some(wanted);
            Some(wanted)
        }
    }
}

} // verus!
