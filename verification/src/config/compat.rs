//! Reading a settings file that an earlier version wrote.
//!
//! Three spellings changed over time, and a file is brought up to date as
//! it is read: an echo canceller switched off before it had a mode keeps
//! being off, a file that already names a model keeps its hand-picked
//! model, and the retired per-application routing list is dropped.
use vstd::prelude::*;

use crate::config::storage::{
    jms, jv, lemma_jms, lemma_jms_cons, lookup, overlay, overlay_v, Json, JsonV,
};
use crate::text::{eq_v, to_chars};

verus! {

/// `{"echo_cancel": {"mode": "off"}}`.
pub open spec fn echo_off_patch() -> JsonV {
    JsonV::Object(seq![("echo_cancel"@, JsonV::Object(seq![("mode"@, JsonV::Text("off"@))]))])
}

/// `{"quality": "manual"}`.
pub open spec fn manual_patch() -> JsonV {
    JsonV::Object(seq![("quality"@, JsonV::Text("manual"@))])
}

/// An echo canceller section from before the mode existed, switched off.
pub open spec fn echo_off_without_mode(m: Seq<(Seq<char>, JsonV)>) -> bool {
    match lookup(m, "echo_cancel"@) {
        Some(JsonV::Object(e)) => lookup(e, "mode"@) is None && lookup(e, "enabled"@) == Some(
            JsonV::Bool(false),
        ),
        _ => false,
    }
}

/// A file from before the quality choice existed that names a model.
pub open spec fn model_without_quality(m: Seq<(Seq<char>, JsonV)>) -> bool {
    lookup(m, "quality"@) is None && match lookup(m, "noise_reduction"@) {
        Some(JsonV::Object(n)) => lookup(n, "model"@) is Some,
        _ => false,
    }
}

/// The members without those named `k`.
pub open spec fn without_member(m: Seq<(Seq<char>, JsonV)>, k: Seq<char>) -> Seq<
    (Seq<char>, JsonV),
>
    decreases m.len(),
{
    if m.len() == 0 {
        m
    } else if m[0].0 == k {
        without_member(m.subrange(1, m.len() as int), k)
    } else {
        seq![m[0]] + without_member(m.subrange(1, m.len() as int), k)
    }
}

/// The members with every value named `k` replaced by `v`.
pub open spec fn replace_member(m: Seq<(Seq<char>, JsonV)>, k: Seq<char>, v: JsonV) -> Seq<
    (Seq<char>, JsonV),
>
    decreases m.len(),
{
    if m.len() == 0 {
        m
    } else if m[0].0 == k {
        seq![(k, v)] + replace_member(m.subrange(1, m.len() as int), k, v)
    } else {
        seq![m[0]] + replace_member(m.subrange(1, m.len() as int), k, v)
    }
}

/// The value without the output filter's retired routing list.
pub open spec fn without_routed_apps(v: JsonV) -> JsonV {
    match v {
        JsonV::Object(m) => match lookup(m, "output_filter"@) {
            Some(JsonV::Object(o)) => JsonV::Object(
                replace_member(m, "output_filter"@, JsonV::Object(without_member(o, "routed_apps"@))),
            ),
            _ => v,
        },
        _ => v,
    }
}

/// A stored settings value brought up to date, in the order the upgrades
/// were introduced; anything but an object is left as it is.
pub open spec fn upgraded(v: JsonV) -> JsonV {
    match v {
        JsonV::Object(m) => {
            let v1 = if echo_off_without_mode(m) {
                overlay_v(v, echo_off_patch())
            } else {
                v
            };
            let v2 = match v1 {
                JsonV::Object(m1) => if model_without_quality(m1) {
                    overlay_v(v1, manual_patch())
                } else {
                    v1
                },
                _ => v1,
            };
            without_routed_apps(v2)
        },
        _ => v,
    }
}

/// Where member `k` is, if the members name it.
fn member_index(m: &Vec<(String, Json)>, k: &str) -> (r: Option<usize>)
    ensures
        match r {
            Some(i) => i < m.len() && m@[i as int].0@ == k@ && lookup(jms(m@), k@) == Some(
                jv(m@[i as int].1),
            ),
            None => lookup(jms(m@), k@) is None,
        },
{
    proof {
        lemma_jms(m@);
        assert(jms(m@).skip(0) =~= jms(m@));
    }
    let key = to_chars(k);
    let mut t: usize = 0;
    while t < m.len()
        invariant
            t <= m.len(),
            key@ == k@,
            jms(m@).len() == m.len(),
            forall|x: int| 0 <= x < m.len() ==> #[trigger] jms(m@)[x] == (m@[x].0@, jv(m@[x].1)),
            lookup(jms(m@), k@) == lookup(jms(m@).skip(t as int), k@),
        decreases m.len() - t,
    {
        let ghost rest = jms(m@).skip(t as int);
        proof {
            assert(rest[0] == jms(m@)[t as int]);
            assert(rest.drop_first() =~= jms(m@).skip(t + 1));
        }
        let name = to_chars(m[t].0.as_str());
        if eq_v(&name, &key) {
            return Some(t);
        }
        t = t + 1;
    }
    proof {
        assert(jms(m@).skip(t as int).len() == 0);
    }
    None
}

/// The members from `i` on, without those named `k`.
fn without_from(m: &Vec<(String, Json)>, i: usize, k: &str) -> (r: Vec<(String, Json)>)
    requires
        i <= m.len(),
    ensures
        jms(r@) == without_member(jms(m@).subrange(i as int, m.len() as int), k@),
    decreases m.len() - i,
{
    proof {
        lemma_jms(m@);
    }
    let ghost s = jms(m@).subrange(i as int, m.len() as int);
    if i == m.len() {
        let out: Vec<(String, Json)> = Vec::new();
        proof {
            lemma_jms(out@);
            assert(jms(out@) =~= s);
        }
        return out;
    }
    proof {
        assert(s[0] == (m@[i as int].0@, jv(m@[i as int].1)));
        assert(s.subrange(1, s.len() as int) =~= jms(m@).subrange(i + 1, m.len() as int));
    }
    let rest = without_from(m, i + 1, k);
    let name = to_chars(m[i].0.as_str());
    let key = to_chars(k);
    if eq_v(&name, &key) {
        rest
    } else {
        let head = (m[i].0.clone(), m[i].1.copy());
        let mut out = rest;
        out.insert(0, head);
        proof {
            lemma_jms_cons(head, rest@);
        }
        out
    }
}

/// The members from `i` on, with every value named `k` replaced by `v`.
fn replace_from(m: &Vec<(String, Json)>, i: usize, k: &str, v: &Json) -> (r: Vec<(String, Json)>)
    requires
        i <= m.len(),
    ensures
        jms(r@) == replace_member(jms(m@).subrange(i as int, m.len() as int), k@, jv(*v)),
    decreases m.len() - i,
{
    proof {
        lemma_jms(m@);
    }
    let ghost s = jms(m@).subrange(i as int, m.len() as int);
    if i == m.len() {
        let out: Vec<(String, Json)> = Vec::new();
        proof {
            lemma_jms(out@);
            assert(jms(out@) =~= s);
        }
        return out;
    }
    proof {
        assert(s[0] == (m@[i as int].0@, jv(m@[i as int].1)));
        assert(s.subrange(1, s.len() as int) =~= jms(m@).subrange(i + 1, m.len() as int));
    }
    let rest = replace_from(m, i + 1, k, v);
    let name = to_chars(m[i].0.as_str());
    let key = to_chars(k);
    let head = if eq_v(&name, &key) {
        (k.to_string(), v.copy())
    } else {
        (m[i].0.clone(), m[i].1.copy())
    };
    let mut out = rest;
    out.insert(0, head);
    proof {
        lemma_jms_cons(head, rest@);
    }
    out
}

/// A one-member object `{k: v}`.
fn single(k: &str, v: Json) -> (r: Json)
    ensures
        jv(r) == JsonV::Object(seq![(k@, jv(v))]),
{
    let mut members: Vec<(String, Json)> = Vec::new();
    let entry = (k.to_string(), v);
    members.push(entry);
    proof {
        lemma_jms(members@);
        assert(jms(members@) =~= seq![(k@, jv(entry.1))]);
    }
    Json::Object(members)
}

/// [`echo_off_without_mode`] on members.
fn echo_off_without_mode_v(m: &Vec<(String, Json)>) -> (r: bool)
    ensures
        r == echo_off_without_mode(jms(m@)),
{
    match member_index(m, "echo_cancel") {
        Some(i) => match &m[i].1 {
            Json::Object(e) => {
                assert(jv(m@[i as int].1) == JsonV::Object(jms(e@)));
                if member_index(e, "mode").is_some() {
                    return false;
                }
                match member_index(e, "enabled") {
                    Some(j) => match &e[j].1 {
                        Json::Bool(b) => !*b,
                        _ => false,
                    },
                    None => false,
                }
            },
            _ => false,
        },
        None => false,
    }
}

/// [`model_without_quality`] on members.
fn model_without_quality_v(m: &Vec<(String, Json)>) -> (r: bool)
    ensures
        r == model_without_quality(jms(m@)),
{
    if member_index(m, "quality").is_some() {
        return false;
    }
    match member_index(m, "noise_reduction") {
        Some(i) => match &m[i].1 {
            Json::Object(n) => {
                assert(jv(m@[i as int].1) == JsonV::Object(jms(n@)));
                member_index(n, "model").is_some()
            },
            _ => false,
        },
        None => false,
    }
}

/// [`without_routed_apps`] on values.
fn without_routed_apps_v(v: Json) -> (r: Json)
    ensures
        jv(r) == without_routed_apps(jv(v)),
{
    let replacement: Option<Json> = match &v {
        Json::Object(m) => match member_index(m, "output_filter") {
            Some(i) => match &m[i].1 {
                Json::Object(o) => {
                    assert(jv(m@[i as int].1) == JsonV::Object(jms(o@)));
                    let kept = without_from(o, 0, "routed_apps");
                    proof {
                        lemma_jms(o@);
                        assert(jms(o@).subrange(0, o.len() as int) =~= jms(o@));
                    }
                    let output = Json::Object(kept);
                    let members = replace_from(m, 0, "output_filter", &output);
                    proof {
                        lemma_jms(m@);
                        assert(jms(m@).subrange(0, m.len() as int) =~= jms(m@));
                    }
                    Some(Json::Object(members))
                },
                _ => None,
            },
            None => None,
        },
        _ => None,
    };
    match replacement {
        Some(r) => r,
        None => v,
    }
}

/// A stored settings value brought up to date: an echo canceller switched
/// off before it had a mode gets the mode `off`, a file that names a model
/// but no quality choice gets `manual`, and the output filter loses its
/// retired `routed_apps` list.
pub fn upgrade_stored(value: &Json) -> (r: Json)
    ensures
        jv(r) == upgraded(jv(*value)),
{
    let m = match value {
        Json::Object(m) => m,
        _ => return value.copy(),
    };
    let v1 = if echo_off_without_mode_v(m) {
        let patch = single("echo_cancel", single("mode", Json::Text("off".to_string())));
        overlay(value, &patch)
    } else {
        value.copy()
    };
    let v2 = match &v1 {
        Json::Object(m1) => if model_without_quality_v(m1) {
            let patch = single("quality", Json::Text("manual".to_string()));
            Some(overlay(&v1, &patch))
        } else {
            None
        },
        _ => None,
    };
    let v2 = match v2 {
        Some(v) => v,
        None => v1,
    };
    without_routed_apps_v(v2)
}

} // verus!
