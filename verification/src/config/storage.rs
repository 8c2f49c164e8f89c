//! The settings file as a JSON tree, and the merges that keep edits made
//! elsewhere: writing the known settings over the stored file, and the
//! three-way merge of two edits of one base.
use vstd::prelude::*;

use crate::text::{extend_str, from_chars, to_chars};

verus! {

/// A JSON value. Numbers are kept as their text.
#[derive(Debug)]
pub enum Json {
    Null,
    Bool(bool),
    Number(String),
    Text(String),
    Array(Vec<Json>),
    /// Members in order, each key once.
    Object(Vec<(String, Json)>),
}

/// A JSON value as mathematics sees it.
pub enum JsonV {
    Null,
    Bool(bool),
    Number(Seq<char>),
    Text(Seq<char>),
    Array(Seq<JsonV>),
    Object(Seq<(Seq<char>, JsonV)>),
}

pub open spec fn jv(j: Json) -> JsonV
    decreases j,
{
    match j {
        Json::Null => JsonV::Null,
        Json::Bool(b) => JsonV::Bool(b),
        Json::Number(n) => JsonV::Number(n@),
        Json::Text(t) => JsonV::Text(t@),
        Json::Array(v) => JsonV::Array(jvs(v@)),
        Json::Object(m) => JsonV::Object(jms(m@)),
    }
}

pub open spec fn jvs(s: Seq<Json>) -> Seq<JsonV>
    decreases s,
{
    if s.len() == 0 {
        Seq::empty()
    } else {
        seq![jv(s[0])] + jvs(s.subrange(1, s.len() as int))
    }
}

pub open spec fn jms(s: Seq<(String, Json)>) -> Seq<(Seq<char>, JsonV)>
    decreases s,
{
    if s.len() == 0 {
        Seq::empty()
    } else {
        seq![(s[0].0@, jv(s[0].1))] + jms(s.subrange(1, s.len() as int))
    }
}

proof fn lemma_jvs(s: Seq<Json>)
    ensures
        jvs(s).len() == s.len(),
        forall|i: int| 0 <= i < s.len() ==> #[trigger] jvs(s)[i] == jv(s[i]),
    decreases s.len(),
{
    if s.len() > 0 {
        let rest = s.subrange(1, s.len() as int);
        lemma_jvs(rest);
        assert forall|i: int| 0 <= i < s.len() implies #[trigger] jvs(s)[i] == jv(s[i]) by {
            if i > 0 {
                assert(rest[i - 1] == s[i]);
            }
        }
    }
}

pub(crate) proof fn lemma_jms(s: Seq<(String, Json)>)
    ensures
        jms(s).len() == s.len(),
        forall|i: int| 0 <= i < s.len() ==> #[trigger] jms(s)[i] == (s[i].0@, jv(s[i].1)),
    decreases s.len(),
{
    if s.len() > 0 {
        let rest = s.subrange(1, s.len() as int);
        lemma_jms(rest);
        assert forall|i: int| 0 <= i < s.len() implies #[trigger] jms(s)[i] == (s[i].0@, jv(s[i].1)) by {
            if i > 0 {
                assert(rest[i - 1] == s[i]);
            }
        }
    }
}

fn text_eq(a: &String, b: &String) -> (r: bool)
    ensures
        r == (a@ == b@),
{
    let x = crate::text::to_chars(a.as_str());
    let y = crate::text::to_chars(b.as_str());
    crate::text::eq_v(&x, &y)
}

impl Json {
    /// Whether two values are the same JSON.
    pub fn same(&self, other: &Json) -> (r: bool)
        ensures
            r == (jv(*self) == jv(*other)),
        decreases self,
    {
        match (self, other) {
            (Json::Null, Json::Null) => true,
            (Json::Bool(a), Json::Bool(b)) => *a == *b,
            (Json::Number(a), Json::Number(b)) => text_eq(a, b),
            (Json::Text(a), Json::Text(b)) => text_eq(a, b),
            (Json::Array(a), Json::Array(b)) => {
                proof {
                    lemma_jvs(a@);
                    lemma_jvs(b@);
                }
                if a.len() != b.len() {
                    return false;
                }
                let mut i: usize = 0;
                while i < a.len()
                    invariant
                        i <= a.len(),
                        a.len() == b.len(),
                        jvs(a@).len() == a.len(),
                        jvs(b@).len() == b.len(),
                        forall|k: int| 0 <= k < a.len() ==> #[trigger] jvs(a@)[k] == jv(a@[k]),
                        forall|k: int| 0 <= k < b.len() ==> #[trigger] jvs(b@)[k] == jv(b@[k]),
                        forall|k: int| 0 <= k < i ==> jvs(a@)[k] == jvs(b@)[k],
                        *self == Json::Array(*a),
                        *other == Json::Array(*b),
                    decreases a.len() - i,
                {
                    proof {
                        vstd::std_specs::vec::axiom_vec_index_decreases(*a, i as int);
                    }
                    if !a[i].same(&b[i]) {
                        assert(jvs(a@)[i as int] != jvs(b@)[i as int]);
                        assert(jv(*self) == JsonV::Array(jvs(a@)));
                        assert(jv(*other) == JsonV::Array(jvs(b@)));
                        return false;
                    }
                    i = i + 1;
                }
                assert(jvs(a@) =~= jvs(b@));
                true
            },
            (Json::Object(a), Json::Object(b)) => {
                proof {
                    lemma_jms(a@);
                    lemma_jms(b@);
                }
                if a.len() != b.len() {
                    return false;
                }
                let mut i: usize = 0;
                while i < a.len()
                    invariant
                        i <= a.len(),
                        a.len() == b.len(),
                        jms(a@).len() == a.len(),
                        jms(b@).len() == b.len(),
                        forall|k: int| 0 <= k < a.len() ==> #[trigger] jms(a@)[k] == (a@[k].0@, jv(a@[k].1)),
                        forall|k: int| 0 <= k < b.len() ==> #[trigger] jms(b@)[k] == (b@[k].0@, jv(b@[k].1)),
                        forall|k: int| 0 <= k < i ==> jms(a@)[k] == jms(b@)[k],
                        *self == Json::Object(*a),
                        *other == Json::Object(*b),
                    decreases a.len() - i,
                {
                    proof {
                        vstd::std_specs::vec::axiom_vec_index_decreases(*a, i as int);
                    }
                    if !text_eq(&a[i].0, &b[i].0) {
                        assert(jms(a@)[i as int] != jms(b@)[i as int]);
                        assert(jv(*self) == JsonV::Object(jms(a@)));
                        assert(jv(*other) == JsonV::Object(jms(b@)));
                        return false;
                    }
                    if !a[i].1.same(&b[i].1) {
                        assert(jms(a@)[i as int] != jms(b@)[i as int]);
                        assert(jv(*self) == JsonV::Object(jms(a@)));
                        assert(jv(*other) == JsonV::Object(jms(b@)));
                        return false;
                    }
                    i = i + 1;
                }
                assert(jms(a@) =~= jms(b@));
                true
            },
            _ => false,
        }
    }
}

impl Json {
    /// A copy of the value.
    pub fn copy(&self) -> (r: Json)
        ensures
            jv(r) == jv(*self),
        decreases self,
    {
        match self {
            Json::Null => Json::Null,
            Json::Bool(b) => Json::Bool(*b),
            Json::Number(n) => Json::Number(n.clone()),
            Json::Text(t) => Json::Text(t.clone()),
            Json::Array(a) => {
                let mut out: Vec<Json> = Vec::new();
                let mut i: usize = 0;
                proof {
                    lemma_jvs(a@);
                }
                while i < a.len()
                    invariant
                        i <= a.len(),
                        out.len() == i,
                        *self == Json::Array(*a),
                        jv(*self) == JsonV::Array(jvs(a@)),
                        forall|k: int| 0 <= k < i ==> jv(#[trigger] out@[k]) == jv(a@[k]),
                    decreases a.len() - i,
                {
                    proof {
                        vstd::std_specs::vec::axiom_vec_index_decreases(*a, i as int);
                    }
                    let c = a[i].copy();
                    out.push(c);
                    i = i + 1;
                }
                proof {
                    lemma_jvs(out@);
                    lemma_jvs(a@);
                    assert(jvs(out@) =~= jvs(a@));
                }
                Json::Array(out)
            },
            Json::Object(m) => {
                let mut out: Vec<(String, Json)> = Vec::new();
                let mut i: usize = 0;
                while i < m.len()
                    invariant
                        i <= m.len(),
                        out.len() == i,
                        *self == Json::Object(*m),
                        jv(*self) == JsonV::Object(jms(m@)),
                        forall|k: int| 0 <= k < i ==> (#[trigger] out@[k]).0@ == m@[k].0@ && jv(out@[k].1)
                            == jv(m@[k].1),
                    decreases m.len() - i,
                {
                    proof {
                        vstd::std_specs::vec::axiom_vec_index_decreases(*m, i as int);
                    }
                    let key = m[i].0.clone();
                    let value = m[i].1.copy();
                    out.push((key, value));
                    i = i + 1;
                }
                proof {
                    lemma_jms(out@);
                    lemma_jms(m@);
                    assert(jms(out@) =~= jms(m@));
                }
                Json::Object(out)
            },
        }
    }
}

// ── Keys ─────────────────────────────────────────────────────────────

/// `a` sorts before `b`, character by character, as `String`'s order.
pub open spec fn key_before(a: Seq<char>, b: Seq<char>) -> bool
    decreases a.len(),
{
    if a.len() == 0 {
        b.len() > 0
    } else if b.len() == 0 {
        false
    } else if a[0] != b[0] {
        (a[0] as int) < (b[0] as int)
    } else {
        key_before(a.drop_first(), b.drop_first())
    }
}

/// [`key_before`] on text.
pub fn key_before_v(a: &String, b: &String) -> (r: bool)
    ensures
        r == key_before(a@, b@),
{
    let x = crate::text::to_chars(a.as_str());
    let y = crate::text::to_chars(b.as_str());
    let mut i: usize = 0;
    proof {
        assert(a@.skip(0) =~= a@);
        assert(b@.skip(0) =~= b@);
    }
    while i < x.len() && i < y.len() && x[i] == y[i]
        invariant
            i <= x.len(),
            i <= y.len(),
            x@ == a@,
            y@ == b@,
            key_before(a@, b@) == key_before(a@.skip(i as int), b@.skip(i as int)),
        decreases x.len() - i,
    {
        proof {
            let sa = a@.skip(i as int);
            let sb = b@.skip(i as int);
            assert(sa.drop_first() =~= a@.skip(i + 1));
            assert(sb.drop_first() =~= b@.skip(i + 1));
        }
        i = i + 1;
    }
    if i == x.len() {
        i < y.len()
    } else if i == y.len() {
        false
    } else {
        proof {
            assert(a@.skip(i as int)[0] == x@[i as int]);
            assert(b@.skip(i as int)[0] == y@[i as int]);
        }
        x[i] < y[i]
    }
}

/// The value of the first member named `k`.
pub open spec fn lookup(m: Seq<(Seq<char>, JsonV)>, k: Seq<char>) -> Option<JsonV>
    decreases m.len(),
{
    if m.len() == 0 {
        None
    } else if m[0].0 == k {
        Some(m[0].1)
    } else {
        lookup(m.drop_first(), k)
    }
}

/// The value of member `k`, `null` when there is none.
pub open spec fn member_or_null(m: Seq<(Seq<char>, JsonV)>, k: Seq<char>) -> JsonV {
    match lookup(m, k) {
        Some(v) => v,
        None => JsonV::Null,
    }
}

pub(crate) proof fn lemma_jms_cons(h: (String, Json), rest: Seq<(String, Json)>)
    ensures
        jms(rest.insert(0, h)) == seq![(h.0@, jv(h.1))] + jms(rest),
{
    lemma_jms(rest);
    lemma_jms(rest.insert(0, h));
    assert(jms(rest.insert(0, h)) =~= seq![(h.0@, jv(h.1))] + jms(rest));
}

/// The members from `i` on, copied.
fn copy_members(m: &Vec<(String, Json)>, i: usize) -> (r: Vec<(String, Json)>)
    requires
        i <= m.len(),
    ensures
        jms(r@) == jms(m@).subrange(i as int, m.len() as int),
{
    let mut out: Vec<(String, Json)> = Vec::new();
    let mut k: usize = i;
    while k < m.len()
        invariant
            i <= k <= m.len(),
            out.len() == k - i,
            forall|t: int| 0 <= t < out.len() ==> (#[trigger] out@[t]).0@ == m@[i + t].0@ && jv(
                out@[t].1,
            ) == jv(m@[i + t].1),
        decreases m.len() - k,
    {
        let key = m[k].0.clone();
        let value = m[k].1.copy();
        out.push((key, value));
        k = k + 1;
    }
    proof {
        lemma_jms(out@);
        lemma_jms(m@);
        assert(jms(out@) =~= jms(m@).subrange(i as int, m.len() as int));
    }
    out
}

// ── Writing the known settings over the stored file ──────────────────

/// The stored value with the known one written over it: where both are
/// objects, every known member is written over the stored member of that
/// name (or added), and stored members the known value does not name are
/// kept; otherwise the known value.
pub open spec fn overlay_v(stored: JsonV, known: JsonV) -> JsonV
    decreases known, 0int,
{
    match known {
        JsonV::Object(km) => match stored {
            JsonV::Object(sm) => JsonV::Object(overlay_members(sm, km)),
            _ => known,
        },
        _ => known,
    }
}

/// [`overlay_v`] on two member lists sorted by key.
pub open spec fn overlay_members(sm: Seq<(Seq<char>, JsonV)>, km: Seq<(Seq<char>, JsonV)>) -> Seq<
    (Seq<char>, JsonV),
>
    decreases km, sm.len(),
{
    if km.len() == 0 {
        sm
    } else if sm.len() == 0 {
        km
    } else if key_before(km[0].0, sm[0].0) {
        seq![km[0]] + overlay_members(sm, km.subrange(1, km.len() as int))
    } else if key_before(sm[0].0, km[0].0) {
        seq![sm[0]] + overlay_members(sm.subrange(1, sm.len() as int), km)
    } else {
        seq![(km[0].0, overlay_v(sm[0].1, km[0].1))] + overlay_members(
            sm.subrange(1, sm.len() as int),
            km.subrange(1, km.len() as int),
        )
    }
}

fn overlay_members_from(sm: &Vec<(String, Json)>, i: usize, km: &Vec<(String, Json)>, j: usize) -> (r:
    Vec<(String, Json)>)
    requires
        i <= sm.len(),
        j <= km.len(),
    ensures
        jms(r@) == overlay_members(
            jms(sm@).subrange(i as int, sm.len() as int),
            jms(km@).subrange(j as int, km.len() as int),
        ),
    decreases km, (sm.len() - i) + (km.len() - j),
{
    proof {
        lemma_jms(sm@);
        lemma_jms(km@);
    }
    let ghost ss = jms(sm@).subrange(i as int, sm.len() as int);
    let ghost ks = jms(km@).subrange(j as int, km.len() as int);
    if j == km.len() {
        return copy_members(sm, i);
    }
    if i == sm.len() {
        return copy_members(km, j);
    }
    proof {
        assert(ss[0] == (sm@[i as int].0@, jv(sm@[i as int].1)));
        assert(ks[0] == (km@[j as int].0@, jv(km@[j as int].1)));
        assert(ks.subrange(1, ks.len() as int) =~= jms(km@).subrange(j + 1, km.len() as int));
        assert(ss.subrange(1, ss.len() as int) =~= jms(sm@).subrange(i + 1, sm.len() as int));
    }
    if key_before_v(&km[j].0, &sm[i].0) {
        let rest = overlay_members_from(sm, i, km, j + 1);
        let head = (km[j].0.clone(), km[j].1.copy());
        let mut out = rest;
        out.insert(0, head);
        proof {
            lemma_jms_cons(head, rest@);
        }
        out
    } else if key_before_v(&sm[i].0, &km[j].0) {
        let rest = overlay_members_from(sm, i + 1, km, j);
        let head = (sm[i].0.clone(), sm[i].1.copy());
        let mut out = rest;
        out.insert(0, head);
        proof {
            lemma_jms_cons(head, rest@);
        }
        out
    } else {
        proof {
            vstd::std_specs::vec::axiom_vec_index_decreases(*km, j as int);
        }
        let value = overlay(&sm[i].1, &km[j].1);
        let rest = overlay_members_from(sm, i + 1, km, j + 1);
        let head = (km[j].0.clone(), value);
        let mut out = rest;
        out.insert(0, head);
        proof {
            lemma_jms_cons(head, rest@);
        }
        out
    }
}

/// [`overlay_v`] on values.
pub fn overlay(stored: &Json, known: &Json) -> (r: Json)
    ensures
        jv(r) == overlay_v(jv(*stored), jv(*known)),
    decreases known, 0int,
{
    match known {
        Json::Object(km) => match stored {
            Json::Object(sm) => {
                assert(jv(*known) == JsonV::Object(jms(km@)));
                let members = overlay_members_from(sm, 0, km, 0);
                proof {
                    lemma_jms(sm@);
                    lemma_jms(km@);
                    assert(jms(sm@).subrange(0, sm.len() as int) =~= jms(sm@));
                    assert(jms(km@).subrange(0, km.len() as int) =~= jms(km@));
                }
                Json::Object(members)
            },
            _ => known.copy(),
        },
        _ => known.copy(),
    }
}

// ── Finding a member ─────────────────────────────────────────────────

/// [`member_or_null`] on values: a copy of member `k`, or `null`.
fn member_or_null_v(m: &Vec<(String, Json)>, k: &String) -> (r: Json)
    ensures
        jv(r) == member_or_null(jms(m@), k@),
{
    proof {
        lemma_jms(m@);
        assert(jms(m@).skip(0) =~= jms(m@));
    }
    let mut t: usize = 0;
    while t < m.len()
        invariant
            t <= m.len(),
            jms(m@).len() == m.len(),
            forall|x: int| 0 <= x < m.len() ==> #[trigger] jms(m@)[x] == (m@[x].0@, jv(m@[x].1)),
            lookup(jms(m@), k@) == lookup(jms(m@).skip(t as int), k@),
        decreases m.len() - t,
    {
        let ghost rest = jms(m@).skip(t as int);
        proof {
            assert(rest[0] == jms(m@)[t as int]);
            assert(rest.drop_first() =~= jms(m@).skip(t + 1));
        }
        if text_eq(&m[t].0, k) {
            return m[t].1.copy();
        }
        t = t + 1;
    }
    proof {
        assert(jms(m@).skip(t as int).len() == 0);
    }
    Json::Null
}

// ── The three-way merge ──────────────────────────────────────────────

/// The path of member `key` under `path`.
pub open spec fn child_path(path: Seq<char>, key: Seq<char>) -> Seq<char> {
    path + seq!['.'] + key
}

fn child_path_v(path: &String, key: &String) -> (r: String)
    ensures
        r@ == child_path(path@, key@),
{
    let mut v = to_chars(path.as_str());
    v.push('.');
    extend_str(&mut v, key.as_str());
    proof {
        assert(v@ =~= child_path(path@, key@));
    }
    from_chars(&v)
}

/// Merging `local` and `remote`, two edits of `base`: an edit on one side
/// only wins; the same edit on both sides is that edit; objects edited on
/// both sides are merged member by member; anything else edited
/// differently on both sides is a conflict at `path`.
pub open spec fn merge_v(base: JsonV, local: JsonV, remote: JsonV, path: Seq<char>) -> Result<
    JsonV,
    Seq<char>,
>
    decreases local, 0int,
{
    if local == base {
        Ok(remote)
    } else if remote == base || remote == local {
        Ok(local)
    } else {
        match base {
            JsonV::Object(bm) => match local {
                JsonV::Object(lm) => match remote {
                    JsonV::Object(rm) => match merge_members(bm, lm, rm, path) {
                        Ok(m) => Ok(JsonV::Object(m)),
                        Err(p) => Err(p),
                    },
                    _ => Err(path),
                },
                _ => Err(path),
            },
            _ => Err(path),
        }
    }
}

/// [`merge_v`] on the members of three objects, local and remote sorted by
/// key: the remote members, with each local member merged in under its
/// name; the first conflict in key order is the result.
pub open spec fn merge_members(
    bm: Seq<(Seq<char>, JsonV)>,
    lm: Seq<(Seq<char>, JsonV)>,
    rm: Seq<(Seq<char>, JsonV)>,
    path: Seq<char>,
) -> Result<Seq<(Seq<char>, JsonV)>, Seq<char>>
    decreases lm, rm.len(),
{
    if lm.len() == 0 {
        Ok(rm)
    } else if rm.len() == 0 || key_before(lm[0].0, rm[0].0) {
        match merge_v(member_or_null(bm, lm[0].0), lm[0].1, JsonV::Null, child_path(path, lm[0].0)) {
            Err(p) => Err(p),
            Ok(v) => match merge_members(bm, lm.subrange(1, lm.len() as int), rm, path) {
                Err(p) => Err(p),
                Ok(rest) => Ok(seq![(lm[0].0, v)] + rest),
            },
        }
    } else if key_before(rm[0].0, lm[0].0) {
        match merge_members(bm, lm, rm.subrange(1, rm.len() as int), path) {
            Err(p) => Err(p),
            Ok(rest) => Ok(seq![rm[0]] + rest),
        }
    } else {
        match merge_v(member_or_null(bm, lm[0].0), lm[0].1, rm[0].1, child_path(path, lm[0].0)) {
            Err(p) => Err(p),
            Ok(v) => match merge_members(
                bm,
                lm.subrange(1, lm.len() as int),
                rm.subrange(1, rm.len() as int),
                path,
            ) {
                Err(p) => Err(p),
                Ok(rest) => Ok(seq![(lm[0].0, v)] + rest),
            },
        }
    }
}

/// A result on values agrees with one on views.
pub open spec fn merged_as(r: Result<Json, String>, s: Result<JsonV, Seq<char>>) -> bool {
    match r {
        Ok(v) => s == Ok::<JsonV, Seq<char>>(jv(v)),
        Err(p) => s == Err::<JsonV, Seq<char>>(p@),
    }
}

pub open spec fn members_as(
    r: Result<Vec<(String, Json)>, String>,
    s: Result<Seq<(Seq<char>, JsonV)>, Seq<char>>,
) -> bool {
    match r {
        Ok(v) => s == Ok::<Seq<(Seq<char>, JsonV)>, Seq<char>>(jms(v@)),
        Err(p) => s == Err::<Seq<(Seq<char>, JsonV)>, Seq<char>>(p@),
    }
}

fn merge_members_from(
    bm: &Vec<(String, Json)>,
    lm: &Vec<(String, Json)>,
    i: usize,
    rm: &Vec<(String, Json)>,
    j: usize,
    path: &String,
) -> (r: Result<Vec<(String, Json)>, String>)
    requires
        i <= lm.len(),
        j <= rm.len(),
    ensures
        members_as(
            r,
            merge_members(
                jms(bm@),
                jms(lm@).subrange(i as int, lm.len() as int),
                jms(rm@).subrange(j as int, rm.len() as int),
                path@,
            ),
        ),
    decreases lm, (lm.len() - i) + (rm.len() - j),
{
    proof {
        lemma_jms(lm@);
        lemma_jms(rm@);
    }
    let ghost ls = jms(lm@).subrange(i as int, lm.len() as int);
    let ghost rs = jms(rm@).subrange(j as int, rm.len() as int);
    if i == lm.len() {
        return Ok(copy_members(rm, j));
    }
    proof {
        assert(ls[0] == (lm@[i as int].0@, jv(lm@[i as int].1)));
        assert(ls.subrange(1, ls.len() as int) =~= jms(lm@).subrange(i + 1, lm.len() as int));
        if j < rm.len() {
            assert(rs[0] == (rm@[j as int].0@, jv(rm@[j as int].1)));
            assert(rs.subrange(1, rs.len() as int) =~= jms(rm@).subrange(j + 1, rm.len() as int));
        }
        vstd::std_specs::vec::axiom_vec_index_decreases(*lm, i as int);
    }
    if j == rm.len() || key_before_v(&lm[i].0, &rm[j].0) {
        let b = member_or_null_v(bm, &lm[i].0);
        let child = child_path_v(path, &lm[i].0);
        let v = match merge_value(&b, &lm[i].1, &Json::Null, &child) {
            Err(p) => return Err(p),
            Ok(v) => v,
        };
        let mut rest = match merge_members_from(bm, lm, i + 1, rm, j, path) {
            Err(p) => return Err(p),
            Ok(rest) => rest,
        };
        let head = (lm[i].0.clone(), v);
        proof {
            lemma_jms_cons(head, rest@);
        }
        rest.insert(0, head);
        Ok(rest)
    } else if key_before_v(&rm[j].0, &lm[i].0) {
        let mut rest = match merge_members_from(bm, lm, i, rm, j + 1, path) {
            Err(p) => return Err(p),
            Ok(rest) => rest,
        };
        let head = (rm[j].0.clone(), rm[j].1.copy());
        proof {
            lemma_jms_cons(head, rest@);
        }
        rest.insert(0, head);
        Ok(rest)
    } else {
        let b = member_or_null_v(bm, &lm[i].0);
        let child = child_path_v(path, &lm[i].0);
        let v = match merge_value(&b, &lm[i].1, &rm[j].1, &child) {
            Err(p) => return Err(p),
            Ok(v) => v,
        };
        let mut rest = match merge_members_from(bm, lm, i + 1, rm, j + 1, path) {
            Err(p) => return Err(p),
            Ok(rest) => rest,
        };
        let head = (lm[i].0.clone(), v);
        proof {
            lemma_jms_cons(head, rest@);
        }
        rest.insert(0, head);
        Ok(rest)
    }
}

/// [`merge_v`] on values.
pub fn merge_value(base: &Json, local: &Json, remote: &Json, path: &String) -> (r: Result<Json, String>)
    ensures
        merged_as(r, merge_v(jv(*base), jv(*local), jv(*remote), path@)),
    decreases local, 0int,
{
    if local.same(base) {
        return Ok(remote.copy());
    }
    if remote.same(base) || remote.same(local) {
        return Ok(local.copy());
    }
    match (base, local, remote) {
        (Json::Object(bm), Json::Object(lm), Json::Object(rm)) => {
            assert(jv(*local) == JsonV::Object(jms(lm@)));
            let merged = merge_members_from(bm, lm, 0, rm, 0, path);
            proof {
                lemma_jms(lm@);
                lemma_jms(rm@);
                assert(jms(lm@).subrange(0, lm.len() as int) =~= jms(lm@));
                assert(jms(rm@).subrange(0, rm.len() as int) =~= jms(rm@));
            }
            match merged {
                Ok(m) => Ok(Json::Object(m)),
                Err(p) => Err(p),
            }
        },
        _ => Err(path.clone()),
    }
}

/// What a conflict at `path` says.
pub open spec fn conflict_text(path: Seq<char>) -> Seq<char> {
    path + " changed in another application. Reload the settings before trying again."@
}

fn conflict_message(path: &String) -> (r: String)
    ensures
        r@ == conflict_text(path@),
{
    let mut v = to_chars(path.as_str());
    extend_str(&mut v, " changed in another application. Reload the settings before trying again.");
    from_chars(&v)
}

/// Merge two edits of the settings made from the same base; a conflict
/// names the setting that both edited differently.
pub fn merge(base: &Json, local: &Json, remote: &Json) -> (r: Result<Json, String>)
    ensures
        match merge_v(jv(*base), jv(*local), jv(*remote), "settings"@) {
            Ok(v) => r is Ok && jv(r->Ok_0) == v,
            Err(p) => r is Err && r->Err_0@ == conflict_text(p),
        },
{
    let root = "settings".to_string();
    match merge_value(base, local, remote, &root) {
        Ok(v) => Ok(v),
        Err(p) => Err(conflict_message(&p)),
    }
}

// ── Rebasing an edit ─────────────────────────────────────────────────

/// `local`, an edit of `base`, carried over onto `remote`: unedited
/// values take the remote ones, objects are rebased member by member, and
/// anything edited stays as edited.
pub open spec fn rebase_v(base: JsonV, local: JsonV, remote: JsonV) -> JsonV
    decreases local, 0int,
{
    if local == base {
        remote
    } else {
        match base {
            JsonV::Object(bm) => match local {
                JsonV::Object(lm) => match remote {
                    JsonV::Object(rm) => JsonV::Object(rebase_members(bm, lm, rm)),
                    _ => local,
                },
                _ => local,
            },
            _ => local,
        }
    }
}

/// [`rebase_v`] on the members of three objects, local and remote sorted
/// by key.
pub open spec fn rebase_members(
    bm: Seq<(Seq<char>, JsonV)>,
    lm: Seq<(Seq<char>, JsonV)>,
    rm: Seq<(Seq<char>, JsonV)>,
) -> Seq<(Seq<char>, JsonV)>
    decreases lm, rm.len(),
{
    if lm.len() == 0 {
        rm
    } else if rm.len() == 0 || key_before(lm[0].0, rm[0].0) {
        seq![(lm[0].0, rebase_v(member_or_null(bm, lm[0].0), lm[0].1, JsonV::Null))]
            + rebase_members(bm, lm.subrange(1, lm.len() as int), rm)
    } else if key_before(rm[0].0, lm[0].0) {
        seq![rm[0]] + rebase_members(bm, lm, rm.subrange(1, rm.len() as int))
    } else {
        seq![(lm[0].0, rebase_v(member_or_null(bm, lm[0].0), lm[0].1, rm[0].1))] + rebase_members(
            bm,
            lm.subrange(1, lm.len() as int),
            rm.subrange(1, rm.len() as int),
        )
    }
}

fn rebase_members_from(
    bm: &Vec<(String, Json)>,
    lm: &Vec<(String, Json)>,
    i: usize,
    rm: &Vec<(String, Json)>,
    j: usize,
) -> (r: Vec<(String, Json)>)
    requires
        i <= lm.len(),
        j <= rm.len(),
    ensures
        jms(r@) == rebase_members(
            jms(bm@),
            jms(lm@).subrange(i as int, lm.len() as int),
            jms(rm@).subrange(j as int, rm.len() as int),
        ),
    decreases lm, (lm.len() - i) + (rm.len() - j),
{
    proof {
        lemma_jms(lm@);
        lemma_jms(rm@);
    }
    let ghost ls = jms(lm@).subrange(i as int, lm.len() as int);
    let ghost rs = jms(rm@).subrange(j as int, rm.len() as int);
    if i == lm.len() {
        return copy_members(rm, j);
    }
    proof {
        assert(ls[0] == (lm@[i as int].0@, jv(lm@[i as int].1)));
        assert(ls.subrange(1, ls.len() as int) =~= jms(lm@).subrange(i + 1, lm.len() as int));
        if j < rm.len() {
            assert(rs[0] == (rm@[j as int].0@, jv(rm@[j as int].1)));
            assert(rs.subrange(1, rs.len() as int) =~= jms(rm@).subrange(j + 1, rm.len() as int));
        }
        vstd::std_specs::vec::axiom_vec_index_decreases(*lm, i as int);
    }
    if j == rm.len() || key_before_v(&lm[i].0, &rm[j].0) {
        let b = member_or_null_v(bm, &lm[i].0);
        let v = rebase_value(&b, &lm[i].1, &Json::Null);
        let mut rest = rebase_members_from(bm, lm, i + 1, rm, j);
        let head = (lm[i].0.clone(), v);
        proof {
            lemma_jms_cons(head, rest@);
        }
        rest.insert(0, head);
        rest
    } else if key_before_v(&rm[j].0, &lm[i].0) {
        let mut rest = rebase_members_from(bm, lm, i, rm, j + 1);
        let head = (rm[j].0.clone(), rm[j].1.copy());
        proof {
            lemma_jms_cons(head, rest@);
        }
        rest.insert(0, head);
        rest
    } else {
        let b = member_or_null_v(bm, &lm[i].0);
        let v = rebase_value(&b, &lm[i].1, &rm[j].1);
        let mut rest = rebase_members_from(bm, lm, i + 1, rm, j + 1);
        let head = (lm[i].0.clone(), v);
        proof {
            lemma_jms_cons(head, rest@);
        }
        rest.insert(0, head);
        rest
    }
}

/// [`rebase_v`] on values.
pub fn rebase_value(base: &Json, local: &Json, remote: &Json) -> (r: Json)
    ensures
        jv(r) == rebase_v(jv(*base), jv(*local), jv(*remote)),
    decreases local, 0int,
{
    if local.same(base) {
        return remote.copy();
    }
    match (base, local, remote) {
        (Json::Object(bm), Json::Object(lm), Json::Object(rm)) => {
            assert(jv(*local) == JsonV::Object(jms(lm@)));
            let members = rebase_members_from(bm, lm, 0, rm, 0);
            proof {
                lemma_jms(lm@);
                lemma_jms(rm@);
                assert(jms(lm@).subrange(0, lm.len() as int) =~= jms(lm@));
                assert(jms(rm@).subrange(0, rm.len() as int) =~= jms(rm@));
            }
            Json::Object(members)
        },
        _ => local.copy(),
    }
}

/// Carry the settings as they are now (`current`), edited from what was
/// submitted, over onto what was settled meanwhile.
pub fn rebase_local(submitted: &Json, current: &Json, settled: &Json) -> (r: Json)
    ensures
        jv(r) == rebase_v(jv(*submitted), jv(*current), jv(*settled)),
{
    rebase_value(submitted, current, settled)
}

/// The stored settings file with the known settings written over it, so
/// that members this version does not know survive a save; `None` when
/// the stored file is not a JSON object.
pub fn preserving_unknown(stored: &Json, known: &Json) -> (r: Option<Json>)
    ensures
        match jv(*stored) {
            JsonV::Object(_) => r is Some && jv(r->Some_0) == overlay_v(jv(*stored), jv(*known)),
            _ => r is None,
        },
{
    match stored {
        Json::Object(_) => Some(overlay(stored, known)),
        _ => None,
    }
}

// ── Laws ─────────────────────────────────────────────────────────────

proof fn lemma_key_irreflexive(a: Seq<char>)
    ensures
        !key_before(a, a),
    decreases a.len(),
{
    if a.len() > 0 {
        lemma_key_irreflexive(a.drop_first());
    }
}

proof fn lemma_key_total(a: Seq<char>, b: Seq<char>)
    ensures
        a == b || key_before(a, b) || key_before(b, a),
        !(key_before(a, b) && key_before(b, a)),
    decreases a.len(),
{
    if a.len() > 0 && b.len() > 0 && a[0] == b[0] {
        lemma_key_total(a.drop_first(), b.drop_first());
        if a.drop_first() == b.drop_first() {
            assert(a =~= seq![a[0]] + a.drop_first());
            assert(b =~= seq![b[0]] + b.drop_first());
        }
    }
    if a.len() == 0 && b.len() == 0 {
        assert(a =~= b);
    }
    if a.len() > 0 && b.len() > 0 && a[0] != b[0] {
        let x = a[0];
        let y = b[0];
        assert((x as int) != (y as int));
    }
}

proof fn lemma_key_transitive(a: Seq<char>, b: Seq<char>, c: Seq<char>)
    requires
        key_before(a, b),
        key_before(b, c),
    ensures
        key_before(a, c),
    decreases a.len(),
{
    if a.len() > 0 && b.len() > 0 && c.len() > 0 && a[0] == b[0] && b[0] == c[0] {
        lemma_key_transitive(a.drop_first(), b.drop_first(), c.drop_first());
    }
}

/// Members sorted by key, each key once, as `serde_json` keeps an object.
pub open spec fn sorted_members(m: Seq<(Seq<char>, JsonV)>) -> bool {
    forall|i: int, j: int| 0 <= i < j < m.len() ==> key_before(#[trigger] m[i].0, #[trigger] m[j].0)
}

proof fn lemma_sorted_tail(m: Seq<(Seq<char>, JsonV)>)
    requires
        sorted_members(m),
        m.len() > 0,
    ensures
        sorted_members(m.subrange(1, m.len() as int)),
        m.subrange(1, m.len() as int) == m.drop_first(),
{
    let t = m.subrange(1, m.len() as int);
    assert forall|i: int, j: int| 0 <= i < j < t.len() implies key_before(#[trigger] t[i].0, #[trigger] t[j].0) by {
        assert(t[i] == m[i + 1]);
        assert(t[j] == m[j + 1]);
    }
    assert(t =~= m.drop_first());
}

/// A key before the first of sorted members is none of them.
proof fn lemma_lookup_before(m: Seq<(Seq<char>, JsonV)>, k: Seq<char>)
    requires
        sorted_members(m),
        m.len() > 0,
        key_before(k, m[0].0),
    ensures
        lookup(m, k) is None,
    decreases m.len(),
{
    lemma_key_irreflexive(k);
    assert(m[0].0 != k);
    if m.len() > 1 {
        lemma_sorted_tail(m);
        let t = m.drop_first();
        assert(t[0] == m[1]);
        assert(key_before(m[0].0, m[1].0));
        lemma_key_transitive(k, m[0].0, m[1].0);
        lemma_lookup_before(t, k);
        assert(lookup(m, k) == lookup(t, k));
    } else {
        assert(m.drop_first().len() == 0);
        assert(lookup(m.drop_first(), k) is None);
    }
}

/// Writing known members over stored ones, both sorted: a member the known
/// value names is the known one written over the stored one (or `null`),
/// and any other member is the stored one.
proof fn lemma_overlay_lookup(sm: Seq<(Seq<char>, JsonV)>, km: Seq<(Seq<char>, JsonV)>, k: Seq<char>)
    requires
        sorted_members(sm),
        sorted_members(km),
    ensures
        lookup(overlay_members(sm, km), k) == match lookup(km, k) {
            Some(kv) => Some(overlay_v(member_or_null(sm, k), kv)),
            None => lookup(sm, k),
        },
    decreases km, sm.len(),
{
    if km.len() == 0 {
    } else if sm.len() == 0 {
        assert(lookup(sm, k) is None);
        match lookup(km, k) {
            Some(kv) => {
                assert(member_or_null(sm, k) == JsonV::Null);
                lemma_lookup_overlay_null(kv);
            },
            None => {},
        }
    } else {
        let r = overlay_members(sm, km);
        let km1 = km.subrange(1, km.len() as int);
        let sm1 = sm.subrange(1, sm.len() as int);
        lemma_sorted_tail(km);
        lemma_sorted_tail(sm);
        if key_before(km[0].0, sm[0].0) {
            lemma_overlay_lookup(sm, km1, k);
            assert(r.drop_first() =~= overlay_members(sm, km1));
            if km[0].0 == k {
                lemma_lookup_before(sm, k);
                lemma_lookup_overlay_null(km[0].1);
            }
        } else if key_before(sm[0].0, km[0].0) {
            lemma_overlay_lookup(sm1, km, k);
            assert(r.drop_first() =~= overlay_members(sm1, km));
            if sm[0].0 == k {
                lemma_lookup_before(km, k);
            }
        } else {
            lemma_key_total(km[0].0, sm[0].0);
            lemma_overlay_lookup(sm1, km1, k);
            assert(r.drop_first() =~= overlay_members(sm1, km1));
        }
    }
}

proof fn lemma_lookup_overlay_null(v: JsonV)
    ensures
        overlay_v(JsonV::Null, v) == v,
{
}

/// Saving the known settings over a stored file keeps every member of the
/// file the known settings do not name, and writes every one they do,
/// whatever it was before; both objects sorted by key, as read.
pub proof fn a_save_keeps_what_it_does_not_know(
    stored: Seq<(Seq<char>, JsonV)>,
    known: Seq<(Seq<char>, JsonV)>,
    k: Seq<char>,
)
    requires
        sorted_members(stored),
        sorted_members(known),
    ensures
        lookup(known, k) is None ==> lookup(overlay_members(stored, known), k) == lookup(stored, k),
        lookup(known, k) is Some ==> lookup(overlay_members(stored, known), k) == Some(
            overlay_v(member_or_null(stored, k), lookup(known, k)->Some_0),
        ),
{
    lemma_overlay_lookup(stored, known, k);
}

/// A value that is not an object is written as it is.
pub proof fn a_plain_value_is_written_as_is(stored: JsonV, known: JsonV)
    requires
        !(known is Object),
    ensures
        overlay_v(stored, known) == known,
{
}

/// When only one side edited, the merge is that side's value; when both
/// made the same edit, it is that edit.
pub proof fn an_edit_on_one_side_wins(base: JsonV, edit: JsonV, path: Seq<char>)
    ensures
        merge_v(base, edit, base, path) == Ok::<JsonV, Seq<char>>(edit),
        merge_v(base, base, edit, path) == Ok::<JsonV, Seq<char>>(edit),
        merge_v(base, edit, edit, path) == Ok::<JsonV, Seq<char>>(edit),
{
}

/// Rebasing an unedited value gives the remote one; a value edited to
/// something that is not an object stays as edited.
pub proof fn an_unedited_value_follows_the_remote(base: JsonV, local: JsonV, remote: JsonV)
    ensures
        local == base ==> rebase_v(base, local, remote) == remote,
        local != base && !(local is Object) ==> rebase_v(base, local, remote) == local,
{
}

// ── Results stay sorted ──────────────────────────────────────────────

/// Every key of `m` sorts after `k`.
pub open spec fn keys_after(k: Seq<char>, m: Seq<(Seq<char>, JsonV)>) -> bool {
    forall|i: int| 0 <= i < m.len() ==> key_before(k, #[trigger] m[i].0)
}

proof fn lemma_keys_after_tail(k: Seq<char>, m: Seq<(Seq<char>, JsonV)>)
    requires
        keys_after(k, m),
        m.len() > 0,
    ensures
        keys_after(k, m.subrange(1, m.len() as int)),
{
    let t = m.subrange(1, m.len() as int);
    assert forall|i: int| 0 <= i < t.len() implies key_before(k, #[trigger] t[i].0) by {
        assert(t[i] == m[i + 1]);
    }
}

/// Sorted members all sort after a key before their first.
proof fn lemma_sorted_after(k: Seq<char>, m: Seq<(Seq<char>, JsonV)>)
    requires
        sorted_members(m),
        m.len() > 0,
        key_before(k, m[0].0),
    ensures
        keys_after(k, m),
{
    assert forall|i: int| 0 <= i < m.len() implies key_before(k, #[trigger] m[i].0) by {
        if i > 0 {
            assert(key_before(m[0].0, m[i].0));
            lemma_key_transitive(k, m[0].0, m[i].0);
        }
    }
}

/// A member before sorted members that all sort after it keeps them sorted.
proof fn lemma_sorted_cons(x: (Seq<char>, JsonV), rest: Seq<(Seq<char>, JsonV)>)
    requires
        sorted_members(rest),
        keys_after(x.0, rest),
    ensures
        sorted_members(seq![x] + rest),
{
    let m = seq![x] + rest;
    assert forall|i: int, j: int| 0 <= i < j < m.len() implies key_before(#[trigger] m[i].0, #[trigger] m[j].0) by {
        assert(m[j] == rest[j - 1]);
        if i > 0 {
            assert(m[i] == rest[i - 1]);
        }
    }
}

proof fn lemma_overlay_keys_after(k: Seq<char>, sm: Seq<(Seq<char>, JsonV)>, km: Seq<(Seq<char>, JsonV)>)
    requires
        keys_after(k, sm),
        keys_after(k, km),
    ensures
        keys_after(k, overlay_members(sm, km)),
    decreases km, sm.len(),
{
    if km.len() == 0 || sm.len() == 0 {
    } else {
        let r = overlay_members(sm, km);
        let km1 = km.subrange(1, km.len() as int);
        let sm1 = sm.subrange(1, sm.len() as int);
        lemma_keys_after_tail(k, km);
        lemma_keys_after_tail(k, sm);
        assert(key_before(k, km[0].0));
        assert(key_before(k, sm[0].0));
        if key_before(km[0].0, sm[0].0) {
            lemma_overlay_keys_after(k, sm, km1);
        } else if key_before(sm[0].0, km[0].0) {
            lemma_overlay_keys_after(k, sm1, km);
        } else {
            lemma_overlay_keys_after(k, sm1, km1);
        }
        assert forall|i: int| 0 <= i < r.len() implies key_before(k, #[trigger] r[i].0) by {
            if i > 0 {
                assert(r[i] == r.drop_first()[i - 1]);
            }
        }
    }
}

/// Writing sorted known members over sorted stored ones gives sorted
/// members, each key once.
pub proof fn a_saved_object_stays_sorted(sm: Seq<(Seq<char>, JsonV)>, km: Seq<(Seq<char>, JsonV)>)
    requires
        sorted_members(sm),
        sorted_members(km),
    ensures
        sorted_members(overlay_members(sm, km)),
    decreases km, sm.len(),
{
    if km.len() == 0 || sm.len() == 0 {
    } else {
        let km1 = km.subrange(1, km.len() as int);
        let sm1 = sm.subrange(1, sm.len() as int);
        lemma_sorted_tail(km);
        lemma_sorted_tail(sm);
        if key_before(km[0].0, sm[0].0) {
            a_saved_object_stays_sorted(sm, km1);
            lemma_sorted_after(km[0].0, sm);
            assert(keys_after(km[0].0, km1)) by {
                assert forall|i: int| 0 <= i < km1.len() implies key_before(km[0].0, #[trigger] km1[i].0) by {
                    assert(km1[i] == km[i + 1]);
                }
            }
            lemma_overlay_keys_after(km[0].0, sm, km1);
            lemma_sorted_cons(km[0], overlay_members(sm, km1));
        } else if key_before(sm[0].0, km[0].0) {
            a_saved_object_stays_sorted(sm1, km);
            lemma_sorted_after(sm[0].0, km);
            assert(keys_after(sm[0].0, sm1)) by {
                assert forall|i: int| 0 <= i < sm1.len() implies key_before(sm[0].0, #[trigger] sm1[i].0) by {
                    assert(sm1[i] == sm[i + 1]);
                }
            }
            lemma_overlay_keys_after(sm[0].0, sm1, km);
            lemma_sorted_cons(sm[0], overlay_members(sm1, km));
        } else {
            lemma_key_total(km[0].0, sm[0].0);
            a_saved_object_stays_sorted(sm1, km1);
            let k = km[0].0;
            assert(keys_after(k, km1)) by {
                assert forall|i: int| 0 <= i < km1.len() implies key_before(k, #[trigger] km1[i].0) by {
                    assert(km1[i] == km[i + 1]);
                }
            }
            assert(keys_after(k, sm1)) by {
                assert forall|i: int| 0 <= i < sm1.len() implies key_before(k, #[trigger] sm1[i].0) by {
                    assert(sm1[i] == sm[i + 1]);
                }
            }
            lemma_overlay_keys_after(k, sm1, km1);
            lemma_sorted_cons((k, overlay_v(sm[0].1, km[0].1)), overlay_members(sm1, km1));
        }
    }
}

proof fn lemma_tail_after(m: Seq<(Seq<char>, JsonV)>)
    requires
        sorted_members(m),
        m.len() > 0,
    ensures
        keys_after(m[0].0, m.subrange(1, m.len() as int)),
{
    let t = m.subrange(1, m.len() as int);
    assert forall|i: int| 0 <= i < t.len() implies key_before(m[0].0, #[trigger] t[i].0) by {
        assert(t[i] == m[i + 1]);
    }
}

proof fn lemma_merge_keys_after(
    k: Seq<char>,
    bm: Seq<(Seq<char>, JsonV)>,
    lm: Seq<(Seq<char>, JsonV)>,
    rm: Seq<(Seq<char>, JsonV)>,
    path: Seq<char>,
)
    requires
        keys_after(k, lm),
        keys_after(k, rm),
    ensures
        merge_members(bm, lm, rm, path) matches Ok(m) ==> keys_after(k, m),
    decreases lm, rm.len(),
{
    if lm.len() == 0 {
    } else {
        let lm1 = lm.subrange(1, lm.len() as int);
        lemma_keys_after_tail(k, lm);
        assert(key_before(k, lm[0].0));
        if rm.len() > 0 {
            lemma_keys_after_tail(k, rm);
        }
        let rm1 = if rm.len() > 0 {
            rm.subrange(1, rm.len() as int)
        } else {
            rm
        };
        if rm.len() == 0 || key_before(lm[0].0, rm[0].0) {
            lemma_merge_keys_after(k, bm, lm1, rm, path);
        } else if key_before(rm[0].0, lm[0].0) {
            lemma_merge_keys_after(k, bm, lm, rm1, path);
        } else {
            lemma_merge_keys_after(k, bm, lm1, rm1, path);
        }
        match merge_members(bm, lm, rm, path) {
            Ok(m) => {
                assert forall|i: int| 0 <= i < m.len() implies key_before(k, #[trigger] m[i].0) by {
                    if i > 0 {
                        assert(m[i] == m.drop_first()[i - 1]);
                    }
                }
            },
            Err(_) => {},
        }
    }
}

/// Merging sorted members gives sorted members, each key once.
pub proof fn a_merged_object_stays_sorted(
    bm: Seq<(Seq<char>, JsonV)>,
    lm: Seq<(Seq<char>, JsonV)>,
    rm: Seq<(Seq<char>, JsonV)>,
    path: Seq<char>,
)
    requires
        sorted_members(lm),
        sorted_members(rm),
    ensures
        merge_members(bm, lm, rm, path) matches Ok(m) ==> sorted_members(m),
    decreases lm, rm.len(),
{
    if lm.len() == 0 {
    } else {
        let lm1 = lm.subrange(1, lm.len() as int);
        lemma_sorted_tail(lm);
        lemma_tail_after(lm);
        if rm.len() == 0 || key_before(lm[0].0, rm[0].0) {
            a_merged_object_stays_sorted(bm, lm1, rm, path);
            if rm.len() > 0 {
                lemma_sorted_after(lm[0].0, rm);
            }
            lemma_merge_keys_after(lm[0].0, bm, lm1, rm, path);
            match merge_members(bm, lm, rm, path) {
                Ok(m) => {
                    let rest = merge_members(bm, lm1, rm, path)->Ok_0;
                    lemma_sorted_cons(m[0], rest);
                    assert(m =~= seq![m[0]] + rest);
                },
                Err(_) => {},
            }
        } else if key_before(rm[0].0, lm[0].0) {
            let rm1 = rm.subrange(1, rm.len() as int);
            lemma_sorted_tail(rm);
            lemma_tail_after(rm);
            a_merged_object_stays_sorted(bm, lm, rm1, path);
            lemma_sorted_after(rm[0].0, lm);
            lemma_merge_keys_after(rm[0].0, bm, lm, rm1, path);
            match merge_members(bm, lm, rm, path) {
                Ok(m) => {
                    let rest = merge_members(bm, lm, rm1, path)->Ok_0;
                    lemma_sorted_cons(rm[0], rest);
                    assert(m =~= seq![rm[0]] + rest);
                },
                Err(_) => {},
            }
        } else {
            let rm1 = rm.subrange(1, rm.len() as int);
            lemma_key_total(lm[0].0, rm[0].0);
            lemma_sorted_tail(rm);
            lemma_tail_after(rm);
            a_merged_object_stays_sorted(bm, lm1, rm1, path);
            lemma_merge_keys_after(lm[0].0, bm, lm1, rm1, path);
            match merge_members(bm, lm, rm, path) {
                Ok(m) => {
                    let rest = merge_members(bm, lm1, rm1, path)->Ok_0;
                    lemma_sorted_cons(m[0], rest);
                    assert(m =~= seq![m[0]] + rest);
                },
                Err(_) => {},
            }
        }
    }
}

proof fn lemma_rebase_keys_after(
    k: Seq<char>,
    bm: Seq<(Seq<char>, JsonV)>,
    lm: Seq<(Seq<char>, JsonV)>,
    rm: Seq<(Seq<char>, JsonV)>,
)
    requires
        keys_after(k, lm),
        keys_after(k, rm),
    ensures
        keys_after(k, rebase_members(bm, lm, rm)),
    decreases lm, rm.len(),
{
    if lm.len() == 0 {
    } else {
        let lm1 = lm.subrange(1, lm.len() as int);
        lemma_keys_after_tail(k, lm);
        assert(key_before(k, lm[0].0));
        if rm.len() > 0 {
            lemma_keys_after_tail(k, rm);
        }
        let rm1 = if rm.len() > 0 {
            rm.subrange(1, rm.len() as int)
        } else {
            rm
        };
        if rm.len() == 0 || key_before(lm[0].0, rm[0].0) {
            lemma_rebase_keys_after(k, bm, lm1, rm);
        } else if key_before(rm[0].0, lm[0].0) {
            lemma_rebase_keys_after(k, bm, lm, rm1);
        } else {
            lemma_rebase_keys_after(k, bm, lm1, rm1);
        }
        let m = rebase_members(bm, lm, rm);
        assert forall|i: int| 0 <= i < m.len() implies key_before(k, #[trigger] m[i].0) by {
            if i > 0 {
                assert(m[i] == m.drop_first()[i - 1]);
            }
        }
    }
}

/// Rebasing sorted members gives sorted members, each key once.
pub proof fn a_rebased_object_stays_sorted(
    bm: Seq<(Seq<char>, JsonV)>,
    lm: Seq<(Seq<char>, JsonV)>,
    rm: Seq<(Seq<char>, JsonV)>,
)
    requires
        sorted_members(lm),
        sorted_members(rm),
    ensures
        sorted_members(rebase_members(bm, lm, rm)),
    decreases lm, rm.len(),
{
    if lm.len() == 0 {
    } else {
        let lm1 = lm.subrange(1, lm.len() as int);
        lemma_sorted_tail(lm);
        lemma_tail_after(lm);
        let m = rebase_members(bm, lm, rm);
        if rm.len() == 0 || key_before(lm[0].0, rm[0].0) {
            a_rebased_object_stays_sorted(bm, lm1, rm);
            if rm.len() > 0 {
                lemma_sorted_after(lm[0].0, rm);
            }
            lemma_rebase_keys_after(lm[0].0, bm, lm1, rm);
            let rest = rebase_members(bm, lm1, rm);
            lemma_sorted_cons(m[0], rest);
            assert(m =~= seq![m[0]] + rest);
        } else if key_before(rm[0].0, lm[0].0) {
            let rm1 = rm.subrange(1, rm.len() as int);
            lemma_sorted_tail(rm);
            lemma_tail_after(rm);
            a_rebased_object_stays_sorted(bm, lm, rm1);
            lemma_sorted_after(rm[0].0, lm);
            lemma_rebase_keys_after(rm[0].0, bm, lm, rm1);
            let rest = rebase_members(bm, lm, rm1);
            lemma_sorted_cons(rm[0], rest);
            assert(m =~= seq![rm[0]] + rest);
        } else {
            let rm1 = rm.subrange(1, rm.len() as int);
            lemma_key_total(lm[0].0, rm[0].0);
            lemma_sorted_tail(rm);
            lemma_tail_after(rm);
            a_rebased_object_stays_sorted(bm, lm1, rm1);
            lemma_rebase_keys_after(lm[0].0, bm, lm1, rm1);
            let rest = rebase_members(bm, lm1, rm1);
            lemma_sorted_cons(m[0], rest);
            assert(m =~= seq![m[0]] + rest);
        }
    }
}

/// What a member of a merge holds: a member local names is the merge of
/// the local value with the remote one of that name (or `null`) over the
/// base one (or `null`); any other member is the remote one.
pub open spec fn merged_member(
    bm: Seq<(Seq<char>, JsonV)>,
    lm: Seq<(Seq<char>, JsonV)>,
    rm: Seq<(Seq<char>, JsonV)>,
    path: Seq<char>,
    k: Seq<char>,
) -> Option<JsonV> {
    match lookup(lm, k) {
        Some(lv) => match merge_v(member_or_null(bm, k), lv, member_or_null(rm, k), child_path(path, k)) {
            Ok(v) => Some(v),
            Err(_) => None,
        },
        None => lookup(rm, k),
    }
}

/// A merge of sorted local and remote members that succeeds holds, under
/// each name, the merge of the two sides' values of that name, and keeps
/// the remote members local does not name.
pub proof fn each_member_is_merged_under_its_name(
    bm: Seq<(Seq<char>, JsonV)>,
    lm: Seq<(Seq<char>, JsonV)>,
    rm: Seq<(Seq<char>, JsonV)>,
    path: Seq<char>,
    k: Seq<char>,
)
    requires
        sorted_members(lm),
        sorted_members(rm),
    ensures
        merge_members(bm, lm, rm, path) matches Ok(m) ==> lookup(m, k) == merged_member(
            bm,
            lm,
            rm,
            path,
            k,
        ),
    decreases lm, rm.len(),
{
    if lm.len() == 0 {
        assert(lookup(lm, k) is None);
    } else {
        let lm1 = lm.subrange(1, lm.len() as int);
        lemma_sorted_tail(lm);
        if rm.len() == 0 || key_before(lm[0].0, rm[0].0) {
            each_member_is_merged_under_its_name(bm, lm1, rm, path, k);
            if lm[0].0 == k {
                if rm.len() > 0 {
                    lemma_lookup_before(rm, k);
                }
            }
            match merge_members(bm, lm, rm, path) {
                Ok(m) => {
                    let rest = merge_members(bm, lm1, rm, path)->Ok_0;
                    assert(m.drop_first() =~= rest);
                },
                Err(_) => {},
            }
        } else if key_before(rm[0].0, lm[0].0) {
            let rm1 = rm.subrange(1, rm.len() as int);
            lemma_sorted_tail(rm);
            each_member_is_merged_under_its_name(bm, lm, rm1, path, k);
            if rm[0].0 == k {
                lemma_lookup_before(lm, k);
            }
            match merge_members(bm, lm, rm, path) {
                Ok(m) => {
                    let rest = merge_members(bm, lm, rm1, path)->Ok_0;
                    assert(m.drop_first() =~= rest);
                },
                Err(_) => {},
            }
        } else {
            let rm1 = rm.subrange(1, rm.len() as int);
            lemma_key_total(lm[0].0, rm[0].0);
            lemma_sorted_tail(rm);
            each_member_is_merged_under_its_name(bm, lm1, rm1, path, k);
            match merge_members(bm, lm, rm, path) {
                Ok(m) => {
                    let rest = merge_members(bm, lm1, rm1, path)->Ok_0;
                    assert(m.drop_first() =~= rest);
                },
                Err(_) => {},
            }
        }
    }
}

} // verus!
