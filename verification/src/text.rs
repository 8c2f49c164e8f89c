//! Character-level text primitives with their specifications.
//!
//! Every parser and renderer of the library works on `Seq<char>` in its
//! contracts and on `Vec<char>` in code. The spec functions here say what
//! the corresponding `str` methods of std compute (`lines`, `trim`,
//! `strip_prefix`, `find`, `u32::from_str`, decimal formatting), and the
//! executable functions are proved to compute exactly that.
use vstd::prelude::*;

verus! {

/// The characters an optional vector holds.
pub open spec fn opt_chars(o: Option<Vec<char>>) -> Option<Seq<char>> {
    match o {
        Some(v) => Some(v@),
        None => None,
    }
}

/// The characters an optional string slice holds.
pub open spec fn opt_str(o: Option<&str>) -> Option<Seq<char>> {
    match o {
        Some(v) => Some(v@),
        None => None,
    }
}

/// The characters of each vector in a list.
pub open spec fn lines_view(v: Seq<Vec<char>>) -> Seq<Seq<char>> {
    v.map_values(|x: Vec<char>| x@)
}

// ── Whitespace and trimming ──────────────────────────────────────────

/// Unicode `White_Space`, the property `char::is_whitespace` tests.
pub open spec fn is_ws(c: char) -> bool {
    let u = c as u32;
    ||| 0x9 <= u <= 0xd
    ||| u == 0x20
    ||| u == 0x85
    ||| u == 0xa0
    ||| u == 0x1680
    ||| 0x2000 <= u <= 0x200a
    ||| u == 0x2028
    ||| u == 0x2029
    ||| u == 0x202f
    ||| u == 0x205f
    ||| u == 0x3000
}

/// First index at or after `i` that does not hold whitespace.
pub open spec fn ws_fwd(s: Seq<char>, i: int) -> int
    decreases s.len() - i,
{
    if 0 <= i < s.len() && is_ws(s[i]) {
        ws_fwd(s, i + 1)
    } else {
        i
    }
}

/// End of `s[..j]` once trailing whitespace is dropped.
pub open spec fn ws_back(s: Seq<char>, j: int) -> int
    decreases j,
{
    if 0 < j <= s.len() && is_ws(s[j - 1]) {
        ws_back(s, j - 1)
    } else {
        j
    }
}

/// `str::trim_start`.
pub open spec fn trim_start(s: Seq<char>) -> Seq<char> {
    s.skip(ws_fwd(s, 0))
}

/// `str::trim_end`.
pub open spec fn trim_end(s: Seq<char>) -> Seq<char> {
    s.take(ws_back(s, s.len() as int))
}

/// `str::trim`.
pub open spec fn trim(s: Seq<char>) -> Seq<char> {
    trim_end(trim_start(s))
}

pub proof fn lemma_ws_fwd_bounds(s: Seq<char>, i: int)
    requires
        0 <= i <= s.len(),
    ensures
        i <= ws_fwd(s, i) <= s.len(),
        forall|k: int| i <= k < ws_fwd(s, i) ==> is_ws(#[trigger] s[k]),
        ws_fwd(s, i) < s.len() ==> !is_ws(s[ws_fwd(s, i)]),
    decreases s.len() - i,
{
    if i < s.len() && is_ws(s[i]) {
        lemma_ws_fwd_bounds(s, i + 1);
    }
}

pub proof fn lemma_ws_back_bounds(s: Seq<char>, j: int)
    requires
        0 <= j <= s.len(),
    ensures
        0 <= ws_back(s, j) <= j,
        forall|k: int| ws_back(s, j) <= k < j ==> is_ws(#[trigger] s[k]),
        ws_back(s, j) > 0 ==> !is_ws(s[ws_back(s, j) - 1]),
    decreases j,
{
    if j > 0 && is_ws(s[j - 1]) {
        lemma_ws_back_bounds(s, j - 1);
    }
}

/// `char::is_whitespace`.
pub fn char_is_ws(c: char) -> (r: bool)
    ensures
        r == is_ws(c),
{
    let u = c as u32;
    (0x9 <= u && u <= 0xd) || u == 0x20 || u == 0x85 || u == 0xa0 || u == 0x1680 || (0x2000 <= u
        && u <= 0x200a) || u == 0x2028 || u == 0x2029 || u == 0x202f || u == 0x205f || u == 0x3000
}

/// `v[a..b]` as a new vector.
pub fn slice_v(v: &Vec<char>, a: usize, b: usize) -> (r: Vec<char>)
    requires
        a <= b <= v.len(),
    ensures
        r@ == v@.subrange(a as int, b as int),
{
    let mut r: Vec<char> = Vec::new();
    let mut i = a;
    while i < b
        invariant
            a <= i <= b <= v.len(),
            r@ == v@.subrange(a as int, i as int),
        decreases b - i,
    {
        r.push(v[i]);
        i = i + 1;
        assert(r@ =~= v@.subrange(a as int, i as int));
    }
    r
}

/// `str::trim_start` on characters.
pub fn trim_start_v(v: &Vec<char>) -> (r: Vec<char>)
    ensures
        r@ == trim_start(v@),
{
    let mut i: usize = 0;
    while i < v.len() && char_is_ws(v[i])
        invariant
            i <= v.len(),
            ws_fwd(v@, 0) == ws_fwd(v@, i as int),
        decreases v.len() - i,
    {
        i = i + 1;
    }
    slice_v(v, i, v.len())
}

/// `str::trim_end` on characters.
pub fn trim_end_v(v: &Vec<char>) -> (r: Vec<char>)
    ensures
        r@ == trim_end(v@),
{
    let mut j: usize = v.len();
    while j > 0 && char_is_ws(v[j - 1])
        invariant
            j <= v.len(),
            ws_back(v@, v@.len() as int) == ws_back(v@, j as int),
        decreases j,
    {
        j = j - 1;
    }
    slice_v(v, 0, j)
}

/// `str::trim` on characters.
pub fn trim_v(v: &Vec<char>) -> (r: Vec<char>)
    ensures
        r@ == trim(v@),
{
    let s = trim_start_v(v);
    trim_end_v(&s)
}

/// First index at or after `i` whose character is not in `set`.
pub open spec fn set_fwd(s: Seq<char>, set: Seq<char>, i: int) -> int
    decreases s.len() - i,
{
    if 0 <= i < s.len() && set.contains(s[i]) {
        set_fwd(s, set, i + 1)
    } else {
        i
    }
}

/// End of `s[..j]` once trailing characters of `set` are dropped.
pub open spec fn set_back(s: Seq<char>, set: Seq<char>, j: int) -> int
    decreases j,
{
    if 0 < j <= s.len() && set.contains(s[j - 1]) {
        set_back(s, set, j - 1)
    } else {
        j
    }
}

/// `str::trim_start_matches` with a set of characters.
pub open spec fn trim_start_set(s: Seq<char>, set: Seq<char>) -> Seq<char> {
    s.skip(set_fwd(s, set, 0))
}

/// `str::trim_matches` with a set of characters.
pub open spec fn trim_set(s: Seq<char>, set: Seq<char>) -> Seq<char> {
    let t = trim_start_set(s, set);
    t.take(set_back(t, set, t.len() as int))
}

/// Whether `c` is one of `set`.
pub fn in_set_v(c: char, set: &Vec<char>) -> (r: bool)
    ensures
        r == set@.contains(c),
{
    let mut k: usize = 0;
    while k < set.len()
        invariant
            k <= set.len(),
            forall|m: int| 0 <= m < k ==> set@[m] != c,
        decreases set.len() - k,
    {
        if set[k] == c {
            assert(set@[k as int] == c);
            return true;
        }
        k = k + 1;
    }
    false
}

/// `str::trim_start_matches` with a set of characters.
pub fn trim_start_set_v(v: &Vec<char>, set: &Vec<char>) -> (r: Vec<char>)
    ensures
        r@ == trim_start_set(v@, set@),
{
    let mut i: usize = 0;
    while i < v.len() && in_set_v(v[i], set)
        invariant
            i <= v.len(),
            set_fwd(v@, set@, 0) == set_fwd(v@, set@, i as int),
        decreases v.len() - i,
    {
        i = i + 1;
    }
    slice_v(v, i, v.len())
}

/// `str::trim_matches` with a set of characters.
pub fn trim_set_v(v: &Vec<char>, set: &Vec<char>) -> (r: Vec<char>)
    ensures
        r@ == trim_set(v@, set@),
{
    let t = trim_start_set_v(v, set);
    let mut j: usize = t.len();
    while j > 0 && in_set_v(t[j - 1], set)
        invariant
            j <= t.len(),
            set_back(t@, set@, t@.len() as int) == set_back(t@, set@, j as int),
        decreases j,
    {
        j = j - 1;
    }
    slice_v(&t, 0, j)
}

// ── Prefixes, suffixes and search ────────────────────────────────────

/// `str::starts_with`.
pub open spec fn starts_with(s: Seq<char>, p: Seq<char>) -> bool {
    p.len() <= s.len() && s.take(p.len() as int) == p
}

/// `str::ends_with`.
pub open spec fn ends_with(s: Seq<char>, p: Seq<char>) -> bool {
    p.len() <= s.len() && s.skip(s.len() - p.len()) == p
}

/// `str::strip_prefix`.
pub open spec fn strip_prefix(s: Seq<char>, p: Seq<char>) -> Option<Seq<char>> {
    if starts_with(s, p) {
        Some(s.skip(p.len() as int))
    } else {
        None
    }
}

/// `str::strip_suffix`.
pub open spec fn strip_suffix(s: Seq<char>, p: Seq<char>) -> Option<Seq<char>> {
    if ends_with(s, p) {
        Some(s.take(s.len() - p.len()))
    } else {
        None
    }
}

/// `p` occurs in `s` starting at `i`.
pub open spec fn occurs_at(s: Seq<char>, p: Seq<char>, i: int) -> bool {
    0 <= i && i + p.len() <= s.len() && s.subrange(i, i + p.len()) == p
}

/// First occurrence of `p` in `s` at or after `i`.
pub open spec fn find_from(s: Seq<char>, p: Seq<char>, i: int) -> Option<int>
    decreases s.len() + 1 - i,
{
    if i < 0 || i + p.len() > s.len() {
        None
    } else if occurs_at(s, p, i) {
        Some(i)
    } else {
        find_from(s, p, i + 1)
    }
}

/// `str::find`, counted in characters.
pub open spec fn find(s: Seq<char>, p: Seq<char>) -> Option<int> {
    find_from(s, p, 0)
}

/// `str::contains`.
pub open spec fn contains(s: Seq<char>, p: Seq<char>) -> bool {
    find(s, p) is Some
}

pub proof fn lemma_find_from(s: Seq<char>, p: Seq<char>, i: int)
    requires
        0 <= i,
    ensures
        match find_from(s, p, i) {
            Some(k) => i <= k && occurs_at(s, p, k) && forall|m: int|
                i <= m < k ==> !occurs_at(s, p, m),
            None => forall|m: int| i <= m ==> !occurs_at(s, p, m),
        },
    decreases s.len() + 1 - i,
{
    if i + p.len() > s.len() {
    } else if occurs_at(s, p, i) {
    } else {
        lemma_find_from(s, p, i + 1);
        assert forall|m: int| i <= m && #[trigger] occurs_at(s, p, m) implies m > i
            || occurs_at(s, p, i) by {}
    }
}

/// `s` contains `p` exactly when `p` occurs somewhere in it.
pub proof fn lemma_contains(s: Seq<char>, p: Seq<char>)
    ensures
        contains(s, p) <==> exists|m: int| occurs_at(s, p, m),
{
    lemma_find_from(s, p, 0);
    if contains(s, p) {
        let k = find(s, p)->0;
        assert(occurs_at(s, p, k));
    }
}

/// Whether `p` occurs in `v` at `i`.
pub fn occurs_at_v(v: &Vec<char>, p: &Vec<char>, i: usize) -> (r: bool)
    ensures
        r == occurs_at(v@, p@, i as int),
{
    if i > v.len() || p.len() > v.len() - i {
        return false;
    }
    let mut k: usize = 0;
    while k < p.len()
        invariant
            i + p.len() <= v.len(),
            k <= p.len(),
            forall|m: int| 0 <= m < k ==> v@[i + m] == p@[m],
        decreases p.len() - k,
    {
        if v[i + k] != p[k] {
            assert(v@.subrange(i as int, i + p.len())[k as int] != p@[k as int]);
            return false;
        }
        k = k + 1;
    }
    assert(v@.subrange(i as int, i + p.len()) =~= p@);
    true
}

/// `str::starts_with` on characters.
pub fn starts_with_v(v: &Vec<char>, p: &Vec<char>) -> (r: bool)
    ensures
        r == starts_with(v@, p@),
{
    let r = occurs_at_v(v, p, 0);
    assert(v@.subrange(0, p@.len() as int) =~= v@.take(p@.len() as int));
    r
}

/// `str::ends_with` on characters.
pub fn ends_with_v(v: &Vec<char>, p: &Vec<char>) -> (r: bool)
    ensures
        r == ends_with(v@, p@),
{
    if p.len() > v.len() {
        return false;
    }
    let r = occurs_at_v(v, p, v.len() - p.len());
    assert(v@.subrange(v@.len() - p@.len(), v@.len() as int) =~= v@.skip(v@.len() - p@.len()));
    r
}

/// `str::strip_prefix` on characters.
pub fn strip_prefix_v(v: &Vec<char>, p: &Vec<char>) -> (r: Option<Vec<char>>)
    ensures
        opt_chars(r) == strip_prefix(v@, p@),
{
    if starts_with_v(v, p) {
        let rest = slice_v(v, p.len(), v.len());
        assert(rest@ =~= v@.skip(p@.len() as int));
        Some(rest)
    } else {
        None
    }
}

/// `str::strip_suffix` on characters.
pub fn strip_suffix_v(v: &Vec<char>, p: &Vec<char>) -> (r: Option<Vec<char>>)
    ensures
        opt_chars(r) == strip_suffix(v@, p@),
{
    if ends_with_v(v, p) {
        let rest = slice_v(v, 0, v.len() - p.len());
        assert(rest@ =~= v@.take(v@.len() - p@.len()));
        Some(rest)
    } else {
        None
    }
}

/// `str::find` on characters.
pub fn find_v(v: &Vec<char>, p: &Vec<char>) -> (r: Option<usize>)
    ensures
        match r {
            Some(k) => find(v@, p@) == Some(k as int),
            None => find(v@, p@) is None,
        },
{
    if p.len() > v.len() {
        return None;
    }
    if p.len() == 0 {
        assert(v@.subrange(0, 0) =~= p@);
        return Some(0);
    }
    let mut i: usize = 0;
    while i <= v.len() - p.len()
        invariant
            1 <= p.len() <= v.len(),
            i <= v.len() - p.len() + 1,
            find(v@, p@) == find_from(v@, p@, i as int),
        decreases v.len() - p.len() + 1 - i,
    {
        if occurs_at_v(v, p, i) {
            return Some(i);
        }
        i = i + 1;
    }
    None
}

/// `str::contains` on characters.
pub fn contains_v(v: &Vec<char>, p: &Vec<char>) -> (r: bool)
    ensures
        r == contains(v@, p@),
{
    find_v(v, p).is_some()
}

/// Equality of two character sequences.
pub fn eq_v(a: &Vec<char>, b: &Vec<char>) -> (r: bool)
    ensures
        r == (a@ == b@),
{
    if a.len() != b.len() {
        return false;
    }
    let r = occurs_at_v(a, b, 0);
    assert(a@.subrange(0, b@.len() as int) =~= a@);
    r
}

// ── Lines ────────────────────────────────────────────────────────────

/// Index of the first `c` at or after `i`, or `s.len()` when there is none.
pub open spec fn char_pos(s: Seq<char>, c: char, i: int) -> int
    decreases s.len() - i,
{
    if i < 0 {
        s.len() as int
    } else if i >= s.len() {
        s.len() as int
    } else if s[i] == c {
        i
    } else {
        char_pos(s, c, i + 1)
    }
}

pub proof fn lemma_char_pos(s: Seq<char>, c: char, i: int)
    requires
        0 <= i <= s.len(),
    ensures
        i <= char_pos(s, c, i) <= s.len(),
        char_pos(s, c, i) < s.len() ==> s[char_pos(s, c, i)] == c,
        forall|k: int| i <= k < char_pos(s, c, i) ==> s[k] != c,
    decreases s.len() - i,
{
    if i < s.len() && s[i] != c {
        lemma_char_pos(s, c, i + 1);
    }
}

/// A line without its `\r`, as `str::lines` yields it.
pub open spec fn strip_cr(l: Seq<char>) -> Seq<char> {
    if l.len() > 0 && l.last() == '\r' {
        l.drop_last()
    } else {
        l
    }
}

/// `str::lines` of `s[i..]`.
pub open spec fn lines_from(s: Seq<char>, i: int) -> Seq<Seq<char>>
    decreases s.len() - i,
{
    if i < 0 || i >= s.len() {
        seq![]
    } else {
        let j = char_pos(s, '\n', i);
        if j >= s.len() {
            seq![s.subrange(i, s.len() as int)]
        } else if j < i {
            seq![]
        } else {
            seq![strip_cr(s.subrange(i, j))] + lines_from(s, j + 1)
        }
    }
}

/// `str::lines`: split at `\n`, drop a `\r` before it, and yield no empty
/// line after a final `\n`.
pub open spec fn lines(s: Seq<char>) -> Seq<Seq<char>> {
    lines_from(s, 0)
}

/// `strip_cr` on characters.
fn strip_cr_v(l: Vec<char>) -> (r: Vec<char>)
    ensures
        r@ == strip_cr(l@),
{
    let ghost orig = l@;
    let mut l = l;
    if l.len() > 0 && l[l.len() - 1] == '\r' {
        l.pop();
        assert(l@ =~= strip_cr(orig));
    }
    l
}

/// `str::lines` on characters.
pub fn split_lines(v: &Vec<char>) -> (r: Vec<Vec<char>>)
    ensures
        lines_view(r@) == lines(v@),
{
    let mut out: Vec<Vec<char>> = Vec::new();
    let mut i: usize = 0;
    while i < v.len()
        invariant
            i <= v.len(),
            lines(v@) == lines_view(out@) + lines_from(v@, i as int),
        decreases v.len() - i,
    {
        let mut j = i;
        while j < v.len() && v[j] != '\n'
            invariant
                i <= j <= v.len(),
                char_pos(v@, '\n', i as int) == char_pos(v@, '\n', j as int),
            decreases v.len() - j,
        {
            j = j + 1;
        }
        proof {
            lemma_char_pos(v@, '\n', i as int);
        }
        let ghost before = lines_view(out@);
        if j >= v.len() {
            let line = slice_v(v, i, v.len());
            out.push(line);
            assert(lines_view(out@) =~= before + seq![v@.subrange(i as int, v@.len() as int)]);
            assert(lines_from(v@, v@.len() as int) =~= seq![]);
            i = v.len();
        } else {
            let line = strip_cr_v(slice_v(v, i, j));
            out.push(line);
            assert(lines_view(out@) =~= before + seq![strip_cr(v@.subrange(i as int, j as int))]);
            i = j + 1;
        }
    }
    assert(lines_from(v@, i as int) =~= seq![]);
    assert(lines_view(out@) + seq![] =~= lines_view(out@));
    out
}

/// The lines of a string.
pub fn str_lines(s: &str) -> (r: Vec<Vec<char>>)
    ensures
        lines_view(r@) == lines(s@),
{
    let v = to_chars(s);
    split_lines(&v)
}

/// `str::split` at `c` of `s[i..]`: every piece between separators, empty
/// ones included.
pub open spec fn split_from(s: Seq<char>, c: char, i: int) -> Seq<Seq<char>>
    decreases s.len() - i,
{
    if i < 0 || i > s.len() {
        seq![]
    } else {
        let j = char_pos(s, c, i);
        if j >= s.len() {
            seq![s.subrange(i, s.len() as int)]
        } else if j < i {
            seq![]
        } else {
            seq![s.subrange(i, j)] + split_from(s, c, j + 1)
        }
    }
}

/// `str::split` at the character `c`.
pub open spec fn split_char(s: Seq<char>, c: char) -> Seq<Seq<char>> {
    split_from(s, c, 0)
}

/// [`split_char`] on characters.
pub fn split_char_v(v: &Vec<char>, c: char) -> (r: Vec<Vec<char>>)
    ensures
        lines_view(r@) == split_char(v@, c),
{
    let mut out: Vec<Vec<char>> = Vec::new();
    let mut i: usize = 0;
    loop
        invariant
            i <= v.len(),
            split_char(v@, c) == lines_view(out@) + split_from(v@, c, i as int),
        decreases v.len() - i,
    {
        let mut j = i;
        while j < v.len() && v[j] != c
            invariant
                i <= j <= v.len(),
                char_pos(v@, c, i as int) == char_pos(v@, c, j as int),
            decreases v.len() - j,
        {
            j = j + 1;
        }
        proof {
            lemma_char_pos(v@, c, i as int);
        }
        let ghost before = lines_view(out@);
        let piece = slice_v(v, i, j);
        out.push(piece);
        if j >= v.len() {
            assert(lines_view(out@) =~= before + seq![v@.subrange(i as int, v@.len() as int)]);
            assert(split_char(v@, c) =~= lines_view(out@));
            return out;
        }
        assert(lines_view(out@) =~= before + seq![v@.subrange(i as int, j as int)]);
        assert(split_char(v@, c) =~= lines_view(out@) + split_from(v@, c, j + 1));
        i = j + 1;
    }
}

/// The part of `s` before its first `c`, as `split(c).next()` gives it.
pub open spec fn before_char(s: Seq<char>, c: char) -> Seq<char> {
    s.take(char_pos(s, c, 0))
}

/// [`before_char`] on characters.
pub fn before_char_v(v: &Vec<char>, c: char) -> (r: Vec<char>)
    ensures
        r@ == before_char(v@, c),
{
    let mut j: usize = 0;
    while j < v.len() && v[j] != c
        invariant
            j <= v.len(),
            char_pos(v@, c, 0) == char_pos(v@, c, j as int),
        decreases v.len() - j,
    {
        j = j + 1;
    }
    let r = slice_v(v, 0, j);
    assert(r@ =~= before_char(v@, c));
    r
}

/// Index of the first character at or after `i` that is in `set`, or
/// `s.len()` when there is none.
pub open spec fn set_pos(s: Seq<char>, set: Seq<char>, i: int) -> int
    decreases s.len() - i,
{
    if i < 0 || i >= s.len() {
        s.len() as int
    } else if set.contains(s[i]) {
        i
    } else {
        set_pos(s, set, i + 1)
    }
}

pub proof fn lemma_set_pos(s: Seq<char>, set: Seq<char>, i: int)
    requires
        0 <= i <= s.len(),
    ensures
        i <= set_pos(s, set, i) <= s.len(),
    decreases s.len() - i,
{
    if i < s.len() && !set.contains(s[i]) {
        lemma_set_pos(s, set, i + 1);
    }
}

/// End of the whitespace-free run that starts at `i`.
pub open spec fn word_end(s: Seq<char>, i: int) -> int
    decreases s.len() - i,
{
    if 0 <= i < s.len() && !is_ws(s[i]) {
        word_end(s, i + 1)
    } else {
        i
    }
}

pub proof fn lemma_word_end(s: Seq<char>, i: int)
    requires
        0 <= i <= s.len(),
    ensures
        i <= word_end(s, i) <= s.len(),
    decreases s.len() - i,
{
    if i < s.len() && !is_ws(s[i]) {
        lemma_word_end(s, i + 1);
    }
}

/// `str::split_whitespace` of `s[i..]`.
pub open spec fn words_from(s: Seq<char>, i: int) -> Seq<Seq<char>>
    decreases s.len() - i,
{
    if i < 0 || i > s.len() {
        seq![]
    } else {
        let a = ws_fwd(s, i);
        proof {
            lemma_ws_fwd_bounds(s, i);
        }
        if a >= s.len() || a < i {
            seq![]
        } else {
            let b = word_end(s, a);
            if b <= a {
                seq![]
            } else {
                proof {
                    lemma_word_end(s, a);
                }
                seq![s.subrange(a, b)] + words_from(s, b)
            }
        }
    }
}

/// `str::split_whitespace`.
pub open spec fn words(s: Seq<char>) -> Seq<Seq<char>> {
    words_from(s, 0)
}

/// `str::split_whitespace` on characters.
pub fn split_whitespace_v(v: &Vec<char>) -> (r: Vec<Vec<char>>)
    ensures
        lines_view(r@) == words(v@),
{
    let mut out: Vec<Vec<char>> = Vec::new();
    let mut i: usize = 0;
    assert(lines_view(out@) =~= Seq::<Seq<char>>::empty());
    while i < v.len()
        invariant
            i <= v.len(),
            words(v@) == lines_view(out@) + words_from(v@, i as int),
        decreases v.len() - i,
    {
        let mut a = i;
        while a < v.len() && char_is_ws(v[a])
            invariant
                i <= a <= v.len(),
                ws_fwd(v@, i as int) == ws_fwd(v@, a as int),
            decreases v.len() - a,
        {
            a = a + 1;
        }
        if a >= v.len() {
            assert(words_from(v@, i as int) =~= seq![]);
            assert(words_from(v@, v@.len() as int) =~= seq![]) by {
                assert(ws_fwd(v@, v@.len() as int) == v@.len());
            }
            i = v.len();
        } else {
            let mut b = a;
            while b < v.len() && !char_is_ws(v[b])
                invariant
                    a <= b <= v.len(),
                    word_end(v@, a as int) == word_end(v@, b as int),
                decreases v.len() - b,
            {
                b = b + 1;
            }
            let w = slice_v(v, a, b);
            let ghost before = lines_view(out@);
            out.push(w);
            assert(lines_view(out@) =~= before + seq![v@.subrange(a as int, b as int)]);
            i = b;
        }
    }
    assert(words_from(v@, i as int) =~= seq![]);
    assert(lines_view(out@) + seq![] =~= lines_view(out@));
    out
}

// ── Numbers ──────────────────────────────────────────────────────────

/// An ASCII decimal digit.
pub open spec fn is_digit(c: char) -> bool {
    '0' <= c <= '9'
}

/// The value of a digit character.
pub open spec fn digit_value(c: char) -> nat {
    (c as u32 - '0' as u32) as nat
}

/// The value of a run of decimal digits.
pub open spec fn digits_value(s: Seq<char>) -> nat
    decreases s.len(),
{
    if s.len() == 0 {
        0
    } else {
        digits_value(s.drop_last()) * 10 + digit_value(s.last())
    }
}

/// The digits of an unsigned number, after an optional `+`.
pub open spec fn unsigned_digits(s: Seq<char>) -> Seq<char> {
    if s.len() > 0 && s[0] == '+' {
        s.drop_first()
    } else {
        s
    }
}

/// What `from_str` of an unsigned integer accepts: an optional `+`, then
/// one or more ASCII digits, read in base ten without a bound.
pub open spec fn unsigned_text(s: Seq<char>) -> Option<nat> {
    let d = unsigned_digits(s);
    if d.len() > 0 && forall|k: int| 0 <= k < d.len() ==> is_digit(#[trigger] d[k]) {
        Some(digits_value(d))
    } else {
        None
    }
}

proof fn lemma_unsigned_rejects(s: Seq<char>, k: int)
    requires
        0 <= k,
        s.len() > 0 && s[0] == '+' ==> k + 1 < s.len() && !is_digit(s[k + 1]),
        !(s.len() > 0 && s[0] == '+') ==> k < s.len() && !is_digit(s[k]),
    ensures
        unsigned_text(s) is None,
{
    if s.len() > 0 && s[0] == '+' {
        assert(unsigned_digits(s)[k] == s[k + 1]);
        assert(!is_digit(unsigned_digits(s)[k]));
    } else {
        assert(!is_digit(unsigned_digits(s)[k]));
    }
}

/// `u32::from_str(..).ok()`.
pub open spec fn parse_u32(s: Seq<char>) -> Option<u32> {
    match unsigned_text(s) {
        Some(n) => if n <= u32::MAX {
            Some(n as u32)
        } else {
            None
        },
        None => None,
    }
}

/// `usize::from_str(..).ok()`.
pub open spec fn parse_usize(s: Seq<char>) -> Option<usize> {
    match unsigned_text(s) {
        Some(n) => if n <= usize::MAX {
            Some(n as usize)
        } else {
            None
        },
        None => None,
    }
}

/// Whether a character is an ASCII digit.
pub fn char_is_digit(c: char) -> (r: bool)
    ensures
        r == is_digit(c),
{
    '0' <= c && c <= '9'
}

/// The unsigned value of `v` when it is at most `bound`.
fn parse_bounded(v: &Vec<char>, bound: u64) -> (r: Option<u64>)
    requires
        bound >= 9,
    ensures
        match r {
            Some(n) => unsigned_text(v@) == Some(n as nat) && n <= bound,
            None => match unsigned_text(v@) {
                Some(n) => n > bound,
                None => true,
            },
        },
{
    let start: usize = if v.len() > 0 && v[0] == '+' {
        1
    } else {
        0
    };
    let ghost d = if v@.len() > 0 && v@[0] == '+' {
        v@.drop_first()
    } else {
        v@
    };
    assert(d =~= v@.skip(start as int));
    if start >= v.len() {
        return None;
    }
    let mut val: u64 = 0;
    let mut over = false;
    let mut i = start;
    while i < v.len()
        invariant
            start <= i <= v.len(),
            bound >= 9,
            d =~= v@.skip(start as int),
            d == unsigned_digits(v@),
            forall|k: int| start <= k < i ==> is_digit(#[trigger] v@[k]),
            !over ==> val as nat == digits_value(v@.subrange(start as int, i as int)),
            !over ==> val <= bound,
            over ==> digits_value(v@.subrange(start as int, i as int)) > bound,
        decreases v.len() - i,
    {
        let c = v[i];
        if !char_is_digit(c) {
            assert(d[i - start] == c);
            proof {
                lemma_unsigned_rejects(v@, i - start);
            }
            return None;
        }
        let digit = (c as u32 - '0' as u32) as u64;
        assert(digit <= 9);
        let ghost prev = v@.subrange(start as int, i as int);
        let ghost next = v@.subrange(start as int, i + 1);
        assert(next.drop_last() =~= prev);
        assert(digits_value(next) == digits_value(prev) * 10 + digit_value(c));
        if !over {
            if val > (bound - digit) / 10 {
                over = true;
                assert(digits_value(next) > bound) by (nonlinear_arith)
                    requires
                        digits_value(next) == val * 10 + digit,
                        val > (bound - digit) / 10,
                        digit <= 9,
                        digit <= bound,
                ;
            } else {
                assert(val * 10 + digit <= bound) by (nonlinear_arith)
                    requires
                        val <= (bound - digit) / 10,
                        digit <= bound,
                ;
                val = val * 10 + digit;
            }
        } else {
            assert(digits_value(next) >= digits_value(prev)) by (nonlinear_arith)
                requires
                    digits_value(next) == digits_value(prev) * 10 + digit_value(c),
            ;
        }
        i = i + 1;
    }
    assert(v@.subrange(start as int, v@.len() as int) =~= d);
    assert forall|k: int| 0 <= k < d.len() implies is_digit(#[trigger] d[k]) by {
        assert(d[k] == v@[k + start]);
    }
    if over {
        None
    } else {
        Some(val)
    }
}

/// `u32::from_str(..).ok()` on characters.
pub fn parse_u32_v(v: &Vec<char>) -> (r: Option<u32>)
    ensures
        r == parse_u32(v@),
{
    match parse_bounded(v, u32::MAX as u64) {
        Some(n) => Some(n as u32),
        None => None,
    }
}

/// `usize::from_str(..).ok()` on characters.
pub fn parse_usize_v(v: &Vec<char>) -> (r: Option<usize>)
    ensures
        r == parse_usize(v@),
{
    match parse_bounded(v, usize::MAX as u64) {
        Some(n) => Some(n as usize),
        None => None,
    }
}

/// `u64::from_str(..).ok()`.
pub open spec fn parse_u64(s: Seq<char>) -> Option<u64> {
    match unsigned_text(s) {
        Some(n) => if n <= u64::MAX {
            Some(n as u64)
        } else {
            None
        },
        None => None,
    }
}

/// `u64::from_str(..).ok()` on characters.
pub fn parse_u64_v(v: &Vec<char>) -> (r: Option<u64>)
    ensures
        r == parse_u64(v@),
{
    parse_bounded(v, u64::MAX)
}

/// The character of a decimal digit.
pub open spec fn digit_char(d: nat) -> char {
    if d == 0 {
        '0'
    } else if d == 1 {
        '1'
    } else if d == 2 {
        '2'
    } else if d == 3 {
        '3'
    } else if d == 4 {
        '4'
    } else if d == 5 {
        '5'
    } else if d == 6 {
        '6'
    } else if d == 7 {
        '7'
    } else if d == 8 {
        '8'
    } else {
        '9'
    }
}

/// Decimal notation of `n`, as `Display` writes an unsigned integer.
pub open spec fn dec(n: nat) -> Seq<char>
    decreases n,
{
    if n < 10 {
        seq![digit_char(n)]
    } else {
        dec(n / 10).push(digit_char(n % 10))
    }
}

fn digit_char_v(d: u64) -> (r: char)
    requires
        d < 10,
    ensures
        r == digit_char(d as nat),
{
    if d == 0 {
        '0'
    } else if d == 1 {
        '1'
    } else if d == 2 {
        '2'
    } else if d == 3 {
        '3'
    } else if d == 4 {
        '4'
    } else if d == 5 {
        '5'
    } else if d == 6 {
        '6'
    } else if d == 7 {
        '7'
    } else if d == 8 {
        '8'
    } else {
        '9'
    }
}

/// Decimal notation of `n`.
pub fn dec_v(n: u64) -> (r: Vec<char>)
    ensures
        r@ == dec(n as nat),
    decreases n,
{
    if n < 10 {
        let mut r = Vec::new();
        r.push(digit_char_v(n));
        assert(r@ =~= seq![digit_char(n as nat)]);
        r
    } else {
        let mut r = dec_v(n / 10);
        r.push(digit_char_v(n % 10));
        r
    }
}

// ── Paths ────────────────────────────────────────────────────────────

/// `Path::join` on text: an absolute `rel` replaces `base`, and a separator
/// goes between them unless `base` is empty or already ends in one.
pub open spec fn path_join(base: Seq<char>, rel: Seq<char>) -> Seq<char> {
    if rel.len() > 0 && rel[0] == '/' {
        rel
    } else if base.len() == 0 || base.last() == '/' {
        base + rel
    } else {
        base + seq!['/'] + rel
    }
}

/// [`path_join`] on characters.
pub fn path_join_v(base: &Vec<char>, rel: &Vec<char>) -> (r: Vec<char>)
    ensures
        r@ == path_join(base@, rel@),
{
    if rel.len() > 0 && rel[0] == '/' {
        return slice_v(rel, 0, rel.len());
    }
    let mut r = slice_v(base, 0, base.len());
    if !(base.len() == 0 || base[base.len() - 1] == '/') {
        r.push('/');
    }
    extend(&mut r, rel);
    r
}

/// `Path::new(base).join(rel)` as text.
pub fn join_path(base: &str, rel: &str) -> (r: String)
    ensures
        r@ == path_join(base@, rel@),
{
    from_chars(&path_join_v(&to_chars(base), &to_chars(rel)))
}

// ── Building strings ─────────────────────────────────────────────────

/// A `String` holding the characters of `v`.
pub fn from_chars(v: &Vec<char>) -> (r: String)
    ensures
        r@ == v@,
{
    let mut r = String::new();
    let mut i: usize = 0;
    while i < v.len()
        invariant
            i <= v.len(),
            r@ == v@.take(i as int),
        decreases v.len() - i,
    {
        push_char(&mut r, v[i]);
        i = i + 1;
        assert(r@ =~= v@.take(i as int));
    }
    assert(v@.take(v@.len() as int) =~= v@);
    r
}

/// Append the characters of `p` to `v`.
pub fn extend(v: &mut Vec<char>, p: &Vec<char>)
    ensures
        final(v)@ == old(v)@ + p@,
{
    let mut i: usize = 0;
    let ghost start = v@;
    while i < p.len()
        invariant
            i <= p.len(),
            v@ == start + p@.take(i as int),
        decreases p.len() - i,
    {
        v.push(p[i]);
        i = i + 1;
        assert(v@ =~= start + p@.take(i as int));
    }
    assert(p@.take(p@.len() as int) =~= p@);
}

/// Append the characters of `s` to `v`.
pub fn extend_str(v: &mut Vec<char>, s: &str)
    ensures
        final(v)@ == old(v)@ + s@,
{
    let p = to_chars(s);
    extend(v, &p);
}

/// `String::push`: the text gains `c` at its end. Believed from the
/// standard library's documentation, not proved here.
#[verifier::external_body]
pub(crate) fn push_char(s: &mut String, c: char)
    ensures
        final(s)@ == old(s)@.push(c),
{
    s.push(c);
}

/// The characters of `s`, in order.
pub fn to_chars(s: &str) -> (r: Vec<char>)
    ensures
        r@ == s@,
{
    let mut r: Vec<char> = Vec::new();
    for c in it: s.chars()
        invariant
            r@ == it.seq().take(it.index()),
            it.seq() == s@,
    {
        r.push(c);
    }
    r
}

} // verus!
