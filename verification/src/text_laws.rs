//! Facts about lines, words and decimal numbers that reading back
//! rendered text relies on.
use vstd::prelude::*;

use crate::text::{
    char_pos, digit_char, digit_value, digits_value, dec, is_digit, is_ws, lemma_char_pos,
    lemma_word_end, lemma_ws_fwd_bounds, lines, lines_from, parse_u32, strip_cr, unsigned_digits,
    unsigned_text, word_end, words, words_from, ws_fwd,
};

verus! {

// ── Lines ────────────────────────────────────────────────────────────

proof fn lemma_char_pos_prefix(a: Seq<char>, b: Seq<char>, c: char, i: int)
    requires
        0 <= i <= a.len(),
        char_pos(a, c, i) < a.len(),
    ensures
        char_pos(a + b, c, i) == char_pos(a, c, i),
    decreases a.len() - i,
{
    if i < a.len() && a[i] != c {
        assert((a + b)[i] == a[i]);
        lemma_char_pos_prefix(a, b, c, i + 1);
    } else if i < a.len() {
        assert((a + b)[i] == a[i]);
    }
}

proof fn lemma_char_pos_shift(a: Seq<char>, b: Seq<char>, c: char, k: int)
    requires
        0 <= k <= b.len(),
    ensures
        char_pos(a + b, c, a.len() + k) == a.len() + char_pos(b, c, k),
    decreases b.len() - k,
{
    if k < b.len() {
        assert((a + b)[a.len() + k] == b[k]);
        if b[k] != c {
            lemma_char_pos_shift(a, b, c, k + 1);
        }
    }
}

proof fn lemma_lines_from_shift(a: Seq<char>, b: Seq<char>, k: int)
    requires
        0 <= k <= b.len(),
    ensures
        lines_from(a + b, a.len() + k) == lines_from(b, k),
    decreases b.len() - k,
{
    let s = a + b;
    if k < b.len() {
        lemma_char_pos_shift(a, b, '\n', k);
        lemma_char_pos(b, '\n', k);
        let j = char_pos(b, '\n', k);
        if j >= b.len() {
            assert(s.subrange(a.len() + k, s.len() as int) =~= b.subrange(k, b.len() as int));
        } else {
            assert(s.subrange(a.len() + k, a.len() + j) =~= b.subrange(k, j));
            lemma_lines_from_shift(a, b, j + 1);
        }
    }
}

proof fn lemma_lines_from_prefix(a: Seq<char>, b: Seq<char>, i: int)
    requires
        0 <= i <= a.len(),
        a.len() > 0,
        a.last() == '\n',
    ensures
        lines_from(a + b, i) == lines_from(a, i) + lines_from(a + b, a.len() as int),
    decreases a.len() - i,
{
    let s = a + b;
    if i < a.len() {
        lemma_char_pos(a, '\n', i);
        let j = char_pos(a, '\n', i);
        if j >= a.len() {
            assert(a[a.len() - 1] == '\n');
            assert(false);
        }
        lemma_char_pos_prefix(a, b, '\n', i);
        assert(s.subrange(i, j) =~= a.subrange(i, j));
        lemma_lines_from_prefix(a, b, j + 1);
        assert(lines_from(a, i) == seq![strip_cr(a.subrange(i, j))] + lines_from(a, j + 1));
        assert(lines_from(s, i) == seq![strip_cr(s.subrange(i, j))] + lines_from(s, j + 1));
        assert(lines_from(s, i) =~= lines_from(a, i) + lines_from(s, a.len() as int));
    } else {
        assert(lines_from(a, i) =~= Seq::<Seq<char>>::empty());
        assert(lines_from(s, i) =~= lines_from(a, i) + lines_from(s, a.len() as int));
    }
}

/// The lines of two texts, the first ending in a newline, are the lines
/// of each in turn.
pub proof fn lemma_lines_concat(a: Seq<char>, b: Seq<char>)
    requires
        a.len() > 0,
        a.last() == '\n',
    ensures
        lines(a + b) == lines(a) + lines(b),
{
    lemma_lines_from_prefix(a, b, 0);
    lemma_lines_from_shift(a, b, 0);
}

/// A line without a newline, followed by one, is one line.
pub proof fn lemma_lines_single(l: Seq<char>)
    requires
        !l.contains('\n'),
    ensures
        lines(l + seq!['\n']) == seq![strip_cr(l)],
{
    let s = l + seq!['\n'];
    lemma_char_pos(s, '\n', 0);
    let j = char_pos(s, '\n', 0);
    if j < l.len() {
        assert(s[j] == l[j]);
        assert(l.contains('\n'));
    }
    assert(s[l.len() as int] == '\n');
    assert(j == l.len());
    assert(s.subrange(0, j) =~= l);
    assert(lines_from(s, j + 1) =~= Seq::<Seq<char>>::empty());
}

/// Each line of `ls`, without a newline of its own, followed by one.
pub open spec fn joined_lines(ls: Seq<Seq<char>>) -> Seq<char>
    decreases ls.len(),
{
    if ls.len() == 0 {
        seq![]
    } else {
        joined_lines(ls.drop_last()) + ls.last() + seq!['\n']
    }
}

/// Reading back lines joined with newlines gives the lines (without a
/// carriage return at their end).
pub proof fn lemma_lines_joined(ls: Seq<Seq<char>>)
    requires
        forall|i: int| 0 <= i < ls.len() ==> !(#[trigger] ls[i]).contains('\n'),
    ensures
        lines(joined_lines(ls)) == ls.map_values(|l: Seq<char>| strip_cr(l)),
    decreases ls.len(),
{
    if ls.len() == 0 {
        assert(lines(Seq::<char>::empty()) =~= Seq::<Seq<char>>::empty());
        assert(ls.map_values(|l: Seq<char>| strip_cr(l)) =~= Seq::<Seq<char>>::empty());
    } else {
        let init = ls.drop_last();
        assert forall|i: int| 0 <= i < init.len() implies !(#[trigger] init[i]).contains('\n') by {
            assert(init[i] == ls[i]);
        }
        lemma_lines_joined(init);
        lemma_lines_single(ls.last());
        let a = joined_lines(init);
        let b = ls.last() + seq!['\n'];
        assert(joined_lines(ls) =~= a + b);
        if init.len() == 0 {
            assert(a =~= Seq::<char>::empty());
            assert(a + b =~= b);
        } else {
            assert(a.last() == '\n');
            lemma_lines_concat(a, b);
        }
        assert(ls.map_values(|l: Seq<char>| strip_cr(l)) =~= init.map_values(
            |l: Seq<char>| strip_cr(l),
        ).push(strip_cr(ls.last())));
    }
}

// ── Words ────────────────────────────────────────────────────────────

proof fn lemma_ws_fwd_prefix(a: Seq<char>, b: Seq<char>, i: int)
    requires
        0 <= i <= a.len(),
        ws_fwd(a, i) < a.len(),
    ensures
        ws_fwd(a + b, i) == ws_fwd(a, i),
    decreases a.len() - i,
{
    if i < a.len() {
        assert((a + b)[i] == a[i]);
        if is_ws(a[i]) {
            lemma_ws_fwd_prefix(a, b, i + 1);
        }
    }
}

proof fn lemma_ws_fwd_to_end(a: Seq<char>, b: Seq<char>, i: int)
    requires
        0 <= i <= a.len(),
        ws_fwd(a, i) >= a.len(),
    ensures
        ws_fwd(a + b, i) == ws_fwd(a + b, a.len() as int),
    decreases a.len() - i,
{
    if i < a.len() {
        assert((a + b)[i] == a[i]);
        lemma_ws_fwd_to_end(a, b, i + 1);
    }
}

proof fn lemma_ws_fwd_shift(a: Seq<char>, b: Seq<char>, k: int)
    requires
        0 <= k <= b.len(),
    ensures
        ws_fwd(a + b, a.len() + k) == a.len() + ws_fwd(b, k),
    decreases b.len() - k,
{
    if k < b.len() {
        assert((a + b)[a.len() + k] == b[k]);
        if is_ws(b[k]) {
            lemma_ws_fwd_shift(a, b, k + 1);
        }
    }
}

proof fn lemma_word_end_prefix(a: Seq<char>, b: Seq<char>, i: int)
    requires
        0 <= i <= a.len(),
        word_end(a, i) < a.len(),
    ensures
        word_end(a + b, i) == word_end(a, i),
    decreases a.len() - i,
{
    if i < a.len() {
        assert((a + b)[i] == a[i]);
        if !is_ws(a[i]) {
            lemma_word_end_prefix(a, b, i + 1);
        }
    }
}

proof fn lemma_word_end_shift(a: Seq<char>, b: Seq<char>, k: int)
    requires
        0 <= k <= b.len(),
    ensures
        word_end(a + b, a.len() + k) == a.len() + word_end(b, k),
    decreases b.len() - k,
{
    if k < b.len() {
        assert((a + b)[a.len() + k] == b[k]);
        if !is_ws(b[k]) {
            lemma_word_end_shift(a, b, k + 1);
        }
    }
}

proof fn lemma_words_from_shift(a: Seq<char>, b: Seq<char>, k: int)
    requires
        0 <= k <= b.len(),
    ensures
        words_from(a + b, a.len() + k) == words_from(b, k),
    decreases b.len() - k,
{
    let s = a + b;
    lemma_ws_fwd_shift(a, b, k);
    lemma_ws_fwd_bounds(b, k);
    let x = ws_fwd(b, k);
    if x < b.len() {
        lemma_word_end_shift(a, b, x);
        lemma_word_end(b, x);
        let y = word_end(b, x);
        if y > x {
            assert(s.subrange(a.len() + x, a.len() + y) =~= b.subrange(x, y));
            lemma_words_from_shift(a, b, y);
        }
    }
}

proof fn lemma_words_from_prefix(a: Seq<char>, b: Seq<char>, i: int)
    requires
        0 <= i <= a.len(),
        a.len() > 0,
        is_ws(a.last()),
    ensures
        words_from(a + b, i) == words_from(a, i) + words_from(a + b, a.len() as int),
    decreases a.len() - i,
{
    let s = a + b;
    lemma_ws_fwd_bounds(a, i);
    let x = ws_fwd(a, i);
    if x < a.len() {
        lemma_ws_fwd_prefix(a, b, i);
        lemma_word_end(a, x);
        let y = word_end(a, x);
        if y >= a.len() {
            assert(!is_ws(a[a.len() - 1])) by {
                lemma_word_end_all(a, x);
            }
            assert(false);
        }
        lemma_word_end_prefix(a, b, x);
        assert(!is_ws(a[x]));
        lemma_word_end_moves(a, x);
        assert(s.subrange(x, y) =~= a.subrange(x, y));
        lemma_words_from_prefix(a, b, y);
        assert(words_from(a, i) == seq![a.subrange(x, y)] + words_from(a, y));
        assert(words_from(s, i) == seq![s.subrange(x, y)] + words_from(s, y));
        assert(words_from(s, i) =~= words_from(a, i) + words_from(s, a.len() as int));
    } else {
        lemma_ws_fwd_to_end(a, b, i);
        assert(words_from(a, i) =~= Seq::<Seq<char>>::empty());
        if i < a.len() {
            assert(words_from(s, i) == words_from(s, a.len() as int)) by {
                lemma_words_from_same_start(s, i, a.len() as int);
            }
        }
        assert(words_from(s, i) =~= words_from(a, i) + words_from(s, a.len() as int));
    }
}

proof fn lemma_word_end_all(s: Seq<char>, i: int)
    requires
        0 <= i <= s.len(),
    ensures
        forall|k: int| i <= k < word_end(s, i) ==> !is_ws(#[trigger] s[k]),
    decreases s.len() - i,
{
    if i < s.len() && !is_ws(s[i]) {
        lemma_word_end_all(s, i + 1);
    }
}

proof fn lemma_word_end_moves(s: Seq<char>, i: int)
    requires
        0 <= i < s.len(),
        !is_ws(s[i]),
    ensures
        word_end(s, i) > i,
{
    lemma_word_end(s, i + 1);
}

/// Starting a word scan anywhere in a run of whitespace is starting it at
/// the run's end.
proof fn lemma_words_from_same_start(s: Seq<char>, i: int, j: int)
    requires
        0 <= i <= j <= s.len(),
        ws_fwd(s, i) == ws_fwd(s, j),
    ensures
        words_from(s, i) == words_from(s, j),
{
    lemma_ws_fwd_bounds(s, i);
    lemma_ws_fwd_bounds(s, j);
}

/// The words of two texts, the first ending in whitespace, are the words
/// of each in turn.
pub proof fn lemma_words_concat(a: Seq<char>, b: Seq<char>)
    requires
        a.len() > 0,
        is_ws(a.last()),
    ensures
        words(a + b) == words(a) + words(b),
{
    lemma_words_from_prefix(a, b, 0);
    lemma_words_from_shift(a, b, 0);
}

/// A run of non-whitespace followed by whitespace is one word.
pub proof fn lemma_words_single(w: Seq<char>, c: char)
    requires
        w.len() > 0,
        forall|k: int| 0 <= k < w.len() ==> !is_ws(#[trigger] w[k]),
        is_ws(c),
    ensures
        words(w.push(c)) == seq![w],
{
    let s = w.push(c);
    lemma_ws_fwd_bounds(s, 0);
    assert(ws_fwd(s, 0) == 0);
    lemma_word_end_stops(s, 0, w.len() as int);
    assert(s.subrange(0, w.len() as int) =~= w);
    lemma_ws_fwd_bounds(s, w.len() as int);
    lemma_ws_fwd_rest(s, w.len() as int);
}

proof fn lemma_word_end_stops(s: Seq<char>, i: int, e: int)
    requires
        0 <= i <= e < s.len(),
        forall|k: int| i <= k < e ==> !is_ws(#[trigger] s[k]),
        is_ws(s[e]),
    ensures
        word_end(s, i) == e,
    decreases e - i,
{
    if i < e {
        lemma_word_end_stops(s, i + 1, e);
    }
}

proof fn lemma_ws_fwd_rest(s: Seq<char>, i: int)
    requires
        0 <= i <= s.len(),
        forall|k: int| i <= k < s.len() ==> is_ws(#[trigger] s[k]),
    ensures
        ws_fwd(s, i) == s.len(),
        words_from(s, i) == Seq::<Seq<char>>::empty(),
    decreases s.len() - i,
{
    if i < s.len() {
        lemma_ws_fwd_rest(s, i + 1);
    }
    lemma_ws_fwd_bounds(s, i);
}

// ── Decimal numbers ──────────────────────────────────────────────────

/// Decimal notation is one or more digits.
pub proof fn lemma_dec_digits(n: nat)
    ensures
        dec(n).len() > 0,
        forall|k: int| 0 <= k < dec(n).len() ==> is_digit(#[trigger] dec(n)[k]),
        dec(n)[0] != '+',
    decreases n,
{
    if n >= 10 {
        lemma_dec_digits(n / 10);
        assert forall|k: int| 0 <= k < dec(n).len() implies is_digit(#[trigger] dec(n)[k]) by {
            if k < dec(n / 10).len() {
                assert(dec(n)[k] == dec(n / 10)[k]);
            }
        }
        assert(dec(n)[0] == dec(n / 10)[0]);
    }
}

/// Reading decimal notation gives the number back.
pub proof fn lemma_dec_value(n: nat)
    ensures
        digits_value(dec(n)) == n,
    decreases n,
{
    if n < 10 {
        assert(dec(n).drop_last() =~= Seq::<char>::empty());
        assert(digits_value(Seq::<char>::empty()) == 0);
        assert(dec(n).last() == digit_char(n));
        assert(digit_value(digit_char(n)) == n);
        assert(digits_value(dec(n)) == digits_value(dec(n).drop_last()) * 10 + digit_value(
            dec(n).last(),
        ));
    } else {
        lemma_dec_value(n / 10);
        assert(dec(n).drop_last() =~= dec(n / 10));
        assert(dec(n).last() == digit_char(n % 10));
        assert(digit_value(digit_char(n % 10)) == n % 10);
        assert(digits_value(dec(n)) == digits_value(dec(n).drop_last()) * 10 + digit_value(
            dec(n).last(),
        ));
        assert((n / 10) * 10 + n % 10 == n);
    }
}

/// `u32::from_str` of the decimal notation of a `u32` is that number.
pub proof fn lemma_parse_dec(n: u32)
    ensures
        parse_u32(dec(n as nat)) == Some(n),
{
    lemma_dec_digits(n as nat);
    lemma_dec_value(n as nat);
    assert(unsigned_digits(dec(n as nat)) == dec(n as nat));
    assert(unsigned_text(dec(n as nat)) == Some(n as nat));
}

} // verus!
