//! Byte-exact revisions of the two tuning drop-ins, each written
//! atomically on its own. A failed second write does not turn the first
//! into a third-party edit: what was persisted is reported exactly, and
//! only our own rendered bytes are ever recognised as ours.
//!
//! Reading and writing the files is the application's part; which file is
//! written, and what revision is then known to be on disk, is decided here.
use vstd::prelude::*;
use vstd::utf8::{decode_utf8, encode_utf8, valid_utf8};

use super::{
    no_tweaks, parse_pipewire, parse_pipewire_spec, parse_wireplumber, parse_wireplumber_spec,
    render_pipewire, render_pipewire_spec, render_wireplumber, render_wireplumber_spec, UserTweaks,
};
use crate::text::{to_chars, trim, trim_v};

verus! {

/// The contents of the two drop-ins: the PipeWire one, then the
/// WirePlumber one; `None` for a file that is absent.
#[derive(Debug, Clone, PartialEq, Eq)]
pub struct TuningRevision {
    pub pipewire: Option<Vec<u8>>,
    pub wireplumber: Option<Vec<u8>>,
}

/// The bytes of an optional file.
pub open spec fn file_view(f: Option<Vec<u8>>) -> Option<Seq<u8>> {
    match f {
        Some(b) => Some(b@),
        None => None,
    }
}

/// The revision as byte sequences.
pub open spec fn rev(r: TuningRevision) -> (Option<Seq<u8>>, Option<Seq<u8>>) {
    (file_view(r.pipewire), file_view(r.wireplumber))
}

/// File `i` (0 for PipeWire, 1 for WirePlumber) of a revision.
pub open spec fn file_at(r: (Option<Seq<u8>>, Option<Seq<u8>>), i: int) -> Option<Seq<u8>> {
    if i == 0 {
        r.0
    } else {
        r.1
    }
}

/// The revision with file `i` replaced by `f`.
pub open spec fn with_file(r: (Option<Seq<u8>>, Option<Seq<u8>>), i: int, f: Option<Seq<u8>>) -> (
    Option<Seq<u8>>,
    Option<Seq<u8>>,
) {
    if i == 0 {
        (f, r.1)
    } else {
        (r.0, f)
    }
}

/// What a rendered text becomes on disk: nothing when it is blank, else its
/// UTF-8 bytes.
pub open spec fn optional_bytes_spec(text: Seq<char>) -> Option<Seq<u8>> {
    if trim(text).len() == 0 {
        None
    } else {
        Some(encode_utf8(text))
    }
}

/// The revision that writing `t` produces.
pub open spec fn revision_of(t: UserTweaks) -> (Option<Seq<u8>>, Option<Seq<u8>>) {
    (optional_bytes_spec(render_pipewire_spec(t)), optional_bytes_spec(render_wireplumber_spec(t)))
}

/// The tweaks a revision holds, when both files are UTF-8: the PipeWire
/// file read over the defaults, then the WirePlumber file over that.
pub open spec fn tweaks_of(r: (Option<Seq<u8>>, Option<Seq<u8>>)) -> Option<UserTweaks> {
    let after_pw = match r.0 {
        None => Some(no_tweaks()),
        Some(b) => if valid_utf8(b) {
            Some(parse_pipewire_spec(decode_utf8(b), no_tweaks()))
        } else {
            None
        },
    };
    match after_pw {
        None => None,
        Some(t) => match r.1 {
            None => Some(t),
            Some(b) => if valid_utf8(b) {
                Some(parse_wireplumber_spec(decode_utf8(b), t))
            } else {
                None
            },
        },
    }
}

/// `std::str::from_utf8`: the text the bytes encode when they are valid
/// UTF-8, and nothing otherwise. Believed from the standard library's
/// documentation, not proved here.
#[verifier::external_body]
fn utf8_text(bytes: &[u8]) -> (r: Option<String>)
    ensures
        match r {
            Some(s) => valid_utf8(bytes@) && s@ == decode_utf8(bytes@),
            None => !valid_utf8(bytes@),
        },
{
    std::str::from_utf8(bytes).ok().map(str::to_string)
}

fn copy_bytes(b: &[u8]) -> (r: Vec<u8>)
    ensures
        r@ == b@,
{
    let mut r: Vec<u8> = Vec::new();
    let mut i: usize = 0;
    while i < b.len()
        invariant
            i <= b.len(),
            r@ == b@.take(i as int),
        decreases b.len() - i,
    {
        r.push(b[i]);
        i = i + 1;
        assert(r@ =~= b@.take(i as int));
    }
    assert(b@.take(b@.len() as int) =~= b@);
    r
}

fn copy_file(f: &Option<Vec<u8>>) -> (r: Option<Vec<u8>>)
    ensures
        file_view(r) == file_view(*f),
{
    match f {
        Some(b) => Some(copy_bytes(b.as_slice())),
        None => None,
    }
}

fn same_file(a: &Option<Vec<u8>>, b: &Option<Vec<u8>>) -> (r: bool)
    ensures
        r == (file_view(*a) == file_view(*b)),
{
    match (a, b) {
        (None, None) => true,
        (Some(x), Some(y)) => {
            assert(file_view(*a) == Some(x@));
            assert(file_view(*b) == Some(y@));
            if x.len() != y.len() {
                return false;
            }
            let mut i: usize = 0;
            while i < x.len()
                invariant
                    file_view(*a) == Some(x@),
                    file_view(*b) == Some(y@),
                    x@.len() == y@.len(),
                    i <= x.len(),
                    forall|k: int| 0 <= k < i ==> x@[k] == y@[k],
                decreases x.len() - i,
            {
                if x[i] != y[i] {
                    assert(x@[i as int] != y@[i as int]);
                    return false;
                }
                i = i + 1;
            }
            assert(x@ =~= y@);
            true
        },
        _ => false,
    }
}

/// The bytes a rendered text is written as: none when it is blank.
pub fn optional_bytes(text: &str) -> (r: Option<Vec<u8>>)
    ensures
        file_view(r) == optional_bytes_spec(text@),
{
    if trim_v(&to_chars(text)).len() == 0 {
        None
    } else {
        Some(copy_bytes(text.as_bytes()))
    }
}

impl Default for TuningRevision {
    /// Both files absent.
    fn default() -> (r: Self)
        ensures
            rev(r) == (None::<Seq<u8>>, None::<Seq<u8>>),
    {
        TuningRevision { pipewire: None, wireplumber: None }
    }
}

impl TuningRevision {
    /// The revision that writing `settings` produces.
    pub fn from_settings(settings: &UserTweaks) -> (r: TuningRevision)
        ensures
            rev(r) == revision_of(*settings),
    {
        let pw = render_pipewire(settings);
        let wp = render_wireplumber(settings);
        TuningRevision {
            pipewire: optional_bytes(pw.as_str()),
            wireplumber: optional_bytes(wp.as_str()),
        }
    }

    /// The same bytes in both revisions.
    pub fn same(&self, other: &TuningRevision) -> (r: bool)
        ensures
            r == (rev(*self) == rev(*other)),
    {
        same_file(&self.pipewire, &other.pipewire) && same_file(
            &self.wireplumber,
            &other.wireplumber,
        )
    }

    /// A copy with the same bytes.
    pub fn copy(&self) -> (r: TuningRevision)
        ensures
            rev(r) == rev(*self),
    {
        TuningRevision {
            pipewire: copy_file(&self.pipewire),
            wireplumber: copy_file(&self.wireplumber),
        }
    }

    /// The tweaks the two files hold; `None` when one is not UTF-8.
    pub fn settings(&self) -> (r: Option<UserTweaks>)
        ensures
            r == tweaks_of(rev(*self)),
    {
        let mut t = UserTweaks::default();
        match &self.pipewire {
            Some(b) => match utf8_text(b.as_slice()) {
                Some(text) => parse_pipewire(text.as_str(), &mut t),
                None => {
                    return None;
                },
            },
            None => {},
        }
        match &self.wireplumber {
            Some(b) => match utf8_text(b.as_slice()) {
                Some(text) => parse_wireplumber(text.as_str(), &mut t),
                None => {
                    return None;
                },
            },
            None => {},
        }
        Some(t)
    }
}

/// Writing a revision over the files was refused: they are not what the
/// caller last saw.
#[derive(Debug, Clone, Copy, PartialEq, Eq, Structural)]
pub enum TuningConflict {
    /// The files changed outside this window.
    ChangedOutside,
}

impl TuningConflict {
    /// The message shown for the conflict.
    pub fn message(self) -> (r: &'static str)
        ensures
            r@ == "Audio configuration changed outside this window. Close and reopen settings before applying."@,
    {
        "Audio configuration changed outside this window. Close and reopen settings before applying."
    }
}

/// Writing `desired` over the files, one file at a time, keeping track of
/// the revision known to be on disk.
pub struct TuningWrite {
    pub desired: TuningRevision,
    /// What is known to be on disk.
    pub known: TuningRevision,
    /// The next file to consider (0, 1, or 2 when done).
    pub next: usize,
}

impl TuningWrite {
    /// Start writing `desired` where the caller expects `expected` and the
    /// files now hold `observed`. Refused unless the files are exactly what
    /// the caller expected: another application's edit is never
    /// overwritten, nor absorbed as ours.
    pub fn begin(desired: TuningRevision, expected: &TuningRevision, observed: &TuningRevision) -> (r:
        Result<TuningWrite, TuningConflict>)
        ensures
            rev(*observed) != rev(*expected) ==> r == Err::<TuningWrite, TuningConflict>(
                TuningConflict::ChangedOutside,
            ),
            rev(*observed) == rev(*expected) ==> r is Ok && rev(r->Ok_0.desired) == rev(desired)
                && rev(r->Ok_0.known) == rev(*expected) && r->Ok_0.next == 0,
    {
        if !observed.same(expected) {
            return Err(TuningConflict::ChangedOutside);
        }
        Ok(TuningWrite { desired, known: expected.copy(), next: 0 })
    }

    /// The next file that differs from what is known, if any; the files
    /// passed over already hold the desired bytes.
    pub fn next_write(&mut self) -> (r: Option<usize>)
        requires
            old(self).next <= 2,
        ensures
            rev(final(self).desired) == rev(old(self).desired),
            rev(final(self).known) == rev(old(self).known),
            final(self).next <= 2,
            final(self).next >= old(self).next,
            forall|i: int|
                old(self).next <= i < final(self).next ==> file_at(rev(old(self).known), i)
                    == file_at(rev(old(self).desired), i),
            match r {
                Some(i) => i == final(self).next && i < 2 && file_at(rev(old(self).known), i as int)
                    != file_at(rev(old(self).desired), i as int),
                None => final(self).next == 2,
            },
    {
        while self.next < 2
            invariant
                self.next <= 2,
                rev(self.desired) == rev(old(self).desired),
                rev(self.known) == rev(old(self).known),
                self.next >= old(self).next,
                forall|i: int|
                    old(self).next <= i < self.next ==> file_at(rev(old(self).known), i)
                        == file_at(rev(old(self).desired), i),
            decreases 2 - self.next,
        {
            let equal = if self.next == 0 {
                same_file(&self.known.pipewire, &self.desired.pipewire)
            } else {
                same_file(&self.known.wireplumber, &self.desired.wireplumber)
            };
            if !equal {
                return Some(self.next);
            }
            self.next = self.next + 1;
        }
        None
    }

    /// The text to write to file `i`: the desired bytes as text, or
    /// nothing (which removes the file).
    pub fn body(&self, i: usize) -> (r: String)
        requires
            i < 2,
            match file_at(rev(self.desired), i as int) {
                Some(b) => valid_utf8(b),
                None => true,
            },
        ensures
            match file_at(rev(self.desired), i as int) {
                Some(b) => r@ == decode_utf8(b),
                None => r@ == Seq::<char>::empty(),
            },
    {
        let f = if i == 0 {
            &self.desired.pipewire
        } else {
            &self.desired.wireplumber
        };
        match f {
            Some(b) => match utf8_text(b.as_slice()) {
                Some(s) => s,
                None => String::new(),
            },
            None => String::new(),
        }
    }

    fn take_desired(&mut self, i: usize)
        requires
            i < 2,
        ensures
            rev(final(self).desired) == rev(old(self).desired),
            final(self).next == old(self).next,
            rev(final(self).known) == with_file(
                rev(old(self).known),
                i as int,
                file_at(rev(old(self).desired), i as int),
            ),
    {
        if i == 0 {
            self.known.pipewire = copy_file(&self.desired.pipewire);
        } else {
            self.known.wireplumber = copy_file(&self.desired.wireplumber);
        }
    }

    /// File `i` was written: it now holds the desired bytes.
    pub fn written(&mut self, i: usize)
        requires
            i < 2,
            old(self).next == i,
        ensures
            rev(final(self).desired) == rev(old(self).desired),
            final(self).next == i + 1,
            rev(final(self).known) == with_file(
                rev(old(self).known),
                i as int,
                file_at(rev(old(self).desired), i as int),
            ),
    {
        self.take_desired(i);
        self.next = i + 1;
    }

    /// Writing file `i` failed; `readback` is what reading it back gave
    /// (`None` when the read failed). The rename may have happened before
    /// the failure: the file counts as ours only when it holds exactly the
    /// desired bytes, never an unrelated edit. The write ends here, and
    /// the result is the revision then known to be on disk.
    pub fn failed(self, i: usize, readback: Option<Option<Vec<u8>>>) -> (r: TuningRevision)
        requires
            i < 2,
        ensures
            rev(r) == (match readback {
                Some(f) => if file_view(f) == file_at(rev(self.desired), i as int) {
                    with_file(rev(self.known), i as int, file_at(rev(self.desired), i as int))
                } else {
                    rev(self.known)
                },
                None => rev(self.known),
            }),
    {
        let mut s = self;
        match readback {
            Some(f) => {
                let mine = if i == 0 {
                    same_file(&f, &s.desired.pipewire)
                } else {
                    same_file(&f, &s.desired.wireplumber)
                };
                if mine {
                    s.take_desired(i);
                }
            },
            None => {},
        }
        s.known
    }

    /// Every file was considered: the known revision is the result.
    pub fn finish(self) -> (r: TuningRevision)
        ensures
            rev(r) == rev(self.known),
    {
        self.known
    }
}

/// The bytes of a revision built from settings are UTF-8, so their text
/// can always be written.
pub proof fn rendered_revisions_are_text(t: UserTweaks)
    ensures
        match revision_of(t).0 {
            Some(b) => valid_utf8(b) && decode_utf8(b) == render_pipewire_spec(t),
            None => true,
        },
        match revision_of(t).1 {
            Some(b) => valid_utf8(b) && decode_utf8(b) == render_wireplumber_spec(t),
            None => true,
        },
{
    vstd::utf8::encode_utf8_valid_utf8(render_pipewire_spec(t));
    vstd::utf8::encode_utf8_valid_utf8(render_wireplumber_spec(t));
    vstd::utf8::encode_utf8_decode_utf8(render_pipewire_spec(t));
    vstd::utf8::encode_utf8_decode_utf8(render_wireplumber_spec(t));
}

/// Reading back a revision built from settings gives what parsing the
/// rendered texts gives.
pub proof fn a_written_revision_reads_back_as_its_text(t: UserTweaks)
    ensures
        tweaks_of(revision_of(t)) == Some(
            {
                let after_pw = match revision_of(t).0 {
                    None => no_tweaks(),
                    Some(_) => parse_pipewire_spec(render_pipewire_spec(t), no_tweaks()),
                };
                match revision_of(t).1 {
                    None => after_pw,
                    Some(_) => parse_wireplumber_spec(render_wireplumber_spec(t), after_pw),
                }
            },
        ),
{
    rendered_revisions_are_text(t);
}

} // verus!
