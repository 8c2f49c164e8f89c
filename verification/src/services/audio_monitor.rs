//! The spectrum meter's fixed parameters, its capture command, the ring of
//! samples it analyses and the bins each band covers.
//!
//! The transform and the levels in dB are floating-point work and belong
//! to the application; the integer bookkeeping around them is here.
use vstd::prelude::*;

use crate::text::{dec, dec_v, from_chars};

verus! {

/// Number of frequency bands per frame.
pub const DEFAULT_BAND_COUNT: usize = 30;
/// Samples per analysis window (about 42 ms at 48 kHz).
pub const DEFAULT_FFT_SIZE: usize = 2048;
/// Samples between two frames (about 10.6 ms at 48 kHz).
pub const DEFAULT_HOP_SIZE: usize = 512;
/// Sample rate of the capture.
pub const DEFAULT_SAMPLE_RATE: u32 = 48_000;

/// The defaults fit together: a hop is shorter than a window, both are
/// powers of two, and there are no more bands than bins.
pub proof fn monitor_defaults_are_consistent()
    ensures
        DEFAULT_HOP_SIZE < DEFAULT_FFT_SIZE,
        DEFAULT_FFT_SIZE == 2048 && 2048 == 1024 * 2 && 1024 == 512 * 2,
        DEFAULT_HOP_SIZE == 512 && 512 == 256 * 2 && 256 == 128 * 2,
        DEFAULT_BAND_COUNT <= DEFAULT_FFT_SIZE / 2,
{
}

/// The properties the meter's capture stream carries: the same mark the
/// desktop's own level meters carry, so the shell does not report the
/// meter as somebody recording, and whose stream it is.
pub const MARKED_AS_A_METER: &'static str = "{ media.role=monitor media.category=Monitor application.id=br.com.biglinux.microphone application.name=\"Filter noise\" node.name=biglinux-microphone.meter.spectrum node.description=\"Filter noise \u{2014} analisador de espectro\" }";

/// The program the meter reads the microphone with.
pub const METER_PROGRAM: &'static str = "/usr/bin/pw-cat";

/// The arguments of `pw-cat` for the meter: record raw mono 32-bit floats
/// at `sample_rate` from the default input, marked as a meter.
pub open spec fn meter_args_spec(sample_rate: u32) -> Seq<Seq<char>> {
    seq![
        "--record"@,
        "-"@,
        "--target"@,
        "@DEFAULT_SOURCE@"@,
        "--raw"@,
        "--format"@,
        "f32"@,
        "--rate"@,
        dec(sample_rate as nat),
        "--channels"@,
        "1"@,
        "-P"@,
        MARKED_AS_A_METER@,
    ]
}

/// The meter's `pw-cat` arguments.
pub fn meter_capture_args(sample_rate: u32) -> (r: Vec<String>)
    ensures
        r@.len() == 13,
        forall|i: int| 0 <= i < 13 ==> #[trigger] r@[i]@ == meter_args_spec(sample_rate)[i],
{
    let mut r: Vec<String> = Vec::new();
    r.push("--record".to_string());
    r.push("-".to_string());
    r.push("--target".to_string());
    r.push("@DEFAULT_SOURCE@".to_string());
    r.push("--raw".to_string());
    r.push("--format".to_string());
    r.push("f32".to_string());
    r.push("--rate".to_string());
    r.push(from_chars(&dec_v(sample_rate as u64)));
    r.push("--channels".to_string());
    r.push("1".to_string());
    r.push("-P".to_string());
    r.push(MARKED_AS_A_METER.to_string());
    r
}

// ── The ring of samples ──────────────────────────────────────────────

/// The last `size` samples of a stream, kept in a ring.
pub struct Ring<T> {
    pub ring: Vec<T>,
    /// Where the next sample goes.
    pub write_pos: usize,
    /// Samples taken since the start, saturating.
    pub samples_read: usize,
}

impl<T: Copy> Ring<T> {
    /// The ring is never empty and its position stays inside it.
    pub open spec fn wf(&self) -> bool {
        &&& self.ring@.len() > 0
        &&& self.write_pos < self.ring@.len()
    }

    /// The samples in the order they arrived, oldest first.
    pub open spec fn chronological(&self) -> Seq<T> {
        self.ring@.skip(self.write_pos as int) + self.ring@.take(self.write_pos as int)
    }

    /// A ring of `size` copies of `silence`.
    pub fn new(size: usize, silence: T) -> (r: Ring<T>)
        requires
            size > 0,
        ensures
            r.wf(),
            r.ring@ == Seq::new(size as nat, |i: int| silence),
            r.write_pos == 0,
            r.samples_read == 0,
    {
        let mut ring: Vec<T> = Vec::new();
        let mut i: usize = 0;
        while i < size
            invariant
                i <= size,
                ring@ == Seq::new(i as nat, |k: int| silence),
            decreases size - i,
        {
            ring.push(silence);
            i = i + 1;
            assert(ring@ =~= Seq::new(i as nat, |k: int| silence));
        }
        Ring { ring, write_pos: 0, samples_read: 0 }
    }

    /// The window is full: at least `size` samples arrived.
    pub fn ready(&self) -> (r: bool)
        ensures
            r == (self.samples_read >= self.ring@.len()),
    {
        self.samples_read >= self.ring.len()
    }

    /// Take one sample: it replaces the oldest one.
    pub fn push(&mut self, sample: T)
        requires
            old(self).wf(),
        ensures
            final(self).wf(),
            final(self).ring@.len() == old(self).ring@.len(),
            final(self).chronological() == old(self).chronological().drop_first().push(sample),
            final(self).samples_read == (if old(self).samples_read < usize::MAX {
                old(self).samples_read + 1
            } else {
                old(self).samples_read as int
            }),
    {
        let ghost before = self.chronological();
        let ghost w = self.write_pos as int;
        let ghost old_ring = self.ring@;
        let pos = self.write_pos;
        let len = self.ring.len();
        self.ring.set(pos, sample);
        self.write_pos = if pos + 1 == len {
            0
        } else {
            pos + 1
        };
        self.samples_read = if self.samples_read < usize::MAX {
            self.samples_read + 1
        } else {
            self.samples_read
        };
        let ghost n = old_ring.len() as int;
        assert(self.chronological() =~= before.drop_first().push(sample)) by {
            let c = self.chronological();
            let e = before.drop_first().push(sample);
            assert(c.len() == e.len());
            assert forall|k: int| 0 <= k < c.len() implies c[k] == e[k] by {
                if k < n - 1 {
                    assert(e[k] == before[k + 1]);
                    if w + 1 + k < n {
                        assert(before[k + 1] == old_ring[w + 1 + k]);
                    } else {
                        assert(before[k + 1] == old_ring[w + 1 + k - n]);
                    }
                }
            }
        }
    }

    /// Copy the window into `out`, oldest sample first.
    pub fn copy_window_into(&self, out: &mut Vec<T>)
        requires
            self.wf(),
        ensures
            final(out)@ == self.chronological(),
    {
        out.clear();
        let mut i: usize = self.write_pos;
        while i < self.ring.len()
            invariant
                self.write_pos <= i <= self.ring@.len(),
                out@ == self.ring@.subrange(self.write_pos as int, i as int),
            decreases self.ring@.len() - i,
        {
            out.push(self.ring[i]);
            i = i + 1;
            assert(out@ =~= self.ring@.subrange(self.write_pos as int, i as int));
        }
        let ghost first = out@;
        let mut k: usize = 0;
        while k < self.write_pos
            invariant
                k <= self.write_pos,
                self.write_pos < self.ring@.len(),
                first == self.ring@.skip(self.write_pos as int),
                out@ == first + self.ring@.take(k as int),
            decreases self.write_pos - k,
        {
            out.push(self.ring[k]);
            k = k + 1;
            assert(out@ =~= first + self.ring@.take(k as int));
        }
        assert(first =~= self.ring@.skip(self.write_pos as int));
    }
}

// ── The bins of each band ────────────────────────────────────────────

/// `a.saturating_sub(1)`.
pub open spec fn last_bin(bins: usize) -> int {
    if bins == 0 {
        0
    } else {
        bins - 1
    }
}

/// The smaller of two integers.
pub open spec fn min_int(a: int, b: int) -> int {
    if a < b {
        a
    } else {
        b
    }
}

/// The larger of two integers.
pub open spec fn max_int(a: int, b: int) -> int {
    if a > b {
        a
    } else {
        b
    }
}

/// The bands after the first `k` raw ones, and where the next one may
/// start: each band starts no earlier than the bin after the previous one,
/// spans at least its own start bin, and stays within the bins.
pub open spec fn bands_upto(raw: Seq<(usize, usize)>, bins: usize, k: int) -> (Seq<(usize, usize)>, int)
    decreases k,
{
    if k <= 0 {
        (seq![], 0)
    } else {
        let (done, next) = bands_upto(raw, bins, k - 1);
        let lo = min_int(max_int(raw[k - 1].0 as int, next), last_bin(bins));
        let hi = min_int(max_int(raw[k - 1].1 as int, lo), last_bin(bins));
        (done.push((lo as usize, hi as usize)), hi + 1)
    }
}

proof fn lemma_bands(raw: Seq<(usize, usize)>, bins: usize, k: int)
    requires
        0 <= k <= raw.len(),
    ensures
        bands_upto(raw, bins, k).0.len() == k,
        k > 0 ==> bands_upto(raw, bins, k).1 == bands_upto(raw, bins, k).0[k - 1].1 + 1,
        forall|i: int|
            0 <= i < k ==> (#[trigger] bands_upto(raw, bins, k).0[i]).0 <= bands_upto(
                raw,
                bins,
                k,
            ).0[i].1 <= last_bin(bins),
        forall|i: int|
            0 < i < k ==> (#[trigger] bands_upto(raw, bins, k).0[i]).0 >= bands_upto(
                raw,
                bins,
                k,
            ).0[i - 1].1,
    decreases k,
{
    if k > 0 {
        lemma_bands(raw, bins, k - 1);
    }
}

/// Fit log-spaced bands, given as raw `(low, high)` bins, onto the `bins`
/// bins of a spectrum: each band starts after the previous one ended (or
/// on the last bin), covers at least one bin, and no band overlaps the
/// one before it.
pub fn fit_bands(raw: &Vec<(usize, usize)>, bins: usize) -> (r: Vec<(usize, usize)>)
    ensures
        r@ == bands_upto(raw@, bins, raw@.len() as int).0,
        r@.len() == raw@.len(),
        forall|i: int| 0 <= i < r@.len() ==> (#[trigger] r@[i]).0 <= r@[i].1,
        forall|i: int| 0 < i < r@.len() ==> (#[trigger] r@[i]).0 >= r@[i - 1].1,
{
    let top: usize = if bins == 0 {
        0
    } else {
        bins - 1
    };
    let mut out: Vec<(usize, usize)> = Vec::new();
    let mut next: usize = 0;
    let mut k: usize = 0;
    while k < raw.len()
        invariant
            k <= raw@.len(),
            top == last_bin(bins),
            out@ == bands_upto(raw@, bins, k as int).0,
            next == bands_upto(raw@, bins, k as int).1,
        decreases raw@.len() - k,
    {
        proof {
            lemma_bands(raw@, bins, k as int);
        }
        let (lo_bin, hi_bin) = raw[k];
        let a = if lo_bin > next {
            lo_bin
        } else {
            next
        };
        let lo = if a < top {
            a
        } else {
            top
        };
        let b = if hi_bin > lo {
            hi_bin
        } else {
            lo
        };
        let hi = if b < top {
            b
        } else {
            top
        };
        out.push((lo, hi));
        next = hi + 1;
        k = k + 1;
    }
    proof {
        lemma_bands(raw@, bins, raw@.len() as int);
    }
    out
}

} // verus!
