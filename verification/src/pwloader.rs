//! Decisions of the module loader that do not need PipeWire itself: which
//! CPUs the system reports online, which of them are the fast ones, where a
//! module's argument file lives, which plugins a chain names, and when the
//! denoiser watch announces a change of state.
use vstd::prelude::*;

use crate::text::{
    char_pos, ends_with, find, lines, lines_view, parse_u64, parse_u64_v, parse_usize,
    parse_usize_v, path_join, slice_v, split_char, split_char_v, str_lines, strip_prefix,
    strip_prefix_v, to_chars, trim, trim_set, trim_set_v, trim_start, trim_v, ends_with_v,
    find_v, join_path, trim_start_v, eq_v,
};

verus! {

// ── Online CPUs ──────────────────────────────────────────────────────

/// The CPUs `a` to `b`, both included.
pub open spec fn cpu_range(a: usize, b: usize) -> Seq<usize> {
    Seq::new((b - a + 1) as nat, |k: int| (a + k) as usize)
}

/// The CPUs one comma-separated part of the sysfs list names: `n`, or a
/// range `a-b` with `a <= b`; anything else names none.
pub open spec fn cpu_part(p: Seq<char>) -> Seq<usize> {
    let d = char_pos(p, '-', 0);
    if d < p.len() {
        match (parse_usize(p.take(d)), parse_usize(p.skip(d + 1))) {
            (Some(a), Some(b)) => if a <= b {
                cpu_range(a, b)
            } else {
                seq![]
            },
            _ => seq![],
        }
    } else {
        match parse_usize(p) {
            Some(n) => seq![n],
            None => seq![],
        }
    }
}

/// The CPUs of several parts, in order.
pub open spec fn cpu_parts(ps: Seq<Seq<char>>) -> Seq<usize>
    decreases ps.len(),
{
    if ps.len() == 0 {
        seq![]
    } else {
        cpu_parts(ps.drop_last()) + cpu_part(ps.last())
    }
}

/// The CPUs listed in the text of `/sys/devices/system/cpu/online`.
pub open spec fn online_cpus(raw: Seq<char>) -> Seq<usize> {
    cpu_parts(split_char(trim(raw), ','))
}

fn cpu_range_v(a: usize, b: usize) -> (r: Vec<usize>)
    requires
        a <= b,
    ensures
        r@ == cpu_range(a, b),
{
    let mut out: Vec<usize> = Vec::new();
    let mut k = a;
    loop
        invariant
            a <= k <= b,
            out@ == Seq::new((k - a) as nat, |m: int| (a + m) as usize),
        decreases b - k,
    {
        out.push(k);
        assert(out@ =~= Seq::new((k + 1 - a) as nat, |m: int| (a + m) as usize));
        if k == b {
            assert(out@ =~= cpu_range(a, b));
            return out;
        }
        k = k + 1;
    }
}

fn cpu_part_v(p: &Vec<char>) -> (r: Vec<usize>)
    ensures
        r@ == cpu_part(p@),
{
    let mut d: usize = 0;
    while d < p.len() && p[d] != '-'
        invariant
            d <= p.len(),
            char_pos(p@, '-', 0) == char_pos(p@, '-', d as int),
        decreases p.len() - d,
    {
        d = d + 1;
    }
    if d < p.len() {
        let before = slice_v(p, 0, d);
        let after = slice_v(p, d + 1, p.len());
        assert(before@ =~= p@.take(d as int));
        assert(after@ =~= p@.skip(d + 1));
        match (parse_usize_v(&before), parse_usize_v(&after)) {
            (Some(a), Some(b)) => {
                if a <= b {
                    cpu_range_v(a, b)
                } else {
                    Vec::new()
                }
            },
            _ => Vec::new(),
        }
    } else {
        match parse_usize_v(p) {
            Some(n) => {
                let mut out: Vec<usize> = Vec::new();
                out.push(n);
                assert(out@ =~= seq![n]);
                out
            },
            None => Vec::new(),
        }
    }
}

/// The CPUs that the sysfs `online` list names, in its order: single
/// numbers and ranges `a-b` (with `a <= b`), separated by commas; a part
/// that is neither is skipped.
pub fn parse_online_cpus(raw: &str) -> (r: Vec<usize>)
    ensures
        r@ == online_cpus(raw@),
{
    let t = trim_v(&to_chars(raw));
    let parts = split_char_v(&t, ',');
    let ghost ps = lines_view(parts@);
    let mut out: Vec<usize> = Vec::new();
    let mut i: usize = 0;
    while i < parts.len()
        invariant
            i <= parts.len(),
            ps == lines_view(parts@),
            ps == split_char(trim(raw@), ','),
            out@ == cpu_parts(ps.take(i as int)),
        decreases parts.len() - i,
    {
        let mut cpus = cpu_part_v(&parts[i]);
        let ghost before = out@;
        out.append(&mut cpus);
        assert(ps.take(i + 1).drop_last() =~= ps.take(i as int));
        i = i + 1;
    }
    assert(ps.take(ps.len() as int) =~= ps);
    out
}

// ── Fast CPUs ────────────────────────────────────────────────────────

/// `u64::from_str` of the trimmed text of a `cpuinfo_max_freq` file.
pub open spec fn frequency_of(raw: Seq<char>) -> Option<u64> {
    parse_u64(trim(raw))
}

/// The maximum frequency a `cpuinfo_max_freq` file reports, in kHz.
pub fn parse_max_frequency(raw: &str) -> (r: Option<u64>)
    ensures
        r == frequency_of(raw@),
{
    parse_u64_v(&trim_v(&to_chars(raw)))
}

/// The highest frequency among `(cpu, frequency)` pairs, 0 for none.
pub open spec fn max_frequency(cpus: Seq<(usize, u64)>) -> u64
    decreases cpus.len(),
{
    if cpus.len() == 0 {
        0
    } else {
        let m = max_frequency(cpus.drop_last());
        if cpus.last().1 > m {
            cpus.last().1
        } else {
            m
        }
    }
}

/// The CPUs whose frequency is `f`, in order.
pub open spec fn cpus_at(cpus: Seq<(usize, u64)>, f: u64) -> Seq<usize>
    decreases cpus.len(),
{
    if cpus.len() == 0 {
        seq![]
    } else {
        let rest = cpus_at(cpus.drop_last(), f);
        if cpus.last().1 == f {
            rest.push(cpus.last().0)
        } else {
            rest
        }
    }
}

/// The CPUs worth pinning to: those at the highest frequency, unless there
/// are none or every CPU runs at it (a homogeneous machine gains nothing).
pub open spec fn fast_cpus_spec(cpus: Seq<(usize, u64)>) -> Option<Seq<usize>> {
    let fast = cpus_at(cpus, max_frequency(cpus));
    if cpus.len() == 0 || fast.len() == cpus.len() {
        None
    } else {
        Some(fast)
    }
}

/// The allowed CPUs to prefer, given each allowed online CPU with its
/// maximum frequency; `None` when pinning would gain nothing.
pub fn fast_cpus(cpus: &Vec<(usize, u64)>) -> (r: Option<Vec<usize>>)
    ensures
        match r {
            Some(v) => fast_cpus_spec(cpus@) == Some(v@),
            None => fast_cpus_spec(cpus@) is None,
        },
{
    if cpus.len() == 0 {
        return None;
    }
    let mut best: u64 = 0;
    let mut i: usize = 0;
    while i < cpus.len()
        invariant
            i <= cpus.len(),
            best == max_frequency(cpus@.take(i as int)),
        decreases cpus.len() - i,
    {
        assert(cpus@.take(i + 1).drop_last() =~= cpus@.take(i as int));
        if cpus[i].1 > best {
            best = cpus[i].1;
        }
        i = i + 1;
    }
    assert(cpus@.take(cpus@.len() as int) =~= cpus@);
    let mut fast: Vec<usize> = Vec::new();
    let mut k: usize = 0;
    while k < cpus.len()
        invariant
            k <= cpus.len(),
            best == max_frequency(cpus@),
            fast@ == cpus_at(cpus@.take(k as int), best),
        decreases cpus.len() - k,
    {
        assert(cpus@.take(k + 1).drop_last() =~= cpus@.take(k as int));
        if cpus[k].1 == best {
            fast.push(cpus[k].0);
        }
        k = k + 1;
    }
    if fast.len() == cpus.len() {
        None
    } else {
        Some(fast)
    }
}

// ── Argument files ───────────────────────────────────────────────────

/// Why an argument file cannot be located.
#[derive(Debug, Clone, Copy, PartialEq, Eq, Structural)]
pub enum ArgsPathError {
    /// `@config/` names a file the application does not write.
    UnknownName,
    /// `@config/` was used and no configuration root is known.
    NoConfigRoot,
}

impl ArgsPathError {
    /// The message the loader prints.
    pub fn message(self) -> (r: &'static str)
        ensures
            r@ == match self {
                ArgsPathError::UnknownName => "unknown application configuration name"@,
                ArgsPathError::NoConfigRoot => "XDG configuration directory is unavailable"@,
            },
    {
        match self {
            ArgsPathError::UnknownName => "unknown application configuration name",
            ArgsPathError::NoConfigRoot => "XDG configuration directory is unavailable",
        }
    }
}

/// The argument files the application writes under its configuration
/// directory.
pub open spec fn known_args_file(name: Seq<char>) -> bool {
    name == "mic.args"@ || name == "aec.args"@ || name == "output.args"@
}

/// Where an argument names its file: `@config/<name>` for one of the
/// application's own files under `config_root`, anything else verbatim.
pub open spec fn args_path(argument: Seq<char>, config_root: Option<Seq<char>>) -> Result<
    Seq<char>,
    ArgsPathError,
> {
    match strip_prefix(argument, "@config/"@) {
        Some(name) => if !known_args_file(name) {
            Err(ArgsPathError::UnknownName)
        } else {
            match config_root {
                None => Err(ArgsPathError::NoConfigRoot),
                Some(root) => Ok(path_join(path_join(root, "biglinux-microphone"@), name)),
            }
        },
        None => Ok(argument),
    }
}

/// Resolve a module's argument file as the loader is given it.
pub fn resolve_args_path(argument: &str, config_root: Option<&str>) -> (r: Result<
    String,
    ArgsPathError,
>)
    ensures
        match r {
            Ok(p) => args_path(argument@, crate::text::opt_str(config_root)) == Ok::<
                Seq<char>,
                ArgsPathError,
            >(p@),
            Err(e) => args_path(argument@, crate::text::opt_str(config_root)) == Err::<
                Seq<char>,
                ArgsPathError,
            >(e),
        },
{
    let arg = to_chars(argument);
    match strip_prefix_v(&arg, &to_chars("@config/")) {
        Some(name) => {
            let known = eq_v(&name, &to_chars("mic.args")) || eq_v(&name, &to_chars("aec.args"))
                || eq_v(&name, &to_chars("output.args"));
            if !known {
                return Err(ArgsPathError::UnknownName);
            }
            match config_root {
                None => Err(ArgsPathError::NoConfigRoot),
                Some(root) => {
                    let dir = join_path(root, "biglinux-microphone");
                    let name_s = crate::text::from_chars(&name);
                    Ok(join_path(dir.as_str(), name_s.as_str()))
                },
            }
        },
        None => Ok(crate::text::from_chars(&arg)),
    }
}

// ── Plugins of a chain ───────────────────────────────────────────────

/// The shared object one line of a filter-chain configuration names: the
/// value after the first `plugin` and an `=`, unquoted, when it ends in
/// `.so`.
pub open spec fn plugin_of_line(l: Seq<char>) -> Option<Seq<char>> {
    match find(l, "plugin"@) {
        None => None,
        Some(k) => match strip_prefix(trim_start(l.skip(k + 6)), seq!['=']) {
            None => None,
            Some(a) => {
                let path = trim_set(trim(a), seq!['"']);
                if ends_with(path, ".so"@) {
                    Some(path)
                } else {
                    None
                }
            },
        },
    }
}

/// The shared objects several lines name, in order.
pub open spec fn plugins_of_lines(ls: Seq<Seq<char>>) -> Seq<Seq<char>>
    decreases ls.len(),
{
    if ls.len() == 0 {
        seq![]
    } else {
        let rest = plugins_of_lines(ls.drop_last());
        match plugin_of_line(ls.last()) {
            Some(p) => rest.push(p),
            None => rest,
        }
    }
}

fn plugin_of_line_v(l: &Vec<char>) -> (r: Option<Vec<char>>)
    ensures
        crate::text::opt_chars(r) == plugin_of_line(l@),
{
    match find_v(l, &to_chars("plugin")) {
        None => None,
        Some(k) => {
            proof {
                reveal_strlit("plugin");
                crate::text::lemma_find_from(l@, "plugin"@, 0);
                assert(crate::text::occurs_at(l@, "plugin"@, k as int));
                assert("plugin"@.len() == 6);
                assert(k + 6 <= l@.len());
            }
            let n = l.len();
            let rest = slice_v(l, k + 6, n);
            assert(rest@ =~= l@.skip(k + 6));
            let mut eq: Vec<char> = Vec::new();
            eq.push('=');
            assert(eq@ =~= seq!['=']);
            match strip_prefix_v(&trim_start_v(&rest), &eq) {
                None => None,
                Some(a) => {
                    let mut quote: Vec<char> = Vec::new();
                    quote.push('"');
                    assert(quote@ =~= seq!['"']);
                    let path = trim_set_v(&trim_v(&a), &quote);
                    if ends_with_v(&path, &to_chars(".so")) {
                        Some(path)
                    } else {
                        None
                    }
                },
            }
        },
    }
}

/// Every shared object a filter-chain configuration names, one per line
/// that names one, in order; builtin entries name none.
pub fn plugin_paths(chain_args: &str) -> (r: Vec<String>)
    ensures
        r@.len() == plugins_of_lines(lines(chain_args@)).len(),
        forall|i: int| 0 <= i < r@.len() ==> #[trigger] r@[i]@ == plugins_of_lines(lines(chain_args@))[i],
{
    let ls = str_lines(chain_args);
    let ghost v = lines_view(ls@);
    let mut out: Vec<String> = Vec::new();
    let mut i: usize = 0;
    while i < ls.len()
        invariant
            i <= ls.len(),
            v == lines_view(ls@),
            v == lines(chain_args@),
            out@.len() == plugins_of_lines(v.take(i as int)).len(),
            forall|m: int| 0 <= m < out@.len() ==> #[trigger] out@[m]@ == plugins_of_lines(v.take(i as int))[m],
        decreases ls.len() - i,
    {
        assert(v.take(i + 1).drop_last() =~= v.take(i as int));
        assert(v.take(i + 1).last() == v[i as int]);
        match plugin_of_line_v(&ls[i]) {
            Some(p) => {
                out.push(crate::text::from_chars(&p));
            },
            None => {},
        }
        i = i + 1;
    }
    assert(v.take(v.len() as int) =~= v);
    out
}

// ── Denoiser watch ───────────────────────────────────────────────────

/// Percent of hops that must come back enhanced for a chain announced as
/// degraded to be called healthy again.
pub const HEALTHY_PERCENT: u64 = 98;
/// Below this percent of enhanced hops, a healthy chain is degraded: the
/// user hears the raw microphone often enough to notice.
pub const DEGRADED_PERCENT: u64 = 90;

/// Whether a window in which `enhanced` of `asked` hops came back enhanced
/// is degraded. Which band applies depends on what was announced last: a
/// chain called degraded has to climb back over the upper band, not merely
/// over the lower one, so a chain sitting on the line is not announced
/// twice a minute.
pub open spec fn window_is_degraded(asked: u64, enhanced: u64, announced_degraded: bool) -> bool {
    if announced_degraded {
        enhanced * 100 < asked * HEALTHY_PERCENT
    } else {
        enhanced * 100 < asked * DEGRADED_PERCENT
    }
}

/// The verdict on one counted window.
pub fn is_degraded(asked: u64, enhanced: u64, announced_degraded: bool) -> (r: bool)
    ensures
        r == window_is_degraded(asked, enhanced, announced_degraded),
{
    let band: u64 = if announced_degraded {
        HEALTHY_PERCENT
    } else {
        DEGRADED_PERCENT
    };
    let e: u128 = enhanced as u128;
    let a: u128 = asked as u128;
    let b: u128 = band as u128;
    assert(e * 100 < 0x1_0000_0000_0000_0000 * 100) by (nonlinear_arith)
        requires
            e < 0x1_0000_0000_0000_0000,
    ;
    assert(a * b <= a * 100) by (nonlinear_arith)
        requires
            b <= 100,
    ;
    assert(a * 100 < 0x1_0000_0000_0000_0000 * 100) by (nonlinear_arith)
        requires
            a < 0x1_0000_0000_0000_0000,
    ;
    e * 100 < a * b
}

/// The bands never cross: a window degraded for a healthy chain is degraded
/// for one already announced as degraded too, and a window healthy for a
/// degraded chain is healthy for a healthy one.
pub proof fn the_bands_keep_the_announced_state(asked: u64, enhanced: u64)
    ensures
        window_is_degraded(asked, enhanced, false) ==> window_is_degraded(asked, enhanced, true),
        !window_is_degraded(asked, enhanced, true) ==> !window_is_degraded(asked, enhanced, false),
{
}

/// What one sample of the denoiser's counters says about the window since
/// the previous one.
#[derive(Debug, Clone, Copy, PartialEq, Eq, Structural)]
pub enum Window {
    /// No evidence: the first sample, a counter reset, or nothing captured.
    Skip,
    /// Hops asked for in the window, and how many of them came back enhanced.
    Counted { asked: u64, enhanced: u64 },
}

/// What the watch does with a window's verdict.
#[derive(Debug, Clone, Copy, PartialEq, Eq, Structural)]
pub enum Judgement {
    /// A verdict other than the one being timed: start timing it.
    Restart,
    /// The verdict holds and has nothing new to say yet.
    Hold,
    /// The verdict has held long enough and differs from what was last
    /// announced: announce it, and start timing again.
    Announce,
}

/// The watch's memory between samples; the time a verdict started is kept
/// beside it by the caller.
#[derive(Debug, Clone, Copy)]
pub struct DenoiseState {
    /// The counters at the previous sample: total hops, enhanced hops.
    pub last: Option<(u64, u64)>,
    /// Whether the last announced state was "degraded".
    pub announced_degraded: bool,
    /// The verdict being timed, if any.
    pub verdict: Option<bool>,
}

/// The window between the previous counters and `(total, enhanced)`.
pub open spec fn window_of(last: Option<(u64, u64)>, total: u64, enhanced: u64) -> Window {
    match last {
        None => Window::Skip,
        Some((pt, pe)) => if total < pt || enhanced < pe || total == pt {
            Window::Skip
        } else {
            Window::Counted { asked: (total - pt) as u64, enhanced: (enhanced - pe) as u64 }
        },
    }
}

impl DenoiseState {
    /// A watch that has seen nothing and announced nothing.
    pub fn new() -> (r: DenoiseState)
        ensures
            r == (DenoiseState { last: None, announced_degraded: false, verdict: None }),
    {
        DenoiseState { last: None, announced_degraded: false, verdict: None }
    }

    /// Take one sample of the counters. A window that straddles a reset,
    /// or in which nothing was captured, drops the verdict being timed.
    pub fn sample(&mut self, total: u64, enhanced: u64) -> (w: Window)
        ensures
            w == window_of(old(self).last, total, enhanced),
            final(self).last == Some((total, enhanced)),
            final(self).announced_degraded == old(self).announced_degraded,
            final(self).verdict == (if old(self).last is Some && w is Skip {
                None
            } else {
                old(self).verdict
            }),
    {
        let previous = self.last;
        self.last = Some((total, enhanced));
        match previous {
            None => Window::Skip,
            Some((pt, pe)) => {
                if total < pt || enhanced < pe || total == pt {
                    self.verdict = None;
                    Window::Skip
                } else {
                    Window::Counted { asked: total - pt, enhanced: enhanced - pe }
                }
            },
        }
    }

    /// Weigh a counted window's verdict. `settled` says whether the verdict
    /// being timed has held for the settling time. Only a verdict that has
    /// held that long and differs from the last announcement is announced,
    /// so the same state is never announced twice in a row.
    pub fn judge(&mut self, degraded: bool, settled: bool) -> (j: Judgement)
        ensures
            j == (match old(self).verdict {
                Some(held) if held == degraded => if settled && degraded
                    != old(self).announced_degraded {
                    Judgement::Announce
                } else {
                    Judgement::Hold
                },
                _ => Judgement::Restart,
            }),
            final(self).last == old(self).last,
            final(self).verdict == Some(degraded),
            final(self).announced_degraded == (if j is Announce {
                degraded
            } else {
                old(self).announced_degraded
            }),
            j is Announce ==> degraded != old(self).announced_degraded,
    {
        match self.verdict {
            Some(held) if held == degraded => {
                if settled && degraded != self.announced_degraded {
                    self.announced_degraded = degraded;
                    Judgement::Announce
                } else {
                    Judgement::Hold
                }
            },
            _ => {
                self.verdict = Some(degraded);
                Judgement::Restart
            },
        }
    }
}

} // verus!
