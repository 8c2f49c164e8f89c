//! The displayless probe's command line and the lines it prints.
//!
//! Connecting to PipeWire and waiting are the application's part; what
//! the arguments mean and what a node line says are decided here.
use vstd::prelude::*;

use crate::text::{dec, dec_v, eq_v, extend, extend_str, from_chars, parse_u64, parse_u64_v, to_chars,
    unsigned_text};

verus! {

/// How long the probe watches when no duration is given, in milliseconds.
pub const DEFAULT_DURATION_MS: u64 = 5000;

/// Why a number did not parse, as `u64::from_str` reports it.
#[derive(Debug, Clone, Copy, PartialEq, Eq, Structural)]
pub enum NumberError {
    Empty,
    InvalidDigit,
    TooLarge,
}

/// The message `ParseIntError` displays for each kind.
pub open spec fn number_error_text(e: NumberError) -> Seq<char> {
    match e {
        NumberError::Empty => "cannot parse integer from empty string"@,
        NumberError::InvalidDigit => "invalid digit found in string"@,
        NumberError::TooLarge => "number too large to fit in target type"@,
    }
}

impl NumberError {
    /// The message `ParseIntError` displays for this kind.
    pub fn message(self) -> (r: &'static str)
        ensures
            r@ == number_error_text(self),
    {
        match self {
            NumberError::Empty => "cannot parse integer from empty string",
            NumberError::InvalidDigit => "invalid digit found in string",
            NumberError::TooLarge => "number too large to fit in target type",
        }
    }
}

/// Why the probe's arguments were refused.
#[derive(Debug, Clone, PartialEq, Eq)]
pub enum ArgsError {
    /// `--duration-ms` was given a value that is not a number.
    BadValue(NumberError),
    /// `--duration-ms` came without a value.
    MissingValue,
    /// The first argument is not one the probe knows.
    Unknown(String),
}

/// What `u64::from_str` makes of `s`.
pub open spec fn number_of(s: Seq<char>) -> Result<u64, NumberError> {
    if s.len() == 0 {
        Err(NumberError::Empty)
    } else {
        match parse_u64(s) {
            Some(n) => Ok(n),
            None => match unsigned_text(s) {
                Some(_) => Err(NumberError::TooLarge),
                None => Err(NumberError::InvalidDigit),
            },
        }
    }
}

/// A refusal, by its text.
pub ghost enum ArgsFault {
    BadValue(NumberError),
    MissingValue,
    Unknown(Seq<char>),
}

/// A refusal as its text.
pub open spec fn fault_of(e: ArgsError) -> ArgsFault {
    match e {
        ArgsError::BadValue(n) => ArgsFault::BadValue(n),
        ArgsError::MissingValue => ArgsFault::MissingValue,
        ArgsError::Unknown(s) => ArgsFault::Unknown(s@),
    }
}

/// What the arguments ask for: `Ok(None)` for help, `Ok(Some(ms))` for a
/// watch of `ms` milliseconds (five seconds without arguments).
pub open spec fn duration_of(args: Seq<Seq<char>>) -> Result<Option<u64>, ArgsFault> {
    if args.len() == 0 {
        Ok(Some(DEFAULT_DURATION_MS))
    } else if args.len() == 1 && (args[0] == "--help"@ || args[0] == "-h"@) {
        Ok(None)
    } else if args.len() == 2 && args[0] == "--duration-ms"@ {
        match number_of(args[1]) {
            Ok(n) => Ok(Some(n)),
            Err(e) => Err(ArgsFault::BadValue(e)),
        }
    } else if args.len() == 1 && args[0] == "--duration-ms"@ {
        Err(ArgsFault::MissingValue)
    } else {
        Err(ArgsFault::Unknown(args[0]))
    }
}

/// The text of each argument.
pub open spec fn args_view(args: Seq<String>) -> Seq<Seq<char>> {
    args.map_values(|a: String| a@)
}

fn all_digits(v: &Vec<char>) -> (r: bool)
    ensures
        r == (unsigned_text(v@) is Some),
{
    let start: usize = if v.len() > 0 && v[0] == '+' {
        1
    } else {
        0
    };
    if start >= v.len() {
        return false;
    }
    let mut i = start;
    while i < v.len()
        invariant
            start <= i <= v.len(),
            start < v.len(),
            crate::text::unsigned_digits(v@) == v@.skip(start as int),
            forall|k: int| start <= k < i ==> crate::text::is_digit(#[trigger] v@[k]),
        decreases v.len() - i,
    {
        if !crate::text::char_is_digit(v[i]) {
            assert(crate::text::unsigned_digits(v@)[i - start] == v@[i as int]);
            return false;
        }
        i = i + 1;
    }
    assert forall|k: int| 0 <= k < crate::text::unsigned_digits(v@).len() implies crate::text::is_digit(
        #[trigger] crate::text::unsigned_digits(v@)[k],
    ) by {
        assert(crate::text::unsigned_digits(v@)[k] == v@[k + start]);
    }
    true
}

fn number_v(v: &Vec<char>) -> (r: Result<u64, NumberError>)
    ensures
        r == number_of(v@),
{
    if v.len() == 0 {
        return Err(NumberError::Empty);
    }
    match parse_u64_v(v) {
        Some(n) => Ok(n),
        None => {
            if all_digits(v) {
                Err(NumberError::TooLarge)
            } else {
                Err(NumberError::InvalidDigit)
            }
        },
    }
}

/// Read the probe's arguments.
pub fn parse_duration(args: &Vec<String>) -> (r: Result<Option<u64>, ArgsError>)
    ensures
        match r {
            Ok(o) => duration_of(args_view(args@)) == Ok::<Option<u64>, ArgsFault>(o),
            Err(e) => duration_of(args_view(args@)) == Err::<Option<u64>, ArgsFault>(fault_of(e)),
        },
{
    let ghost a = args_view(args@);
    if args.len() == 0 {
        return Ok(Some(DEFAULT_DURATION_MS));
    }
    let first = to_chars(args[0].as_str());
    assert(first@ == a[0]);
    if args.len() == 1 && (eq_v(&first, &to_chars("--help")) || eq_v(&first, &to_chars("-h"))) {
        return Ok(None);
    }
    let is_duration = eq_v(&first, &to_chars("--duration-ms"));
    if args.len() == 2 && is_duration {
        let value = to_chars(args[1].as_str());
        assert(value@ == a[1]);
        return match number_v(&value) {
            Ok(n) => Ok(Some(n)),
            Err(e) => Err(ArgsError::BadValue(e)),
        };
    }
    if args.len() == 1 && is_duration {
        return Err(ArgsError::MissingValue);
    }
    Err(ArgsError::Unknown(args[0].clone()))
}

impl ArgsError {
    /// The message the probe prints.
    pub fn message(&self) -> (r: String)
        ensures
            r@ == match self {
                ArgsError::BadValue(e) => "--duration-ms value: "@ + number_error_text(*e),
                ArgsError::MissingValue => "--duration-ms requires a value"@,
                ArgsError::Unknown(a) => "unknown argument: "@ + a@,
            },
    {
        match self {
            ArgsError::BadValue(e) => {
                let mut v = to_chars("--duration-ms value: ");
                extend_str(&mut v, e.message());
                from_chars(&v)
            },
            ArgsError::MissingValue => "--duration-ms requires a value".to_string(),
            ArgsError::Unknown(a) => {
                let mut v = to_chars("unknown argument: ");
                extend_str(&mut v, a.as_str());
                from_chars(&v)
            },
        }
    }
}

// ── Node lines ───────────────────────────────────────────────────────

/// The value of `key` among the properties, if present.
pub open spec fn prop_of(props: Seq<(String, String)>, key: Seq<char>) -> Option<Seq<char>>
    decreases props.len(),
{
    if props.len() == 0 {
        None
    } else if props[0].0@ == key {
        Some(props[0].1@)
    } else {
        prop_of(props.drop_first(), key)
    }
}

/// A property's value, `-` when it is missing.
pub open spec fn dash(v: Option<Seq<char>>) -> Seq<char> {
    match v {
        Some(s) => s,
        None => "-"@,
    }
}

/// `-` in place of an empty value.
pub open spec fn empty_as_dash(s: Seq<char>) -> Seq<char> {
    if s.len() == 0 {
        "-"@
    } else {
        s
    }
}

/// The value of the first of `keys` that is present.
pub open spec fn first_present(props: Seq<(String, String)>, keys: Seq<Seq<char>>) -> Option<Seq<char>>
    decreases keys.len(),
{
    if keys.len() == 0 {
        None
    } else {
        match prop_of(props, keys[0]) {
            Some(v) => Some(v),
            None => first_present(props, keys.drop_first()),
        }
    }
}

/// The line the probe prints for a node that appeared: a stream when its
/// media class starts with `Stream/`.
pub open spec fn node_line_spec(id: u32, props: Seq<(String, String)>) -> Seq<char> {
    let media_class = dash(prop_of(props, "media.class"@));
    let event = if crate::text::starts_with(media_class, "Stream/"@) {
        "stream"@
    } else {
        "node"@
    };
    "probe "@ + event + "_appeared id="@ + dec(id as nat) + " name="@ + dash(
        prop_of(props, "node.name"@),
    ) + " media_class="@ + empty_as_dash(media_class) + " state="@ + dash(
        prop_of(props, "node.state"@),
    ) + " quantum="@ + dash(
        first_present(props, seq!["clock.quantum"@, "node.quantum"@, "api.alsa.period-size"@]),
    ) + " rate="@ + dash(first_present(props, seq!["clock.rate"@, "node.rate"@, "audio.rate"@]))
        + " latency="@ + dash(first_present(props, seq!["node.latency"@, "api.alsa.headroom"@]))
        + " driver="@ + dash(prop_of(props, "node.driver"@)) + " target="@ + dash(
        first_present(props, seq!["target.object"@, "node.target"@]),
    )
}

fn prop_v(props: &Vec<(String, String)>, key: &str) -> (r: Option<Vec<char>>)
    ensures
        crate::text::opt_chars(r) == prop_of(props@, key@),
{
    let k = to_chars(key);
    let mut i: usize = 0;
    assert(props@.skip(0) =~= props@);
    while i < props.len()
        invariant
            i <= props.len(),
            k@ == key@,
            prop_of(props@, key@) == prop_of(props@.skip(i as int), key@),
        decreases props.len() - i,
    {
        assert(props@.skip(i as int).drop_first() =~= props@.skip(i + 1));
        assert(props@.skip(i as int)[0] == props@[i as int]);
        if eq_v(&to_chars(props[i].0.as_str()), &k) {
            return Some(to_chars(props[i].1.as_str()));
        }
        i = i + 1;
    }
    None
}

fn dash_v(v: Option<Vec<char>>) -> (r: Vec<char>)
    ensures
        r@ == dash(crate::text::opt_chars(v)),
{
    match v {
        Some(s) => s,
        None => to_chars("-"),
    }
}

fn first_present_v(props: &Vec<(String, String)>, keys: &Vec<&str>) -> (r: Option<Vec<char>>)
    ensures
        crate::text::opt_chars(r) == first_present(props@, keys@.map_values(|k: &str| k@)),
{
    let ghost ks = keys@.map_values(|k: &str| k@);
    let mut i: usize = 0;
    assert(ks.skip(0) =~= ks);
    while i < keys.len()
        invariant
            i <= keys.len(),
            ks == keys@.map_values(|k: &str| k@),
            first_present(props@, ks) == first_present(props@, ks.skip(i as int)),
        decreases keys.len() - i,
    {
        assert(ks.skip(i as int).drop_first() =~= ks.skip(i + 1));
        assert(ks.skip(i as int)[0] == keys@[i as int]@);
        match prop_v(props, keys[i]) {
            Some(v) => {
                return Some(v);
            },
            None => {},
        }
        i = i + 1;
    }
    None
}

/// The line printed for a node that appeared, from its id and its
/// properties in the order the registry lists them.
pub fn node_line(id: u32, props: &Vec<(String, String)>) -> (r: String)
    ensures
        r@ == node_line_spec(id, props@),
{
    let media_class = dash_v(prop_v(props, "media.class"));
    let stream = crate::text::starts_with_v(&media_class, &to_chars("Stream/"));
    let mut out = to_chars("probe ");
    if stream {
        extend_str(&mut out, "stream");
    } else {
        extend_str(&mut out, "node");
    }
    extend_str(&mut out, "_appeared id=");
    extend(&mut out, &dec_v(id as u64));
    extend_str(&mut out, " name=");
    extend(&mut out, &dash_v(prop_v(props, "node.name")));
    extend_str(&mut out, " media_class=");
    if media_class.len() == 0 {
        extend_str(&mut out, "-");
    } else {
        extend(&mut out, &media_class);
    }
    extend_str(&mut out, " state=");
    extend(&mut out, &dash_v(prop_v(props, "node.state")));
    extend_str(&mut out, " quantum=");
    let mut q: Vec<&str> = Vec::new();
    q.push("clock.quantum");
    q.push("node.quantum");
    q.push("api.alsa.period-size");
    assert(q@.map_values(|k: &str| k@) =~= seq!["clock.quantum"@, "node.quantum"@, "api.alsa.period-size"@]);
    extend(&mut out, &dash_v(first_present_v(props, &q)));
    extend_str(&mut out, " rate=");
    let mut r: Vec<&str> = Vec::new();
    r.push("clock.rate");
    r.push("node.rate");
    r.push("audio.rate");
    assert(r@.map_values(|k: &str| k@) =~= seq!["clock.rate"@, "node.rate"@, "audio.rate"@]);
    extend(&mut out, &dash_v(first_present_v(props, &r)));
    extend_str(&mut out, " latency=");
    let mut l: Vec<&str> = Vec::new();
    l.push("node.latency");
    l.push("api.alsa.headroom");
    assert(l@.map_values(|k: &str| k@) =~= seq!["node.latency"@, "api.alsa.headroom"@]);
    extend(&mut out, &dash_v(first_present_v(props, &l)));
    extend_str(&mut out, " driver=");
    extend(&mut out, &dash_v(prop_v(props, "node.driver")));
    extend_str(&mut out, " target=");
    let mut t: Vec<&str> = Vec::new();
    t.push("target.object");
    t.push("node.target");
    assert(t@.map_values(|k: &str| k@) =~= seq!["target.object"@, "node.target"@]);
    extend(&mut out, &dash_v(first_present_v(props, &t)));
    assert(out@ =~= node_line_spec(id, props@));
    from_chars(&out)
}

} // verus!
