//! Identities of the ten-band equalizer and its voice presets.
//!
//! The preset identifiers are stable words stored in `settings.json`, and
//! every preset's gains are whole decibels; the gains a person sets by hand
//! are floating-point levels and live in the application.
use vstd::prelude::*;

use crate::text::{eq_v, to_chars};

verus! {

/// Number of equalizer bands, index-aligned with `EQ_BANDS_HZ`.
pub const EQ_BAND_COUNT: usize = 10;
/// Preset a fresh configuration starts with.
pub const EQ_PRESET_DEFAULT: &'static str = "flat";

/// The preset identifiers, in the order a dropdown shows them.
pub open spec fn preset_ids() -> Seq<Seq<char>> {
    seq![
        "default_voice"@,
        "flat"@,
        "voice_boost"@,
        "podcast"@,
        "warm"@,
        "bright"@,
        "de_esser"@,
        "bass_cut"@,
        "presence"@,
        "custom"@,
    ]
}

/// Ordered list of preset ids, for populating a dropdown.
pub fn eq_preset_ids() -> (r: Vec<&'static str>)
    ensures
        r@.map_values(|s: &str| s@) == preset_ids(),
{
    let mut r: Vec<&'static str> = Vec::new();
    r.push("default_voice");
    r.push("flat");
    r.push("voice_boost");
    r.push("podcast");
    r.push("warm");
    r.push("bright");
    r.push("de_esser");
    r.push("bass_cut");
    r.push("presence");
    r.push("custom");
    assert(r@.map_values(|s: &str| s@) =~= preset_ids());
    r
}

/// The gains of a preset, in decibels, band by band from the lowest.
pub open spec fn preset_bands_spec(id: Seq<char>) -> Option<Seq<i32>> {
    if id == "default_voice"@ {
        Some(seq![0i32, 0i32, 0i32, 1i32, 0i32, 1i32, 2i32, 3i32, 1i32, 0i32])
    } else if id == "flat"@ {
        Some(seq![0i32, 0i32, 0i32, 0i32, 0i32, 0i32, 0i32, 0i32, 0i32, 0i32])
    } else if id == "voice_boost"@ {
        Some(seq![-10i32, -5i32, 0i32, 5i32, 15i32, 20i32, 15i32, 10i32, 5i32, 0i32])
    } else if id == "podcast"@ {
        Some(seq![5i32, 5i32, 10i32, 5i32, 0i32, 5i32, 10i32, 5i32, 0i32, -5i32])
    } else if id == "warm"@ {
        Some(seq![10i32, 15i32, 10i32, 5i32, 0i32, -5i32, -10i32, -15i32, -15i32, -20i32])
    } else if id == "bright"@ {
        Some(seq![-10i32, -5i32, 0i32, 5i32, 10i32, 15i32, 20i32, 25i32, 20i32, 15i32])
    } else if id == "de_esser"@ {
        Some(seq![0i32, 0i32, 0i32, 0i32, 0i32, -5i32, -15i32, -25i32, -20i32, -10i32])
    } else if id == "bass_cut"@ {
        Some(seq![-40i32, -35i32, -25i32, -15i32, -5i32, 0i32, 0i32, 0i32, 0i32, 0i32])
    } else if id == "presence"@ {
        Some(seq![0i32, 0i32, 0i32, -3i32, -2i32, 2i32, 8i32, 10i32, 5i32, 0i32])
    } else if id == "custom"@ {
        Some(seq![0i32, 0i32, 0i32, 0i32, 0i32, 0i32, 0i32, 0i32, 0i32, 0i32])
    } else {
        None
    }
}

fn is(w: &Vec<char>, lit: &str) -> (r: bool)
    ensures
        r == (w@ == lit@),
{
    let l = to_chars(lit);
    eq_v(w, &l)
}

/// The gains of the preset named `id`, in decibels; `None` for a name that
/// is no preset.
pub fn eq_preset_bands(id: &str) -> (r: Option<Vec<i32>>)
    ensures
        match r {
            Some(v) => preset_bands_spec(id@) == Some(v@),
            None => preset_bands_spec(id@) is None,
        },
{
    let w = to_chars(id);
    let v: Vec<i32> = if is(&w, "default_voice") {
        vec![0, 0, 0, 1, 0, 1, 2, 3, 1, 0]
    } else if is(&w, "flat") {
        vec![0, 0, 0, 0, 0, 0, 0, 0, 0, 0]
    } else if is(&w, "voice_boost") {
        vec![-10, -5, 0, 5, 15, 20, 15, 10, 5, 0]
    } else if is(&w, "podcast") {
        vec![5, 5, 10, 5, 0, 5, 10, 5, 0, -5]
    } else if is(&w, "warm") {
        vec![10, 15, 10, 5, 0, -5, -10, -15, -15, -20]
    } else if is(&w, "bright") {
        vec![-10, -5, 0, 5, 10, 15, 20, 25, 20, 15]
    } else if is(&w, "de_esser") {
        vec![0, 0, 0, 0, 0, -5, -15, -25, -20, -10]
    } else if is(&w, "bass_cut") {
        vec![-40, -35, -25, -15, -5, 0, 0, 0, 0, 0]
    } else if is(&w, "presence") {
        vec![0, 0, 0, -3, -2, 2, 8, 10, 5, 0]
    } else if is(&w, "custom") {
        vec![0, 0, 0, 0, 0, 0, 0, 0, 0, 0]
    } else {
        return None;
    };
    proof {
        assert(preset_bands_spec(id@) == Some(v@)) by {
            assert(v@ =~= preset_bands_spec(id@)->Some_0);
        }
    }
    Some(v)
}

/// Every preset has one gain for each band, within the equalizer's range
/// of ±40 dB.
pub proof fn every_preset_has_a_gain_per_band()
    ensures
        forall|i: int|
            0 <= i < preset_ids().len() ==> (#[trigger] preset_bands_spec(preset_ids()[i])) is Some
                && preset_bands_spec(preset_ids()[i])->Some_0.len() == EQ_BAND_COUNT
                && forall|b: int|
                0 <= b < EQ_BAND_COUNT ==> -40 <= #[trigger] preset_bands_spec(preset_ids()[i])->Some_0[b] <= 40,
{
    reveal_strlit("default_voice");
    reveal_strlit("flat");
    reveal_strlit("voice_boost");
    reveal_strlit("podcast");
    reveal_strlit("warm");
    reveal_strlit("bright");
    reveal_strlit("de_esser");
    reveal_strlit("bass_cut");
    reveal_strlit("presence");
    reveal_strlit("custom");
    assert("flat"@[0] != "warm"@[0]);
    assert("bright"@[0] != "custom"@[0]);
    assert("de_esser"@[0] != "bass_cut"@[0]);
    assert("de_esser"@[0] != "presence"@[0]);
    assert("bass_cut"@[0] != "presence"@[0]);
    assert forall|i: int| 0 <= i < preset_ids().len() implies (#[trigger] preset_bands_spec(preset_ids()[i])) is Some
        && preset_bands_spec(preset_ids()[i])->Some_0.len() == EQ_BAND_COUNT
        && forall|b: int|
        0 <= b < EQ_BAND_COUNT ==> -40 <= #[trigger] preset_bands_spec(preset_ids()[i])->Some_0[b] <= 40 by {
        assert(preset_ids().len() == 10);
    }
}

} // verus!
