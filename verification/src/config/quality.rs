//! Which noise model to run: a policy over one struct of readings.
//!
//! The policy is reproducible (the same readings give the same answer) and
//! sticky: the model in force is an input, and it keeps its place until the
//! readings are clearly past a line rather than merely over it, because a
//! model swap reloads the chain and a reload is a gap somebody hears. The
//! lightest model is the floor, never a refusal.
//!
//! The two floating-point readings (the graph's load and what the heavy
//! model measured) arrive already placed against the policy's lines: the
//! graph's load as [`GraphLoad`] (below 0.35 of the period, up to 0.55, or
//! above), the heavy model's share of its deadline as [`HeavyCost`] (at most
//! half, or more).
use vstd::prelude::*;

use super::noise_model::NoiseModel;
use crate::text::{eq_v, to_chars};

verus! {

/// What the person asked for.
#[derive(Debug, Clone, Copy, PartialEq, Eq, Structural)]
pub enum Quality {
    /// Let this computer decide, and change its mind when the machine changes.
    Automatic,
    /// The best model that will load, whatever it costs.
    Best,
    /// The cheapest model, so the machine stays free for everything else.
    Cheapest,
    /// A model picked by name in the expert list; the policy leaves it alone.
    Manual,
}

/// The words a command line or a settings file may carry.
pub open spec fn quality_of(word: Seq<char>) -> Option<Quality> {
    if word == "auto"@ || word == "automatic"@ {
        Some(Quality::Automatic)
    } else if word == "best"@ || word == "quality"@ {
        Some(Quality::Best)
    } else if word == "cheapest"@ || word == "economy"@ || word == "light"@ {
        Some(Quality::Cheapest)
    } else if word == "manual"@ {
        Some(Quality::Manual)
    } else {
        None
    }
}

/// The word each choice is written as.
pub open spec fn quality_word(q: Quality) -> Seq<char> {
    match q {
        Quality::Automatic => "auto"@,
        Quality::Best => "best"@,
        Quality::Cheapest => "cheapest"@,
        Quality::Manual => "manual"@,
    }
}

impl Quality {
    /// Parse the word a command line or a settings file carries.
    pub fn parse(word: &str) -> (r: Option<Self>)
        ensures
            r == quality_of(word@),
    {
        let w = to_chars(word);
        if eq_v(&w, &to_chars("auto")) || eq_v(&w, &to_chars("automatic")) {
            Some(Quality::Automatic)
        } else if eq_v(&w, &to_chars("best")) || eq_v(&w, &to_chars("quality")) {
            Some(Quality::Best)
        } else if eq_v(&w, &to_chars("cheapest")) || eq_v(&w, &to_chars("economy")) || eq_v(
            &w,
            &to_chars("light"),
        ) {
            Some(Quality::Cheapest)
        } else if eq_v(&w, &to_chars("manual")) {
            Some(Quality::Manual)
        } else {
            None
        }
    }

    /// The word this writes back, which is the one `parse` prefers.
    pub fn word(self) -> (r: &'static str)
        ensures
            r@ == quality_word(self),
    {
        match self {
            Quality::Automatic => "auto",
            Quality::Best => "best",
            Quality::Cheapest => "cheapest",
            Quality::Manual => "manual",
        }
    }

    /// Whether the model is this policy's to write.
    pub fn decides_the_model(self) -> (r: bool)
        ensures
            r == (self != Quality::Manual),
    {
        match self {
            Quality::Manual => false,
            _ => true,
        }
    }
}

impl Default for Quality {
    fn default() -> (r: Self)
        ensures
            r == Quality::Automatic,
    {
        Quality::Automatic
    }
}

/// The word written for a choice is read back as that choice.
pub proof fn quality_word_round_trips(q: Quality)
    ensures
        quality_of(quality_word(q)) == Some(q),
{
    reveal_strlit("auto");
    reveal_strlit("automatic");
    reveal_strlit("best");
    reveal_strlit("quality");
    reveal_strlit("cheapest");
    reveal_strlit("economy");
    reveal_strlit("light");
    reveal_strlit("manual");
    assert("best"@[0] != "auto"@[0]);
    assert("best"@ != "auto"@);
    assert("best"@ != "automatic"@);
    assert("cheapest"@.len() != "auto"@.len());
    assert("manual"@.len() != "auto"@.len());
}

/// The sound graph's load, placed against the policy's two lines.
#[derive(Debug, Clone, Copy, PartialEq, Eq, Structural)]
pub enum GraphLoad {
    /// Below 0.35 of the period: room to take on the heavy model.
    Roomy,
    /// From 0.35 to 0.55: the hysteresis band, where the model in force stays.
    Middling,
    /// Above 0.55: no room even to keep the heavy model.
    Crowded,
}

/// What the heavy model measured on this machine, as a share of one callback
/// deadline at p99, placed against the line of one half.
#[derive(Debug, Clone, Copy, PartialEq, Eq, Structural)]
pub enum HeavyCost {
    /// At most half the deadline.
    Affordable,
    /// More than half: the heavy model does not belong on this machine.
    TooDear,
}

/// What the machine looks like right now. `None` means the reading is not
/// available here, which is never counted against the machine.
#[derive(Debug, Clone, Copy, PartialEq, Eq, Structural)]
pub struct Machine {
    /// How many processors the scheduler can use.
    pub cores: usize,
    /// Running on battery rather than mains, where that is knowable.
    pub on_battery: Option<bool>,
    /// The graph's load, where it was measured.
    pub graph_load: Option<GraphLoad>,
    /// Blocks missed recently.
    pub recent_xruns: u32,
    /// How many filter chains run a noise model at once.
    pub filters: usize,
    /// A call is in progress, where that is knowable.
    pub in_a_call: Option<bool>,
    /// What the heavy model costs here, where it was measured.
    pub heavy_share: Option<HeavyCost>,
}

/// A processor with fewer cores than this never gets the heavy model.
pub const ENOUGH_CORES: usize = 4;

/// The heaviest model the automatic choice takes.
pub open spec fn heavy() -> NoiseModel {
    NoiseModel::DpdfnetV2Hr
}

/// The lightest model, the floor of every choice.
pub open spec fn light() -> NoiseModel {
    NoiseModel::GtcrnDns3
}

/// What "best" means when a person asks for it by name.
pub open spec fn best() -> NoiseModel {
    NoiseModel::DeepFilterNet3
}

/// Any one of these readings is on its own a reason to run the light model.
pub open spec fn must_step_down(m: Machine) -> bool {
    ||| m.cores < ENOUGH_CORES
    ||| m.recent_xruns > 0
    ||| m.on_battery == Some(true)
    ||| m.in_a_call == Some(true)
    ||| m.filters > 1
    ||| m.heavy_share == Some(HeavyCost::TooDear)
}

/// The automatic choice: staying heavy needs only that the graph is not
/// crowded, becoming heavy needs room to spare.
pub open spec fn automatic_spec(m: Machine, standing: Option<NoiseModel>) -> NoiseModel {
    if must_step_down(m) {
        light()
    } else {
        match m.graph_load {
            None => heavy(),
            Some(GraphLoad::Crowded) => light(),
            Some(GraphLoad::Roomy) => heavy(),
            Some(GraphLoad::Middling) => if standing == Some(heavy()) {
                heavy()
            } else {
                light()
            },
        }
    }
}

/// The model to run for a choice.
pub open spec fn choose_spec(q: Quality, m: Machine, standing: Option<NoiseModel>) -> NoiseModel {
    match q {
        Quality::Best => best(),
        Quality::Cheapest => light(),
        Quality::Automatic => automatic_spec(m, standing),
        Quality::Manual => match standing {
            Some(s) => s,
            None => light(),
        },
    }
}

fn automatic(machine: &Machine, standing: Option<NoiseModel>) -> (r: NoiseModel)
    ensures
        r == automatic_spec(*machine, standing),
{
    if machine.cores < ENOUGH_CORES {
        return NoiseModel::GtcrnDns3;
    }
    if machine.recent_xruns > 0 {
        return NoiseModel::GtcrnDns3;
    }
    if machine.on_battery == Some(true) || machine.in_a_call == Some(true) {
        return NoiseModel::GtcrnDns3;
    }
    if machine.filters > 1 {
        return NoiseModel::GtcrnDns3;
    }
    if machine.heavy_share == Some(HeavyCost::TooDear) {
        return NoiseModel::GtcrnDns3;
    }
    let heavy_now = standing == Some(NoiseModel::DpdfnetV2Hr);
    match machine.graph_load {
        None => NoiseModel::DpdfnetV2Hr,
        Some(GraphLoad::Crowded) => NoiseModel::GtcrnDns3,
        Some(GraphLoad::Roomy) => NoiseModel::DpdfnetV2Hr,
        Some(GraphLoad::Middling) => if heavy_now {
            NoiseModel::DpdfnetV2Hr
        } else {
            NoiseModel::GtcrnDns3
        },
    }
}

/// Choose the model to run. `standing` is the model in force, which is what
/// makes the choice sticky; `None` when nothing runs yet.
pub fn choose_model(quality: Quality, machine: &Machine, standing: Option<NoiseModel>) -> (r: NoiseModel)
    ensures
        r == choose_spec(quality, *machine, standing),
{
    match quality {
        Quality::Best => NoiseModel::DeepFilterNet3,
        Quality::Cheapest => NoiseModel::GtcrnDns3,
        Quality::Automatic => automatic(machine, standing),
        Quality::Manual => match standing {
            Some(s) => s,
            None => NoiseModel::GtcrnDns3,
        },
    }
}

/// The model actually installed, falling back to the light one: a policy
/// that picks a model whose plugin is absent picks silence. `available` is
/// whether the model's plugin file is present.
pub fn loadable(model: NoiseModel, available: bool) -> (r: NoiseModel)
    ensures
        r == if available {
            model
        } else {
            light()
        },
{
    if available {
        model
    } else {
        NoiseModel::GtcrnDns3
    }
}

/// The two explicit choices are obeyed exactly, on every machine.
pub proof fn explicit_choices_are_obeyed(m: Machine, standing: Option<NoiseModel>)
    ensures
        choose_spec(Quality::Best, m, standing) == best(),
        choose_spec(Quality::Cheapest, m, standing) == light(),
{
}

/// The automatic choice is always either the heavy or the light model.
pub proof fn automatic_picks_heavy_or_light(m: Machine, standing: Option<NoiseModel>)
    ensures
        choose_spec(Quality::Automatic, m, standing) == heavy() || choose_spec(
            Quality::Automatic,
            m,
            standing,
        ) == light(),
{
}

/// Each reason to step down works alone: whatever else the readings say,
/// and whatever model is in force, it gives the light model.
pub proof fn every_reason_to_step_down_works_alone(m: Machine, standing: Option<NoiseModel>)
    requires
        must_step_down(m),
    ensures
        choose_spec(Quality::Automatic, m, standing) == light(),
{
}

/// In the band between the two lines the model in force keeps its place,
/// heavy or light, so a graph hovering there never flips the model.
pub proof fn the_middle_band_keeps_the_model_in_force(m: Machine)
    requires
        !must_step_down(m),
        m.graph_load == Some(GraphLoad::Middling),
    ensures
        choose_spec(Quality::Automatic, m, Some(heavy())) == heavy(),
        choose_spec(Quality::Automatic, m, Some(light())) == light(),
{
}

/// Past either line the model does move, whatever is in force.
pub proof fn past_the_band_the_model_moves(m: Machine, standing: Option<NoiseModel>)
    requires
        !must_step_down(m),
    ensures
        m.graph_load == Some(GraphLoad::Crowded) ==> choose_spec(Quality::Automatic, m, standing)
            == light(),
        m.graph_load == Some(GraphLoad::Roomy) ==> choose_spec(Quality::Automatic, m, standing)
            == heavy(),
{
}

/// A manual pick is never overwritten by the policy.
pub proof fn a_manual_pick_stays(m: Machine, model: NoiseModel)
    ensures
        choose_spec(Quality::Manual, m, Some(model)) == model,
{
}

} // verus!
