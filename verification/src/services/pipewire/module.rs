//! What to ask systemd for each loader unit.
//!
//! Control values reach the running graph live; a loader is restarted only
//! when its chain's topology changes, and a start, restart or stop of one
//! unit never touches another or `wireplumber.service`. A restart or start
//! first clears the unit's `failed` state, whose outcome does not matter,
//! so a crash loop cannot block it. The application runs the calls in order
//! with `/usr/bin/systemctl` and reports the first failure of a call that
//! must succeed.
use vstd::prelude::*;

verus! {

/// The microphone loader unit.
pub const MIC_UNIT: &'static str = "biglinux-microphone-mic.service";
/// The echo-cancellation loader unit.
pub const AEC_UNIT: &'static str = "biglinux-microphone-aec.service";
/// The output loader unit.
pub const OUTPUT_UNIT: &'static str = "biglinux-microphone-output.service";

/// One `systemctl --user <verb> <unit>` invocation.
#[derive(Debug, Clone, Copy, PartialEq, Eq)]
pub struct SystemctlCall {
    pub verb: &'static str,
    pub unit: &'static str,
    /// Whether a failure of this call is the operation's failure.
    pub must_succeed: bool,
}

/// A call as plain values: verb, unit, whether it must succeed.
pub open spec fn call_view(c: SystemctlCall) -> (Seq<char>, Seq<char>, bool) {
    (c.verb@, c.unit@, c.must_succeed)
}

/// The views of a list of calls.
pub open spec fn calls_view(s: Seq<SystemctlCall>) -> Seq<(Seq<char>, Seq<char>, bool)> {
    s.map_values(|c: SystemctlCall| call_view(c))
}

/// Clear a unit's failed state, then apply `verb`, which must succeed.
pub open spec fn cleared_then(verb: Seq<char>, unit: Seq<char>) -> Seq<(Seq<char>, Seq<char>, bool)> {
    seq![("reset-failed"@, unit, false), (verb, unit, true)]
}

/// Apply `verb` alone, which must succeed.
pub open spec fn only(verb: Seq<char>, unit: Seq<char>) -> Seq<(Seq<char>, Seq<char>, bool)> {
    seq![(verb, unit, true)]
}

fn cleared(verb: &'static str, unit: &'static str) -> (r: Vec<SystemctlCall>)
    ensures
        calls_view(r@) == cleared_then(verb@, unit@),
{
    let r = vec![
        SystemctlCall { verb: "reset-failed", unit, must_succeed: false },
        SystemctlCall { verb, unit, must_succeed: true },
    ];
    assert(calls_view(r@) =~= cleared_then(verb@, unit@));
    r
}

fn single(verb: &'static str, unit: &'static str) -> (r: Vec<SystemctlCall>)
    ensures
        calls_view(r@) == only(verb@, unit@),
{
    let r = vec![SystemctlCall { verb, unit, must_succeed: true }];
    assert(calls_view(r@) =~= only(verb@, unit@));
    r
}

/// Restart the echo-cancellation loader.
pub fn restart_aec_service() -> (r: Vec<SystemctlCall>)
    ensures
        calls_view(r@) == cleared_then("restart"@, AEC_UNIT@),
{
    cleared("restart", AEC_UNIT)
}

/// Start the echo-cancellation loader if it is not running.
pub fn start_aec_service() -> (r: Vec<SystemctlCall>)
    ensures
        calls_view(r@) == cleared_then("start"@, AEC_UNIT@),
{
    cleared("start", AEC_UNIT)
}

/// Stop the echo-cancellation loader; the microphone chain falls back to
/// the hardware microphone.
pub fn stop_aec_service() -> (r: Vec<SystemctlCall>)
    ensures
        calls_view(r@) == only("stop"@, AEC_UNIT@),
{
    single("stop", AEC_UNIT)
}

/// Restart the microphone loader so it picks up a topology change.
pub fn restart_mic_service() -> (r: Vec<SystemctlCall>)
    ensures
        calls_view(r@) == cleared_then("restart"@, MIC_UNIT@),
{
    cleared("restart", MIC_UNIT)
}

/// Start the microphone loader; a start of a running unit changes nothing.
pub fn start_mic_service() -> (r: Vec<SystemctlCall>)
    ensures
        calls_view(r@) == cleared_then("start"@, MIC_UNIT@),
{
    cleared("start", MIC_UNIT)
}

/// Stop the microphone loader once every microphone filter is off.
pub fn stop_mic_service() -> (r: Vec<SystemctlCall>)
    ensures
        calls_view(r@) == only("stop"@, MIC_UNIT@),
{
    single("stop", MIC_UNIT)
}

/// Start the output loader.
pub fn start_output_service() -> (r: Vec<SystemctlCall>)
    ensures
        calls_view(r@) == cleared_then("start"@, OUTPUT_UNIT@),
{
    cleared("start", OUTPUT_UNIT)
}

/// Restart the output loader after its args file changed.
pub fn restart_output_service() -> (r: Vec<SystemctlCall>)
    ensures
        calls_view(r@) == cleared_then("restart"@, OUTPUT_UNIT@),
{
    cleared("restart", OUTPUT_UNIT)
}

/// Stop the output loader so its virtual sink leaves the graph.
pub fn stop_output_service() -> (r: Vec<SystemctlCall>)
    ensures
        calls_view(r@) == only("stop"@, OUTPUT_UNIT@),
{
    single("stop", OUTPUT_UNIT)
}

} // verus!
