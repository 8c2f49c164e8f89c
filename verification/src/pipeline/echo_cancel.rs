//! The echo canceller's module arguments.
//!
//! `libpipewire-module-echo-cancel` runs in its own loader with the WebRTC
//! backend. Its reference side works in `monitor.mode`, tapping the monitor
//! of whatever the default sink is, so no virtual sink is ever shown to
//! applications. The capture stream names no target: a WirePlumber hook
//! links it to the selected physical microphone at run time.
//!
//! Fixed WebRTC tunables: noise suppression off (the neural models do it
//! downstream), gain control off (it re-amplifies residual echo), the
//! internal high-pass filter on (the chain's own filter sits after the
//! canceller and cannot clean what it adapts on), voice detection on.
//!
//! `node.latency = 960/48000` is two 10 ms WebRTC frames: the canceller
//! rejects blocks that are not whole frames, and a bigger block is delay
//! every model waits out twice.
use vstd::prelude::*;

verus! {

/// `node.name` of the virtual source the canceller creates.
pub const EC_SOURCE_NAME: &'static str = "echo-cancel-source";
/// Capture stream of the canceller; the WirePlumber hook targets it.
pub const EC_CAPTURE_NODE_NAME: &'static str = "echo-cancel-capture";
/// Two WebRTC frames at 48 kHz.
pub const AEC_NODE_LATENCY: &'static str = "960/48000";
/// File name of the canceller's args body.
pub const ECHO_CANCEL_CONF_FILE: &'static str = "aec.args";
/// The canceller's args body: only the `{ ... }` block the loader hands to
/// `pw_context_load_module`, with no `context.modules` wrapper or header.
pub const ECHO_CANCEL_CONF: &'static str = "{\n    library.name = aec/libspa-aec-webrtc\n    node.latency = 960/48000\n    monitor.mode = true\n    audio.rate = 48000\n    audio.channels = 1\n    audio.position = [ MONO ]\n    buffer.max_size = 250\n    capture.props = {\n        node.name    = \"echo-cancel-capture\"\n    }\n    source.props = {\n        node.name        = \"echo-cancel-source\"\n        node.description = \"BigLinux Echo-Cancelled Mic\"\n        media.class      = Audio/Source\n        volume           = 1.0\n    }\n    aec.args = {\n        webrtc.gain_control       = false\n        webrtc.noise_suppression  = false\n        webrtc.high_pass_filter   = true\n        webrtc.voice_detection    = true\n    }\n}\n";

/// The text of the canceller's args body.
pub open spec fn echo_cancel_conf_text() -> Seq<char> {
    ECHO_CANCEL_CONF@
}

/// Render the canceller's args body.
pub fn build_echo_cancel_conf() -> (r: String)
    ensures
        r@ == echo_cancel_conf_text(),
{
    ECHO_CANCEL_CONF.to_owned()
}

} // verus!
