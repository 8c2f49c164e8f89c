//! The command line's words and the switches its commands turn.
//!
//! Which subcommand and which setting a word names, what counts as on or
//! off, and how switching one setting carries the others with it, are
//! decided here; loading, saving and reconciling are the application's.
use vstd::prelude::*;

use crate::config::audio::StereoMode;
use crate::config::echo_cancel::EchoMode;
use crate::pipeline::mic::{mic_wanted, MicSwitches};
use crate::text::{eq_v, to_chars};

verus! {

/// A subcommand of the command line.
#[derive(Debug, Clone, Copy, PartialEq, Eq, Structural)]
pub enum Cmd {
    Help,
    Settings,
    MicConf,
    OutputConf,
    Apply,
    Remove,
    ListApps,
    Autostart,
    Watch,
    Reload,
    LiveUpdate,
    ToggleMic,
    ToggleOutput,
    SetValue,
    Status,
    Doctor,
    Repair,
    Models,
    MeasureModel,
    PreviewQuantum,
}

/// The subcommand a word names.
pub open spec fn cmd_of(s: Seq<char>) -> Option<Cmd> {
    if s == "--help"@ || s == "-h"@ || s == "help"@ {
        Some(Cmd::Help)
    } else if s == "settings"@ {
        Some(Cmd::Settings)
    } else if s == "mic-conf"@ {
        Some(Cmd::MicConf)
    } else if s == "output-conf"@ {
        Some(Cmd::OutputConf)
    } else if s == "apply"@ {
        Some(Cmd::Apply)
    } else if s == "remove"@ {
        Some(Cmd::Remove)
    } else if s == "list-apps"@ {
        Some(Cmd::ListApps)
    } else if s == "autostart"@ {
        Some(Cmd::Autostart)
    } else if s == "watch"@ {
        Some(Cmd::Watch)
    } else if s == "reload"@ {
        Some(Cmd::Reload)
    } else if s == "live-update"@ {
        Some(Cmd::LiveUpdate)
    } else if s == "toggle-mic"@ {
        Some(Cmd::ToggleMic)
    } else if s == "toggle-output"@ {
        Some(Cmd::ToggleOutput)
    } else if s == "set"@ {
        Some(Cmd::SetValue)
    } else if s == "status"@ {
        Some(Cmd::Status)
    } else if s == "doctor"@ {
        Some(Cmd::Doctor)
    } else if s == "models"@ {
        Some(Cmd::Models)
    } else if s == "measure-model"@ {
        Some(Cmd::MeasureModel)
    } else if s == "preview-quantum"@ {
        Some(Cmd::PreviewQuantum)
    } else if s == "repair"@ {
        Some(Cmd::Repair)
    } else {
        None
    }
}

fn is(w: &Vec<char>, lit: &str) -> (r: bool)
    ensures
        r == (w@ == lit@),
{
    eq_v(w, &to_chars(lit))
}

impl Cmd {
    /// The subcommand `s` names.
    pub fn parse(s: &str) -> (r: Option<Cmd>)
        ensures
            r == cmd_of(s@),
    {
        let w = to_chars(s);
        if is(&w, "--help") || is(&w, "-h") || is(&w, "help") {
            Some(Cmd::Help)
        } else if is(&w, "settings") {
            Some(Cmd::Settings)
        } else if is(&w, "mic-conf") {
            Some(Cmd::MicConf)
        } else if is(&w, "output-conf") {
            Some(Cmd::OutputConf)
        } else if is(&w, "apply") {
            Some(Cmd::Apply)
        } else if is(&w, "remove") {
            Some(Cmd::Remove)
        } else if is(&w, "list-apps") {
            Some(Cmd::ListApps)
        } else if is(&w, "autostart") {
            Some(Cmd::Autostart)
        } else if is(&w, "watch") {
            Some(Cmd::Watch)
        } else if is(&w, "reload") {
            Some(Cmd::Reload)
        } else if is(&w, "live-update") {
            Some(Cmd::LiveUpdate)
        } else if is(&w, "toggle-mic") {
            Some(Cmd::ToggleMic)
        } else if is(&w, "toggle-output") {
            Some(Cmd::ToggleOutput)
        } else if is(&w, "set") {
            Some(Cmd::SetValue)
        } else if is(&w, "status") {
            Some(Cmd::Status)
        } else if is(&w, "doctor") {
            Some(Cmd::Doctor)
        } else if is(&w, "models") {
            Some(Cmd::Models)
        } else if is(&w, "measure-model") {
            Some(Cmd::MeasureModel)
        } else if is(&w, "preview-quantum") {
            Some(Cmd::PreviewQuantum)
        } else if is(&w, "repair") {
            Some(Cmd::Repair)
        } else {
            None
        }
    }
}

/// One writable setting, named on the command line.
#[derive(Debug, Clone, Copy, PartialEq, Eq, Structural)]
pub enum Key {
    Mic,
    OutputMaster,
    MicIntensity,
    VoiceClarity,
    Echo,
    OutputVoices,
    Equalizer,
    VoiceChanger,
    VoicePitch,
    Quality,
    EqualizerPreset,
}

/// The keys `set` accepts, as its messages list them.
pub const KEY_NAMES: &'static str = "mic, output, mic-intensity, voice-clarity, echo, output-voices, equalizer, voice-changer, voice-pitch, quality, eq-preset";

/// The setting a word names.
pub open spec fn key_of(s: Seq<char>) -> Option<Key> {
    if s == "mic"@ {
        Some(Key::Mic)
    } else if s == "output"@ {
        Some(Key::OutputMaster)
    } else if s == "mic-intensity"@ {
        Some(Key::MicIntensity)
    } else if s == "voice-clarity"@ {
        Some(Key::VoiceClarity)
    } else if s == "echo"@ {
        Some(Key::Echo)
    } else if s == "output-voices"@ {
        Some(Key::OutputVoices)
    } else if s == "equalizer"@ {
        Some(Key::Equalizer)
    } else if s == "voice-changer"@ {
        Some(Key::VoiceChanger)
    } else if s == "voice-pitch"@ {
        Some(Key::VoicePitch)
    } else if s == "quality"@ {
        Some(Key::Quality)
    } else if s == "eq-preset"@ {
        Some(Key::EqualizerPreset)
    } else {
        None
    }
}

/// How a key's value is written.
#[derive(Debug, Clone, Copy, PartialEq, Eq, Structural)]
pub enum KeyKind {
    /// `on` or `off`.
    Switch,
    /// A percentage from 0 to 100.
    Percentage,
    /// `auto`, `on` or `off`.
    EchoMode,
    /// `auto`, `best`, `cheapest` or `manual`.
    Quality,
    /// The name of an equalizer preset.
    Preset,
}

/// The kind of value a key takes.
pub open spec fn kind_of(k: Key) -> KeyKind {
    match k {
        Key::Mic | Key::OutputMaster | Key::OutputVoices | Key::Equalizer | Key::VoiceChanger =>
            KeyKind::Switch,
        Key::MicIntensity | Key::VoiceClarity | Key::VoicePitch => KeyKind::Percentage,
        Key::Echo => KeyKind::EchoMode,
        Key::Quality => KeyKind::Quality,
        Key::EqualizerPreset => KeyKind::Preset,
    }
}

impl Key {
    /// The setting `s` names.
    pub fn parse(s: &str) -> (r: Option<Key>)
        ensures
            r == key_of(s@),
    {
        let w = to_chars(s);
        if is(&w, "mic") {
            Some(Key::Mic)
        } else if is(&w, "output") {
            Some(Key::OutputMaster)
        } else if is(&w, "mic-intensity") {
            Some(Key::MicIntensity)
        } else if is(&w, "voice-clarity") {
            Some(Key::VoiceClarity)
        } else if is(&w, "echo") {
            Some(Key::Echo)
        } else if is(&w, "output-voices") {
            Some(Key::OutputVoices)
        } else if is(&w, "equalizer") {
            Some(Key::Equalizer)
        } else if is(&w, "voice-changer") {
            Some(Key::VoiceChanger)
        } else if is(&w, "voice-pitch") {
            Some(Key::VoicePitch)
        } else if is(&w, "quality") {
            Some(Key::Quality)
        } else if is(&w, "eq-preset") {
            Some(Key::EqualizerPreset)
        } else {
            None
        }
    }

    /// The kind of value the key takes.
    pub fn kind(self) -> (r: KeyKind)
        ensures
            r == kind_of(self),
    {
        match self {
            Key::Mic | Key::OutputMaster | Key::OutputVoices | Key::Equalizer | Key::VoiceChanger =>
                KeyKind::Switch,
            Key::MicIntensity | Key::VoiceClarity | Key::VoicePitch => KeyKind::Percentage,
            Key::Echo => KeyKind::EchoMode,
            Key::Quality => KeyKind::Quality,
            Key::EqualizerPreset => KeyKind::Preset,
        }
    }
}

/// What a switch's value means.
pub open spec fn switch_of(s: Seq<char>) -> Option<bool> {
    if s == "on"@ || s == "true"@ || s == "1"@ {
        Some(true)
    } else if s == "off"@ || s == "false"@ || s == "0"@ {
        Some(false)
    } else {
        None
    }
}

/// Read a switch's value: `on`, `true` or `1`; `off`, `false` or `0`.
pub fn on_or_off(value: &str) -> (r: Option<bool>)
    ensures
        r == switch_of(value@),
{
    let w = to_chars(value);
    if is(&w, "on") || is(&w, "true") || is(&w, "1") {
        Some(true)
    } else if is(&w, "off") || is(&w, "false") || is(&w, "0") {
        Some(false)
    } else {
        None
    }
}

// ── The switches a command turns ─────────────────────────────────────

/// The switches the command line turns.
#[derive(Debug, Clone, Copy, PartialEq, Eq, Structural)]
pub struct Switches {
    pub mic: MicSwitches,
    /// The output filter's master switch.
    pub output: bool,
    /// The output's voice (noise-reduction) filter.
    pub output_voices: bool,
    /// The output's equalizer.
    pub output_equalizer: bool,
}

/// Turning the microphone on or off: off cascades through every
/// microphone effect; on re-enables noise reduction (and lifts the
/// bypass), leaving the other effects as they are.
pub open spec fn mic_set(m: MicSwitches, on: bool) -> MicSwitches {
    if on {
        MicSwitches { noise_reduction: true, mic_bypass: false, ..m }
    } else {
        MicSwitches {
            noise_reduction: false,
            gate: false,
            hpf: false,
            stereo: false,
            equalizer: false,
            compressor: false,
            echo_cancel: false,
            echo_mode: EchoMode::Never,
            ..m
        }
    }
}

/// The switches after `key` is set to `on`.
pub open spec fn switched(s: Switches, key: Key, on: bool) -> Switches {
    match key {
        Key::OutputMaster => Switches { output: on, ..s },
        Key::Mic => Switches { mic: mic_set(s.mic, on), ..s },
        Key::OutputVoices => Switches { output_voices: on, output: s.output || on, ..s },
        Key::Equalizer => Switches { output_equalizer: on, output: s.output || on, ..s },
        Key::VoiceChanger => Switches {
            mic: MicSwitches {
                stereo: on,
                stereo_mode: if on {
                    StereoMode::VoiceChanger
                } else {
                    StereoMode::Mono
                },
                mic_bypass: if on {
                    false
                } else {
                    s.mic.mic_bypass
                },
                ..s.mic
            },
            ..s
        },
        _ => s,
    }
}

impl MicSwitches {
    /// Turn the microphone on or off as the master switch does.
    pub fn set_microphone_enabled(&mut self, on: bool)
        ensures
            *final(self) == mic_set(*old(self), on),
            mic_wanted(*final(self)) == on,
    {
        if on {
            self.noise_reduction = true;
            self.mic_bypass = false;
        } else {
            self.cascade_mic_off();
        }
    }

    /// Record the echo canceller's mode; any mode but `Never` lifts the
    /// bypass. Whether the canceller then runs is decided from the mode
    /// and the output route.
    pub fn set_echo_mode(&mut self, mode: EchoMode)
        ensures
            *final(self) == (MicSwitches {
                echo_mode: mode,
                mic_bypass: if mode != EchoMode::Never {
                    false
                } else {
                    old(self).mic_bypass
                },
                ..*old(self)
            }),
    {
        self.echo_mode = mode;
        if mode != EchoMode::Never {
            self.mic_bypass = false;
        }
    }
}

impl Switches {
    /// Set a switch key. A sub-filter of the output switched on turns the
    /// output on with it (under a master that is off it would change
    /// nothing), and switching one off leaves the master alone.
    pub fn set(&mut self, key: Key, on: bool)
        requires
            kind_of(key) == KeyKind::Switch,
        ensures
            *final(self) == switched(*old(self), key, on),
            (key == Key::OutputVoices || key == Key::Equalizer) && on ==> final(self).output,
            (key == Key::OutputVoices || key == Key::Equalizer) && !on ==> final(self).output
                == old(self).output,
    {
        let old = *self;
        match key {
            Key::OutputMaster => {
                *self = Switches { output: on, ..old };
            },
            Key::Mic => {
                let mut m = old.mic;
                m.set_microphone_enabled(on);
                *self = Switches { mic: m, ..old };
            },
            Key::OutputVoices => {
                *self = Switches { output_voices: on, output: old.output || on, ..old };
            },
            Key::Equalizer => {
                *self = Switches { output_equalizer: on, output: old.output || on, ..old };
            },
            Key::VoiceChanger => {
                let m = MicSwitches {
                    stereo: on,
                    stereo_mode: if on {
                        StereoMode::VoiceChanger
                    } else {
                        StereoMode::Mono
                    },
                    mic_bypass: if on {
                        false
                    } else {
                        old.mic.mic_bypass
                    },
                    ..old.mic
                };
                *self = Switches { mic: m, ..old };
            },
            _ => {},
        }
    }

    /// `toggle-mic`: turn the microphone off when its chain is wanted,
    /// on otherwise. The chain's being wanted always flips.
    pub fn toggle_mic(&mut self)
        ensures
            final(self).mic == mic_set(old(self).mic, !mic_wanted(old(self).mic)),
            mic_wanted(final(self).mic) == !mic_wanted(old(self).mic),
            final(self).output == old(self).output,
    {
        let enabled = !self.mic.mic_chain_wanted();
        self.mic.set_microphone_enabled(enabled);
    }

    /// `toggle-output`: flip the output filter's master switch.
    pub fn toggle_output(&mut self)
        ensures
            *final(self) == (Switches { output: !old(self).output, ..*old(self) }),
    {
        self.output = !self.output;
    }
}


// ── The key words ────────────────────────────────────────────────────

/// The word that names each key on the command line.
pub open spec fn key_word(k: Key) -> Seq<char> {
    match k {
        Key::Mic => "mic"@,
        Key::OutputMaster => "output"@,
        Key::MicIntensity => "mic-intensity"@,
        Key::VoiceClarity => "voice-clarity"@,
        Key::Echo => "echo"@,
        Key::OutputVoices => "output-voices"@,
        Key::Equalizer => "equalizer"@,
        Key::VoiceChanger => "voice-changer"@,
        Key::VoicePitch => "voice-pitch"@,
        Key::Quality => "quality"@,
        Key::EqualizerPreset => "eq-preset"@,
    }
}

/// The list of the key words in [`KEY_NAMES`], each key's word in the
/// order the keys are declared, separated by commas.
pub open spec fn key_words_listed() -> Seq<char> {
    key_word(Key::Mic) + ", "@ + key_word(Key::OutputMaster) + ", "@ + key_word(Key::MicIntensity)
        + ", "@ + key_word(Key::VoiceClarity) + ", "@ + key_word(Key::Echo) + ", "@ + key_word(
        Key::OutputVoices,
    ) + ", "@ + key_word(Key::Equalizer) + ", "@ + key_word(Key::VoiceChanger) + ", "@ + key_word(
        Key::VoicePitch,
    ) + ", "@ + key_word(Key::Quality) + ", "@ + key_word(Key::EqualizerPreset)
}

/// Each key word parses to the key it names, and only that word does:
/// `mic-intensity` sets the noise-reduction intensity and nothing else
/// sets it, so parsing is one-to-one between the words `set` lists in
/// [`KEY_NAMES`] and the keys.
pub proof fn each_key_word_names_its_key(k: Key, w: Seq<char>)
    ensures
        key_of(key_word(k)) == Some(k),
        key_of(w) == Some(k) ==> w == key_word(k),
        key_of(w) is Some <==> exists|j: Key| w == key_word(j),
        KEY_NAMES@ == key_words_listed(),
{
    reveal_strlit("mic");
    reveal_strlit("output");
    reveal_strlit("mic-intensity");
    reveal_strlit("voice-clarity");
    reveal_strlit("echo");
    reveal_strlit("output-voices");
    reveal_strlit("equalizer");
    reveal_strlit("voice-changer");
    reveal_strlit("voice-pitch");
    reveal_strlit("quality");
    reveal_strlit("eq-preset");
    reveal_strlit(", ");
    reveal_strlit("mic, output, mic-intensity, voice-clarity, echo, output-voices, equalizer, voice-changer, voice-pitch, quality, eq-preset");
    assert(KEY_NAMES@ =~= key_words_listed());
    assert("mic"@.len() == 3 && "output"@.len() == 6 && "echo"@.len() == 4 && "quality"@.len() == 7);
    assert("voice-pitch"@.len() == 11 && "equalizer"@.len() == 9 && "eq-preset"@.len() == 9);
    assert("mic-intensity"@.len() == 13 && "voice-clarity"@.len() == 13);
    assert("output-voices"@.len() == 13 && "voice-changer"@.len() == 13);
    assert("equalizer"@[2] != "eq-preset"@[2]);
    assert("mic-intensity"@[0] != "voice-clarity"@[0]);
    assert("mic-intensity"@[0] != "output-voices"@[0]);
    assert("mic-intensity"@[0] != "voice-changer"@[0]);
    assert("voice-clarity"@[0] != "output-voices"@[0]);
    assert("voice-changer"@[0] != "output-voices"@[0]);
    assert("voice-clarity"@[7] != "voice-changer"@[7]);
    if key_of(w) is Some {
        let j = key_of(w)->Some_0;
        assert(w == key_word(j));
    }
}

} // verus!
