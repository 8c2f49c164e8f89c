use biglinux_microphone::cli::{on_or_off, Cmd, Key, KeyKind, Switches, KEY_NAMES};
use biglinux_microphone::config::{EchoMode, StereoMode};
use biglinux_microphone::pipeline::mic::MicSwitches;

fn defaults() -> Switches {
    Switches {
        mic: MicSwitches::default(),
        output: false,
        output_voices: true,
        output_equalizer: false,
    }
}

#[test]
fn every_subcommand_word_is_recognised() {
    assert_eq!(Cmd::parse("-h"), Some(Cmd::Help));
    assert_eq!(Cmd::parse("--help"), Some(Cmd::Help));
    assert_eq!(Cmd::parse("settings"), Some(Cmd::Settings));
    assert_eq!(Cmd::parse("toggle-mic"), Some(Cmd::ToggleMic));
    assert_eq!(Cmd::parse("set"), Some(Cmd::SetValue));
    assert_eq!(Cmd::parse("preview-quantum"), Some(Cmd::PreviewQuantum));
    assert_eq!(Cmd::parse("repair"), Some(Cmd::Repair));
    assert_eq!(Cmd::parse("Settings"), None);
    assert_eq!(Cmd::parse(""), None);
}

#[test]
fn keys_and_their_kinds() {
    assert_eq!(Key::parse("output"), Some(Key::OutputMaster));
    assert_eq!(Key::parse("eq-preset"), Some(Key::EqualizerPreset));
    assert_eq!(Key::parse("pitch"), None);
    assert_eq!(Key::VoicePitch.kind(), KeyKind::Percentage);
    assert_eq!(Key::Echo.kind(), KeyKind::EchoMode);
    assert_eq!(Key::Mic.kind(), KeyKind::Switch);
    assert!(KEY_NAMES.starts_with("mic, output,"));
}

#[test]
fn switch_words() {
    for on in ["on", "true", "1"] {
        assert_eq!(on_or_off(on), Some(true));
    }
    for off in ["off", "false", "0"] {
        assert_eq!(on_or_off(off), Some(false));
    }
    assert_eq!(on_or_off("yes"), None);
    assert_eq!(on_or_off("ON"), None);
}

#[test]
fn an_output_sub_filter_switched_on_turns_the_master_on() {
    let mut s = defaults();
    s.set(Key::Equalizer, true);
    assert!(s.output && s.output_equalizer);
    s.set(Key::Equalizer, false);
    assert!(s.output && !s.output_equalizer);
    s.set(Key::OutputVoices, false);
    assert!(s.output && !s.output_voices);
}

#[test]
fn the_voice_changer_switches_both_fields() {
    let mut s = defaults();
    s.mic.mic_bypass = true;
    s.set(Key::VoiceChanger, true);
    assert!(s.mic.stereo);
    assert_eq!(s.mic.stereo_mode, StereoMode::VoiceChanger);
    assert!(!s.mic.mic_bypass);
    s.set(Key::VoiceChanger, false);
    assert!(!s.mic.stereo);
    assert_eq!(s.mic.stereo_mode, StereoMode::Mono);
}

#[test]
fn toggling_the_microphone_flips_whether_its_chain_is_wanted() {
    let mut s = defaults();
    assert!(s.mic.mic_chain_wanted());
    s.toggle_mic();
    assert!(!s.mic.mic_chain_wanted());
    assert_eq!(s.mic.echo_mode, EchoMode::Never);
    s.toggle_mic();
    assert!(s.mic.mic_chain_wanted());
    assert!(s.mic.noise_reduction);
    assert!(!s.mic.echo_cancel);
    s.toggle_output();
    assert!(s.output);
}

#[test]
fn an_echo_mode_other_than_never_lifts_the_bypass() {
    let mut m = MicSwitches::default();
    m.mic_bypass = true;
    m.set_echo_mode(EchoMode::Never);
    assert!(m.mic_bypass);
    m.set_echo_mode(EchoMode::Always);
    assert!(!m.mic_bypass);
    assert_eq!(m.echo_mode, EchoMode::Always);
}
