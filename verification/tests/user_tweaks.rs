use biglinux_microphone::services::pipewire::user_tweaks::{
    extract_action_value, parse_pipewire, parse_wireplumber, render_pipewire, render_wireplumber,
    SampleRates, UserTweaks,
};

fn quantum_only() -> UserTweaks {
    UserTweaks {
        quantum: Some(2048),
        ..UserTweaks::default()
    }
}

fn fully_populated() -> UserTweaks {
    UserTweaks {
        quantum: Some(2048),
        headroom_usb: Some(1024),
        headroom_pci: Some(512),
        bt_latency: Some(2048),
        sample_rates: Some(SampleRates::HiRes),
        bt_sbc_xq: Some(true),
        bt_call_autoswitch: Some(true),
        alsa_no_suspend: Some(true),
    }
}

#[test]
fn default_is_unmodified() {
    assert!(!UserTweaks::default().is_modified());
}

#[test]
fn any_set_field_marks_modified() {
    assert!(quantum_only().is_modified());
}

#[test]
fn empty_render_is_empty_string() {
    assert!(render_pipewire(&UserTweaks::default()).is_empty());
    assert!(render_wireplumber(&UserTweaks::default()).is_empty());
}

#[test]
fn pipewire_render_round_trips() {
    let original = quantum_only();
    let body = render_pipewire(&original);
    assert!(body.contains("default.clock.quantum = 2048"));
    let mut parsed = UserTweaks::default();
    parse_pipewire(&body, &mut parsed);
    assert_eq!(parsed.quantum, Some(2048));
}

#[test]
fn pipewire_render_emits_allowed_rates() {
    let t = UserTweaks {
        sample_rates: Some(SampleRates::HiRes),
        ..UserTweaks::default()
    };
    let body = render_pipewire(&t);
    assert!(body.contains("44100 48000 88200 96000 176400 192000"));
    let mut parsed = UserTweaks::default();
    parse_pipewire(&body, &mut parsed);
    assert_eq!(parsed.sample_rates, Some(SampleRates::HiRes));
}

#[test]
fn wireplumber_render_emits_per_class_alsa_blocks() {
    let t = UserTweaks {
        headroom_usb: Some(1024),
        headroom_pci: Some(512),
        ..UserTweaks::default()
    };
    let body = render_wireplumber(&t);
    assert!(body.contains("~alsa_input.usb-.*"));
    assert!(body.contains("~alsa_input.pci-.*"));
    assert!(body.contains("api.alsa.headroom = 1024"));
    assert!(body.contains("api.alsa.headroom = 512"));
}

#[test]
fn wireplumber_render_round_trips_full() {
    let original = fully_populated();
    let body = render_wireplumber(&original);
    let mut parsed = UserTweaks::default();
    parse_wireplumber(&body, &mut parsed);
    assert_eq!(parsed.headroom_usb, Some(1024));
    assert_eq!(parsed.headroom_pci, Some(512));
    assert_eq!(parsed.bt_latency, Some(2048));
    assert_eq!(parsed.bt_sbc_xq, Some(true));
    assert_eq!(parsed.bt_call_autoswitch, Some(true));
    assert_eq!(parsed.alsa_no_suspend, Some(true));
}

#[test]
fn wireplumber_render_emits_call_autoswitch_setting() {
    let t = UserTweaks {
        bt_call_autoswitch: Some(true),
        ..UserTweaks::default()
    };
    let body = render_wireplumber(&t);
    assert!(body.contains("bluetooth.autoswitch-to-headset-profile = true"));
    let mut parsed = UserTweaks::default();
    parse_wireplumber(&body, &mut parsed);
    assert_eq!(parsed.bt_call_autoswitch, Some(true));
}

#[test]
fn wireplumber_render_emits_alsa_no_suspend_block() {
    let t = UserTweaks {
        alsa_no_suspend: Some(true),
        ..UserTweaks::default()
    };
    let body = render_wireplumber(&t);
    assert!(body.contains("~alsa_input.*"));
    assert!(body.contains("session.suspend-timeout-seconds = 0"));
    let mut parsed = UserTweaks::default();
    parse_wireplumber(&body, &mut parsed);
    assert_eq!(parsed.alsa_no_suspend, Some(true));
}

#[test]
fn is_modified_reflects_any_single_field() {
    assert!(!UserTweaks::default().is_modified());
    assert!(UserTweaks {
        quantum: Some(1024),
        ..UserTweaks::default()
    }
    .is_modified());
    assert!(UserTweaks {
        alsa_no_suspend: Some(true),
        ..UserTweaks::default()
    }
    .is_modified());
}

#[test]
fn parse_pipewire_standard_and_cd_rate_sets() {
    let mut standard = UserTweaks::default();
    parse_pipewire("default.clock.allowed-rates = [ 48000 ]", &mut standard);
    assert_eq!(standard.sample_rates, Some(SampleRates::Standard));

    let mut cd = UserTweaks::default();
    parse_pipewire("default.clock.allowed-rates = [ 44100 48000 ]", &mut cd);
    assert_eq!(cd.sample_rates, Some(SampleRates::Cd));

    let mut unknown = UserTweaks::default();
    parse_pipewire("default.clock.allowed-rates = [ 12345 ]", &mut unknown);
    assert_eq!(unknown.sample_rates, None);
}

#[test]
fn parse_wireplumber_bluetooth_false_values() {
    let text = "bluez5.enable-sbc-xq = false\n\
                bluetooth.autoswitch-to-headset-profile = false\n";
    let mut parsed = UserTweaks::default();
    parse_wireplumber(text, &mut parsed);
    assert_eq!(parsed.bt_sbc_xq, Some(false));
    assert_eq!(parsed.bt_call_autoswitch, Some(false));
}

#[test]
fn parse_wireplumber_suspend_zero_only_in_alsa_all_section() {
    let usb_section = "matches = \"~alsa_input.usb-.*\"\n\
                       session.suspend-timeout-seconds = 0\n";
    let mut parsed = UserTweaks::default();
    parse_wireplumber(usb_section, &mut parsed);
    assert_eq!(parsed.alsa_no_suspend, None);
}

#[test]
fn wireplumber_render_omits_new_fields_when_none() {
    let body = render_wireplumber(&UserTweaks {
        bt_latency: Some(2048),
        ..UserTweaks::default()
    });
    assert!(!body.contains("autoswitch-to-headset-profile"));
    assert!(!body.contains("session.suspend-timeout-seconds"));
}

#[test]
fn wireplumber_render_omits_blocks_for_unset_fields() {
    let t = UserTweaks {
        bt_latency: Some(2048),
        ..UserTweaks::default()
    };
    let body = render_wireplumber(&t);
    assert!(!body.contains("alsa_input"));
    assert!(body.contains("bluez_input"));
}

#[test]
fn extract_action_value_handles_brace_terminator() {
    let line = "actions = { update-props = { api.alsa.headroom = 1024 } }";
    assert_eq!(
        extract_action_value(line, "api.alsa.headroom"),
        Some("1024".to_owned())
    );
}

#[test]
fn extract_action_value_returns_none_for_missing_key() {
    let line = "actions = { update-props = { node.latency = \"2048/48000\" } }";
    assert_eq!(extract_action_value(line, "api.alsa.headroom"), None);
}

#[test]
fn full_drop_ins_read_back_as_the_tweaks_they_were_rendered_from() {
    let original = fully_populated();
    let mut parsed = UserTweaks::default();
    parse_pipewire(&render_pipewire(&original), &mut parsed);
    parse_wireplumber(&render_wireplumber(&original), &mut parsed);
    assert_eq!(parsed, original);
    let (pw, wp) = original.apply();
    assert_eq!(pw, render_pipewire(&original));
    assert_eq!(wp, render_wireplumber(&original));
}

#[test]
fn the_wireplumber_drop_in_has_the_exact_rule_layout() {
    let body = render_wireplumber(&UserTweaks {
        headroom_usb: Some(1024),
        ..UserTweaks::default()
    });
    assert!(body.ends_with(
        "\nmonitor.alsa.rules = [\n  {\n    matches = [\n      { node.name = \"~alsa_input.usb-.*\" }\n      { node.name = \"~alsa_output.usb-.*\" }\n    ]\n    actions = { update-props = { api.alsa.headroom = 1024 } }\n  }\n]\n"
    ));
    assert!(body.starts_with("# Generated by biglinux-microphone Tuning tab.\n"));
}

#[test]
fn the_wireplumber_drop_in_holds_only_the_blocks_that_are_set() {
    assert!(render_wireplumber(&quantum_only()).is_empty());
    let latency = UserTweaks { bt_latency: Some(1024), ..UserTweaks::default() };
    let out = render_wireplumber(&latency);
    assert!(out.starts_with("# Generated by biglinux-microphone"));
    assert!(out.contains("monitor.bluez.rules"));
    assert!(!out.contains("wireplumber.settings"));
    let with_quantum = UserTweaks { quantum: Some(256), sample_rates: Some(SampleRates::HiRes), ..latency };
    assert_eq!(render_wireplumber(&with_quantum), out);
    let switch = UserTweaks { bt_call_autoswitch: Some(false), ..UserTweaks::default() };
    let out = render_wireplumber(&switch);
    assert!(out.contains("wireplumber.settings"));
    assert!(!out.contains("monitor.bluez.rules"));
}
