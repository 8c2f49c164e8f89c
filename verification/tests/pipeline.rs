use biglinux_microphone::pipeline::graph::{Link, NodeKind};
use biglinux_microphone::pipeline::mic::MicSwitches;
use biglinux_microphone::pipeline::{
    args_plan, output_effects, retired_drop_ins, BodyFate, OutputSwitches, build_echo_cancel_conf, echo_cancel_conf_path, legacy_files, mic_conf_path, output_conf_path,
    pipewire_drop_in_dir, pipewire_standalone_dir, pwloader_args_dir, wireplumber_drop_in_dir,
    xdg_config_root, EC_CAPTURE_NODE_NAME, EC_SOURCE_NAME,
};

#[test]
fn echo_cancel_conf_is_a_bare_module_args_body() {
    let conf = build_echo_cancel_conf();
    assert!(conf.starts_with('{'));
    assert!(conf.trim_end().ends_with('}'));
    assert!(!conf.contains("context.modules"));
    assert!(!conf.contains("libpipewire-module-echo-cancel"));
    assert!(conf.contains("aec/libspa-aec-webrtc"));
}

#[test]
fn conf_exposes_named_source_in_monitor_mode() {
    let conf = build_echo_cancel_conf();
    assert!(conf.contains(&format!("\"{EC_SOURCE_NAME}\"")));
    assert!(conf.contains("Audio/Source"));
    assert!(conf.contains("monitor.mode = true"));
    assert!(!conf.contains("sink.props"));
    assert!(!conf.contains("media.class      = Audio/Sink"));
}

#[test]
fn conf_uses_webrtc_frame_compatible_mono_format() {
    let conf = build_echo_cancel_conf();
    assert!(conf.contains("node.latency = 960/48000"));
    assert!(conf.contains("audio.rate = 48000"));
    assert!(conf.contains("audio.channels = 1"));
    assert!(conf.contains("audio.position = [ MONO ]"));
    assert!(conf.contains("buffer.max_size = 250"));
}

#[test]
fn conf_enables_internal_hpf_disables_agc_and_ns() {
    let conf = build_echo_cancel_conf();
    assert!(conf.contains("webrtc.gain_control       = false"));
    assert!(conf.contains("webrtc.noise_suppression  = false"));
    assert!(conf.contains("webrtc.high_pass_filter   = true"));
}

#[test]
fn conf_leaves_capture_target_to_wireplumber_policy() {
    let conf = build_echo_cancel_conf();
    assert!(conf.contains(&format!("node.name    = \"{EC_CAPTURE_NODE_NAME}\"")));
    assert!(!conf.contains("target.object"));
}

#[test]
fn legacy_files_constant_lists_known_python_paths() {
    let files = legacy_files();
    for rel in &files {
        assert!(!rel.starts_with('/'), "legacy entry must be relative: {rel}");
        assert!(!rel.contains(".."), "legacy entry must not climb dirs: {rel}");
    }
    let joined = files.join("\n");
    for needle in [
        "source-gtcrn-smart.conf",
        "source-rnnoise-smart.conf",
        "big-output-filter.conf",
    ] {
        assert!(joined.contains(needle), "missing legacy entry: {needle}");
    }
}

#[test]
fn args_files_live_under_the_configuration_root() {
    let root = xdg_config_root(None, Some("/home/user"));
    assert_eq!(root, "/home/user/.config");
    assert_eq!(xdg_config_root(Some("/cfg"), Some("/home/user")), "/cfg");
    assert_eq!(xdg_config_root(None, None), "/tmp/.config");
    assert_eq!(pwloader_args_dir(&root), "/home/user/.config/biglinux-microphone");
    assert_eq!(mic_conf_path(&root), "/home/user/.config/biglinux-microphone/mic.args");
    assert_eq!(output_conf_path(&root), "/home/user/.config/biglinux-microphone/output.args");
    assert_eq!(echo_cancel_conf_path(&root), "/home/user/.config/biglinux-microphone/aec.args");
    assert_eq!(pipewire_drop_in_dir("/c/"), "/c/pipewire/filter-chain.conf.d");
    assert_eq!(pipewire_standalone_dir("/c"), "/c/pipewire");
    assert_eq!(wireplumber_drop_in_dir("/c"), "/c/wireplumber/wireplumber.conf.d");
}

#[test]
fn node_kinds_and_links() {
    assert_eq!(NodeKind::Builtin.type_str(), "builtin");
    assert_eq!(NodeKind::Builtin.plugin_str(), "builtin");
    let ladspa = NodeKind::Ladspa { plugin_stem: "/usr/lib/ladspa/gate_1410.so" };
    assert_eq!(ladspa.type_str(), "ladspa");
    assert_eq!(ladspa.plugin_str(), "/usr/lib/ladspa/gate_1410.so");
    let link = Link::new("m:Out", "c:In");
    assert_eq!(link.output, "m:Out");
    assert_eq!(link.input, "c:In");
}

#[test]
fn the_output_body_is_always_written_and_the_others_follow_their_switches() {
    let mut mic = MicSwitches::default();
    let plan = args_plan(&mic, true);
    assert_eq!(plan.mic, BodyFate::Write);
    assert_eq!(plan.output, BodyFate::Write);
    assert_eq!(plan.echo_cancel, BodyFate::Write);
    mic.cascade_mic_off();
    let idle = args_plan(&mic, false);
    assert_eq!(idle.mic, BodyFate::Remove);
    assert_eq!(idle.output, BodyFate::Write);
    assert_eq!(idle.echo_cancel, BodyFate::Remove);
}

#[test]
fn every_reconcile_retires_the_earlier_drop_ins() {
    assert_eq!(
        retired_drop_ins("/home/u/.config"),
        vec![
            "/home/u/.config/pipewire/filter-chain.conf.d/20-biglinux-output.conf",
            "/home/u/.config/pipewire/filter-chain.conf.d/10-biglinux-microphone.conf",
            "/home/u/.config/pipewire/filter-chain.conf.d/05-biglinux-echocancel.conf",
            "/home/u/.config/wireplumber/wireplumber.conf.d/50-biglinux-output-routing.conf",
        ]
    );
}

#[test]
fn master_off_forces_every_output_effect_to_bypass() {
    let all = OutputSwitches {
        enabled: true,
        hpf: true,
        noise_reduction: true,
        gate: true,
        compressor: true,
        equalizer: true,
    };
    let on = output_effects(&all);
    assert!(on.hpf && on.ai_processing && on.gate && on.compressor && on.equalizer && on.headroom);
    let off = output_effects(&OutputSwitches { enabled: false, ..all });
    assert!(!off.hpf && !off.ai_processing && !off.gate && !off.compressor && !off.equalizer && !off.headroom);
    let no_nr = output_effects(&OutputSwitches { noise_reduction: false, ..all });
    assert!(!no_nr.ai_processing && no_nr.gate);
}
