use biglinux_microphone::config::noise_model::{
    available_or_default, benchmark_ffmpeg_filter, realtime_lavfi_model_labels, realtime_lavfi_models,
};
use biglinux_microphone::config::quality::{GraphLoad, HeavyCost};
use biglinux_microphone::config::ui::{WINDOW_HEIGHT_MIN, WINDOW_WIDTH_MIN};
use biglinux_microphone::config::{
    app_id, app_version, choose_model, config_dir, deepfilter_plugin, eq_preset_bands, eq_preset_ids, pads_neural_input,
    gettext_package, gtcrn_plugin, ladspa_dir, loadable, settings_file, EchoCancelConfig, EchoMode,
    GainSafety, GateConfig, Machine, NoiseModel, OutputChannelMode, Quality, RuntimeConfig,
    StereoMode, UiConfig, WindowConfig, EQ_BANDS_HZ, EQ_BAND_COUNT, HPF_FREQUENCY_DEFAULT,
};

#[test]
fn window_defaults_are_reasonable() {
    let w = WindowConfig::default();
    assert!(w.width >= WINDOW_WIDTH_MIN);
    assert!(w.height >= WINDOW_HEIGHT_MIN);
    assert!(!w.maximized);
}

#[test]
fn window_sanitize_fixes_tiny_dimensions() {
    let w = WindowConfig {
        width: 10,
        height: 10,
        maximized: false,
    }
    .sanitized();
    assert_eq!(w.width, WINDOW_WIDTH_MIN);
    assert_eq!(w.height, WINDOW_HEIGHT_MIN);
}

#[test]
fn sanitizing_keeps_large_windows_and_is_idempotent() {
    let w = WindowConfig {
        width: 1920,
        height: 1080,
        maximized: true,
    };
    assert_eq!(w.sanitized(), w);
    let tiny = WindowConfig {
        width: 1,
        height: 2,
        maximized: false,
    }
    .sanitized();
    assert_eq!(tiny.sanitized(), tiny);
}

#[test]
fn config_dir_ends_with_app_folder() {
    assert!(config_dir("/home/user/.config").ends_with("biglinux-microphone"));
    assert_eq!(config_dir("/home/user/.config"), "/home/user/.config/biglinux-microphone");
}

#[test]
fn settings_file_is_inside_config_dir() {
    let root = "/home/user/.config";
    let file = settings_file(root);
    assert_eq!(
        std::path::Path::new(&file).parent().unwrap(),
        std::path::Path::new(&config_dir(root))
    );
    assert_eq!(
        std::path::Path::new(&file).file_name().unwrap().to_str().unwrap(),
        "settings.json"
    );
}

#[test]
fn gtcrn_plugin_has_so_suffix() {
    let p = gtcrn_plugin();
    assert_eq!(std::path::Path::new(&p).extension().unwrap(), "so");
    assert!(p.starts_with("/usr/lib/ladspa"));
    assert_eq!(ladspa_dir(), "/usr/lib/ladspa");
    assert_eq!(deepfilter_plugin(), "/usr/lib/ladspa/libdeep_filter_ladspa.so");
}

#[test]
fn eq_bands_are_monotonic_increasing() {
    for pair in EQ_BANDS_HZ.windows(2) {
        assert!(pair[0] < pair[1]);
    }
}

#[test]
fn app_version_matches_cargo() {
    assert_eq!(app_version(), "0.1.0");
    assert_eq!(app_id(), "br.com.biglinux.microphone");
    assert_eq!(gettext_package(), "biglinux-microphone");
}

#[test]
fn eq_preset_ids_non_empty_and_contains_flat() {
    let ids = eq_preset_ids();
    assert!(!ids.is_empty());
    assert!(ids.contains(&"flat"));
    assert_eq!(ids.len(), 10);
    assert_eq!(ids[0], "default_voice");
    assert_eq!(ids[9], "custom");
}

#[test]
fn the_words_round_trip() {
    for quality in [Quality::Automatic, Quality::Best, Quality::Cheapest] {
        assert_eq!(Quality::parse(quality.word()), Some(quality));
    }
    assert_eq!(Quality::parse("economy"), Some(Quality::Cheapest));
    assert_eq!(Quality::parse("quality"), Some(Quality::Best));
    assert_eq!(Quality::parse("louder"), None);
}

#[test]
fn manual_quality_leaves_the_model_alone() {
    assert_eq!(Quality::parse("manual"), Some(Quality::Manual));
    assert!(!Quality::Manual.decides_the_model());
    assert!(Quality::Automatic.decides_the_model());
    assert_eq!(Quality::default(), Quality::Automatic);
}

#[test]
fn echo_mode_words() {
    assert_eq!(EchoMode::parse("auto"), Some(EchoMode::Automatic));
    assert_eq!(EchoMode::parse("automatic"), Some(EchoMode::Automatic));
    assert_eq!(EchoMode::parse("yes"), Some(EchoMode::Always));
    assert_eq!(EchoMode::parse("true"), Some(EchoMode::Always));
    assert_eq!(EchoMode::parse("no"), Some(EchoMode::Never));
    assert_eq!(EchoMode::parse("maybe"), None);
    for mode in [EchoMode::Automatic, EchoMode::Always, EchoMode::Never] {
        assert_eq!(EchoMode::parse(mode.word()), Some(mode));
    }
}

#[test]
fn empty_json_configuration_falls_back_to_default() {
    let c = EchoCancelConfig::default();
    assert!(c.enabled);
    assert_eq!(c.mode, EchoMode::Automatic);
}

#[test]
fn section_defaults() {
    assert_eq!(
        GateConfig::default(),
        GateConfig {
            enabled: false,
            intensity: 30
        }
    );
    assert_eq!(GateConfig { enabled: true, intensity: 90 }.effective_intensity(), 50);
    assert_eq!(StereoMode::default(), StereoMode::Mono);
    assert_eq!(StereoMode::DualMono.word(), "dual_mono");
    assert_eq!(StereoMode::VoiceChanger.word(), "voice_changer");
    assert_eq!(GainSafety::default(), GainSafety::Automatic);
    assert_eq!(OutputChannelMode::default(), OutputChannelMode::Stereo);
    assert_eq!(
        RuntimeConfig::default(),
        RuntimeConfig {
            prefer_fast_cpus: false,
            reserve_memory: false
        }
    );
    assert!(!UiConfig::default().show_advanced);
}

#[test]
fn noise_model_numbers_round_trip() {
    assert_eq!(NoiseModel::GtcrnVctk.to_u8(), 1);
    assert_eq!(NoiseModel::from_u8(0), Some(NoiseModel::GtcrnDns3));
    assert_eq!(NoiseModel::from_u8(99), None);
    for n in 0..=8u8 {
        assert_eq!(NoiseModel::from_u8(n).unwrap().to_u8(), n);
    }
    assert_eq!(NoiseModel::from_i32_or_default(2), NoiseModel::DeepFilterNet3);
    assert_eq!(NoiseModel::from_i32_or_default(-1), NoiseModel::GtcrnDns3);
    assert_eq!(NoiseModel::from_i32_or_default(300), NoiseModel::GtcrnDns3);
}

#[test]
fn noise_model_runtime_contract() {
    assert_eq!(NoiseModel::GtcrnDns3.runtime_library(), Some("libonnxruntime.so"));
    assert_eq!(NoiseModel::DeepFilterNet3.runtime_library(), None);
    assert_eq!(NoiseModel::DpdfnetV8.runtime_library(), Some("libopenvino_c.so"));
    assert_eq!(NoiseModel::DpdfnetV2.lavfi_sample_rate(), 16_000);
    assert_eq!(NoiseModel::DpdfnetV2Hr.lavfi_sample_rate(), 48_000);
    assert!(NoiseModel::DeepFilterNet3.is_attenuation_only());
    assert!(!NoiseModel::GtcrnVctk.is_attenuation_only());
    assert!(NoiseModel::DpdfnetV8Hr.is_realtime_lavfi_supported());
    assert!(!NoiseModel::DpdfnetBaseline.is_realtime_lavfi_supported());
    assert_eq!(
        NoiseModel::GtcrnVctk.plugin_and_label(),
        ("/usr/lib/ladspa/libgtcrn_ladspa.so", "gtcrn_mono")
    );
    assert!(NoiseModel::DeepFilterNet3.plugin_loadable(true, false));
    assert!(!NoiseModel::GtcrnDns3.plugin_loadable(true, false));
    assert!(!NoiseModel::DeepFilterNet3.plugin_loadable(false, true));
    assert_eq!(realtime_lavfi_models().len(), realtime_lavfi_model_labels().len());
    assert_eq!(available_or_default(NoiseModel::DpdfnetV2Hr, false), NoiseModel::GtcrnDns3);
    assert_eq!(available_or_default(NoiseModel::DpdfnetV2Hr, true), NoiseModel::DpdfnetV2Hr);
}

fn idle() -> Machine {
    Machine {
        cores: 8,
        on_battery: Some(false),
        graph_load: Some(GraphLoad::Roomy),
        recent_xruns: 0,
        filters: 1,
        in_a_call: Some(false),
        heavy_share: Some(HeavyCost::Affordable),
    }
}

const HEAVY: NoiseModel = NoiseModel::DpdfnetV2Hr;
const LIGHT: NoiseModel = NoiseModel::GtcrnDns3;
const BEST: NoiseModel = NoiseModel::DeepFilterNet3;

#[test]
fn what_the_person_chose_outright_is_never_second_guessed() {
    let busy = Machine {
        cores: 2,
        on_battery: Some(true),
        graph_load: Some(GraphLoad::Crowded),
        recent_xruns: 40,
        filters: 4,
        heavy_share: Some(HeavyCost::TooDear),
        in_a_call: Some(true),
    };
    assert_eq!(choose_model(Quality::Best, &busy, None), BEST);
    assert_eq!(choose_model(Quality::Cheapest, &idle(), None), LIGHT);
}

#[test]
fn a_machine_with_room_gets_the_better_model() {
    assert_eq!(choose_model(Quality::Automatic, &idle(), None), HEAVY);
}

#[test]
fn what_the_model_costs_here_is_enough_on_its_own() {
    let dear = Machine {
        heavy_share: Some(HeavyCost::TooDear),
        ..idle()
    };
    assert_eq!(choose_model(Quality::Automatic, &dear, None), LIGHT);
    let unmeasured = Machine {
        heavy_share: None,
        ..idle()
    };
    assert_eq!(choose_model(Quality::Automatic, &unmeasured, None), HEAVY);
    let just_under = Machine {
        heavy_share: Some(HeavyCost::Affordable),
        ..idle()
    };
    assert_eq!(choose_model(Quality::Automatic, &just_under, None), HEAVY);
}

#[test]
fn every_reason_to_step_down_works_alone() {
    for machine in [
        Machine { cores: 2, ..idle() },
        Machine {
            recent_xruns: 1,
            ..idle()
        },
        Machine {
            on_battery: Some(true),
            ..idle()
        },
        Machine {
            in_a_call: Some(true),
            ..idle()
        },
        Machine {
            filters: 2,
            ..idle()
        },
    ] {
        assert_eq!(
            choose_model(Quality::Automatic, &machine, Some(HEAVY)),
            LIGHT,
            "{machine:?}"
        );
    }
}

#[test]
fn a_graph_hovering_in_the_middle_does_not_flip_the_model() {
    let middling = Machine {
        graph_load: Some(GraphLoad::Middling),
        ..idle()
    };
    assert_eq!(choose_model(Quality::Automatic, &middling, Some(HEAVY)), HEAVY);
    assert_eq!(choose_model(Quality::Automatic, &middling, Some(LIGHT)), LIGHT);
}

#[test]
fn past_the_band_it_does_move() {
    let crowded = Machine {
        graph_load: Some(GraphLoad::Crowded),
        ..idle()
    };
    assert_eq!(choose_model(Quality::Automatic, &crowded, Some(HEAVY)), LIGHT);
    let roomy = Machine {
        graph_load: Some(GraphLoad::Roomy),
        ..idle()
    };
    assert_eq!(choose_model(Quality::Automatic, &roomy, Some(LIGHT)), HEAVY);
}

#[test]
fn a_reading_that_is_not_available_is_not_counted_against_the_machine() {
    let unknown = Machine {
        on_battery: None,
        in_a_call: None,
        graph_load: None,
        ..idle()
    };
    assert_eq!(choose_model(Quality::Automatic, &unknown, None), HEAVY);
}

#[test]
fn the_same_readings_always_give_the_same_answer() {
    let machine = idle();
    let once = choose_model(Quality::Automatic, &machine, None);
    for _ in 0..100 {
        assert_eq!(choose_model(Quality::Automatic, &machine, None), once);
    }
}

#[test]
fn an_absent_plugin_falls_back_to_the_light_model() {
    assert_eq!(loadable(HEAVY, false), LIGHT);
    assert_eq!(loadable(HEAVY, true), HEAVY);
    assert_eq!(choose_model(Quality::Manual, &idle(), Some(BEST)), BEST);
}

#[test]
fn presets_have_exact_band_count() {
    for id in eq_preset_ids() {
        let bands = eq_preset_bands(id).unwrap();
        assert_eq!(bands.len(), EQ_BAND_COUNT, "preset {} wrong length", id);
    }
}

#[test]
fn preset_gains_are_the_documented_curves() {
    assert_eq!(eq_preset_bands("bass_cut").unwrap(), vec![-40, -35, -25, -15, -5, 0, 0, 0, 0, 0]);
    assert_eq!(eq_preset_bands("flat").unwrap(), vec![0; EQ_BAND_COUNT]);
    assert!(eq_preset_bands("loudness").is_none());
}

#[test]
fn hpf_default_frequency_protects_voice_fundamental() {
    assert!((HPF_FREQUENCY_DEFAULT as f32 - 80.0).abs() < f32::EPSILON);
}

#[test]
fn only_an_attenuation_only_denoiser_is_padded() {
    assert!(!pads_neural_input(GainSafety::Automatic, true, NoiseModel::GtcrnDns3));
    assert!(!pads_neural_input(GainSafety::Automatic, true, NoiseModel::GtcrnVctk));
    assert!(pads_neural_input(GainSafety::Automatic, true, NoiseModel::DeepFilterNet3));
    assert!(!pads_neural_input(GainSafety::Automatic, false, NoiseModel::DeepFilterNet3));
    assert!(!pads_neural_input(GainSafety::Unrestricted, true, NoiseModel::DeepFilterNet3));
}

#[test]
fn eq_preset_bands_lookup() {
    let flat = eq_preset_bands("flat").expect("flat preset exists");
    assert!(flat.iter().all(|b| (*b as f32 - 0.0).abs() < f32::EPSILON));

    assert!(eq_preset_bands("nonexistent").is_none());
}

#[test]
fn presence_preset_emphasises_consonant_clarity_band() {
    let bands: Vec<f32> = eq_preset_bands("presence")
        .expect("presence preset exists")
        .iter()
        .map(|g| *g as f32)
        .collect();
    let peak_idx = bands
        .iter()
        .enumerate()
        .max_by(|a, b| a.1.partial_cmp(b.1).unwrap())
        .map(|(i, _)| i)
        .unwrap();
    assert!(
        peak_idx == 6 || peak_idx == 7,
        "presence peak must sit on 2 kHz or 4 kHz, got index {peak_idx}",
    );
    assert!(bands[2].abs() < f32::EPSILON, "125 Hz must stay flat");
    assert!(bands[9] <= 0.0, "16 kHz must not boost hiss");
}

#[test]
fn noise_model_ladspa_control_value() {
    assert!((f32::from(NoiseModel::GtcrnDns3.ladspa_control()) - 0.0).abs() < f32::EPSILON);
    assert!((f32::from(NoiseModel::GtcrnVctk.ladspa_control()) - 1.0).abs() < f32::EPSILON);
}

#[test]
fn the_benchmark_filter_names_the_plugin_and_its_controls() {
    assert_eq!(benchmark_ffmpeg_filter(NoiseModel::GtcrnVctk, false), "");
    assert_eq!(
        benchmark_ffmpeg_filter(NoiseModel::GtcrnVctk, true),
        "ladspa=file=/usr/lib/ladspa/libgtcrn_ladspa.so:plugin=gtcrn_mono:controls=c0=1|c1=1|c2=1|c3=0.5|c4=0|c5=0|c6=1|c7=-80"
    );
    assert!(benchmark_ffmpeg_filter(NoiseModel::GtcrnDns3, true).contains("|c2=0|"));
    assert_eq!(
        benchmark_ffmpeg_filter(NoiseModel::DeepFilterNet3, true),
        "ladspa=file=/usr/lib/ladspa/libdeep_filter_ladspa.so:plugin=deep_filter_mono:controls=c0=100.00"
    );
}
