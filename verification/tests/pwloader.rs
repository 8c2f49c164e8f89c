use biglinux_microphone::pwloader::{
    fast_cpus, is_degraded, parse_max_frequency, parse_online_cpus, plugin_paths,
    resolve_args_path, ArgsPathError, DenoiseState, Judgement, Window,
};

#[test]
fn parses_sysfs_online_cpu_ranges() {
    assert_eq!(
        parse_online_cpus("0-3,8,10-11\n"),
        vec![0, 1, 2, 3, 8, 10, 11]
    );
}

#[test]
fn ignores_malformed_online_cpu_ranges() {
    assert_eq!(parse_online_cpus("0-1,bad,5-3,7\n"), vec![0, 1, 7]);
}

#[test]
fn an_empty_online_list_names_no_cpu() {
    assert!(parse_online_cpus("").is_empty());
    assert!(parse_online_cpus("\n").is_empty());
    assert_eq!(parse_online_cpus("4-4"), vec![4]);
    assert!(parse_online_cpus("-3").is_empty());
}

#[test]
fn plugin_paths_reads_the_chain_it_was_given() {
    let args = r#"
        filter.graph = {
            nodes = [
                { type = builtin name = "hpf" plugin = "builtin" label = "bq_highpass" }
                { type = ladspa name = "ai"
                  plugin = "/usr/lib/ladspa/libdpdfnet_dpdfnet2_48khz_hr_ladspa.so"
                  label = "dpdfnet2_48khz_hr_mono" }
            ]
        }
        "#;
    assert_eq!(
        plugin_paths(args),
        vec!["/usr/lib/ladspa/libdpdfnet_dpdfnet2_48khz_hr_ladspa.so"]
    );
}

#[test]
fn a_chain_of_builtins_names_no_shared_object() {
    let args = r#"{ plugin = "builtin" label = "copy" }"#;
    assert!(plugin_paths(args).is_empty());
}

#[test]
fn the_fast_cpus_are_those_at_the_highest_frequency() {
    let cpus = vec![(0, 3_000_000), (1, 4_500_000), (2, 3_000_000), (3, 4_500_000)];
    assert_eq!(fast_cpus(&cpus), Some(vec![1, 3]));
}

#[test]
fn a_homogeneous_machine_is_not_pinned() {
    assert_eq!(fast_cpus(&vec![(0, 3_000_000), (1, 3_000_000)]), None);
    assert_eq!(fast_cpus(&Vec::new()), None);
}

#[test]
fn the_frequency_file_is_read_trimmed() {
    assert_eq!(parse_max_frequency("4500000\n"), Some(4_500_000));
    assert_eq!(parse_max_frequency("fast"), None);
}

#[test]
fn config_arguments_resolve_under_the_application_directory() {
    assert_eq!(
        resolve_args_path("@config/mic.args", Some("/home/u/.config")),
        Ok("/home/u/.config/biglinux-microphone/mic.args".to_string())
    );
    assert_eq!(
        resolve_args_path("/tmp/x.args", None),
        Ok("/tmp/x.args".to_string())
    );
}

#[test]
fn unknown_config_names_and_a_missing_root_are_refused() {
    assert_eq!(
        resolve_args_path("@config/other.args", Some("/home/u/.config")),
        Err(ArgsPathError::UnknownName)
    );
    assert_eq!(
        resolve_args_path("@config/aec.args", None),
        Err(ArgsPathError::NoConfigRoot)
    );
    assert_eq!(
        ArgsPathError::UnknownName.message(),
        "unknown application configuration name"
    );
}

#[test]
fn the_first_sample_and_a_reset_give_no_evidence() {
    let mut w = DenoiseState::new();
    assert_eq!(w.sample(100, 98), Window::Skip);
    assert_eq!(
        w.sample(200, 150),
        Window::Counted {
            asked: 100,
            enhanced: 52
        }
    );
    assert_eq!(w.judge(true, false), Judgement::Restart);
    assert_eq!(w.sample(10, 5), Window::Skip);
    assert_eq!(w.verdict, None);
    assert_eq!(w.sample(10, 5), Window::Skip);
}

#[test]
fn a_verdict_is_announced_once_it_has_settled_and_only_once() {
    let mut w = DenoiseState::new();
    assert_eq!(w.judge(true, false), Judgement::Restart);
    assert_eq!(w.judge(true, false), Judgement::Hold);
    assert_eq!(w.judge(true, true), Judgement::Announce);
    assert!(w.announced_degraded);
    assert_eq!(w.judge(true, true), Judgement::Hold);
    assert_eq!(w.judge(false, true), Judgement::Restart);
    assert_eq!(w.judge(false, true), Judgement::Announce);
    assert!(!w.announced_degraded);
}

#[test]
fn the_bands_do_not_let_a_chain_on_the_line_announce_twice() {
    // Ratios as hops enhanced out of a hundred asked.
    // Freshly healthy: only a real drop below the lower band is degraded.
    assert!(!is_degraded(100, 100, false));
    assert!(!is_degraded(100, 95, false), "0.95 is between the bands");
    assert!(is_degraded(100, 85, false));

    // Already announced: it takes a climb past the upper band to come back.
    assert!(is_degraded(100, 95, true), "0.95 is not recovery yet");
    assert!(!is_degraded(100, 99, true));
}

#[test]
fn the_band_edges_are_not_degraded() {
    assert!(!is_degraded(10, 9, false));
    assert!(is_degraded(1000, 899, false));
    assert!(!is_degraded(50, 49, true));
    assert!(is_degraded(u64::MAX, u64::MAX / 2, false));
}
