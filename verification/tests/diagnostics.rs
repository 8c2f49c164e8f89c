use biglinux_microphone::diagnostics::{
    aec_reference_state, diagnose, failure_count, journal_wanted, AecReference, Check, Findings, Mark,
    ScriptOverride,
};

const MONITOR_LINKED: &str = "\
alsa_output.pci-0000_00_1f.3.analog-stereo:monitor_FL
  |-> echo-cancel-sink:input_FL
alsa_output.pci-0000_00_1f.3.analog-stereo:playback_FL
  |<- Firefox:output_FL
";

const PLAYING_WITHOUT_REFERENCE: &str = "\
alsa_output.pci-0000_00_1f.3.analog-stereo:playback_FL
  |<- Firefox:output_FL
echo-cancel-sink:input_FL
mic-biglinux:capture_FL
  |-> pw-record:input_FL
";

const PLAYING_WITHOUT_A_RECORDER: &str = "\
alsa_output.pci-0000_00_1f.3.analog-stereo:playback_FL
  |<- Google Chrome:output_FL
echo-cancel-source:capture_MONO
  |-> mic-biglinux-capture:input_MONO
mic-biglinux-capture:input_MONO
  |<- echo-cancel-source:capture_MONO
";

const IDLE_DESKTOP: &str = "\
alsa_input.usb-AKG:capture_AUX0
  |-> echo-cancel-capture:input_FL
echo-cancel-source:capture_MONO
  |-> mic-biglinux-capture:input_MONO
";

#[test]
fn the_reference_counts_as_linked_from_either_direction_of_the_dump() {
    assert_eq!(aec_reference_state(MONITOR_LINKED), AecReference::Linked);
    let reversed = "\
echo-cancel-sink:input_FL
  |<- alsa_output.pci-0000_00_1f.3.analog-stereo:monitor_FL
";
    assert_eq!(aec_reference_state(reversed), AecReference::Linked);
}

#[test]
fn a_missing_reference_is_only_a_failure_while_something_plays() {
    assert_eq!(
        aec_reference_state(PLAYING_WITHOUT_REFERENCE),
        AecReference::Missing
    );
    assert_eq!(
        aec_reference_state(IDLE_DESKTOP),
        AecReference::NothingPlaying
    );
    assert_eq!(aec_reference_state(""), AecReference::NothingPlaying);
}

#[test]
fn playback_alone_does_not_demand_a_reference_the_hook_refuses_to_link() {
    assert_eq!(
        aec_reference_state(PLAYING_WITHOUT_A_RECORDER),
        AecReference::NothingRecording
    );
}

#[test]
fn a_monitor_link_further_than_eight_lines_below_the_sink_port_does_not_count() {
    let mut dump = String::from("echo-cancel-sink:input_FL\n");
    for _ in 0..8 {
        dump.push_str("  |<- something:else\n");
    }
    dump.push_str("  |<- alsa_output.x:monitor_FL\n");
    assert_eq!(aec_reference_state(&dump), AecReference::NothingPlaying);
}

#[test]
fn a_recorder_behind_an_unindented_line_is_not_a_consumer() {
    let dump = "\
alsa_output.x:playback_FL
mic-biglinux:capture_FL
other:port
  |-> pw-record:input_FL
";
    assert_eq!(aec_reference_state(dump), AecReference::NothingRecording);
}

fn healthy() -> Findings {
    Findings {
        mic_wanted: true,
        output_enabled: true,
        echo_cancel_enabled: false,
        model_loadable: true,
        gtcrn_plugin: true,
        sc4_plugin: true,
        gate_plugin: true,
        pipewire_answers: true,
        wireplumber_answers: true,
        mic_unit_known: true,
        aec_unit_known: true,
        output_unit_known: true,
        mic_conf_exists: true,
        output_conf_exists: true,
        echo_cancel_conf_exists: false,
        node_listing: "node.name = \"mic-biglinux\"\nnode.name = \"output-biglinux\"\n".to_string(),
        link_dump: String::new(),
        packaged_script: true,
        script_override: ScriptOverride::Absent,
    }
}

#[test]
fn a_healthy_machine_is_all_green() {
    let report = diagnose(&healthy());
    assert_eq!(report.len(), 15);
    assert!(report.iter().all(|(_, mark)| *mark != Mark::Fail));
    assert!(report.contains(&(Check::EchoCancelDisabled, Mark::Skip)));
    assert_eq!(failure_count(&report), 0);
}

#[test]
fn a_chain_turned_off_is_expected_to_be_absent() {
    let f = Findings { mic_wanted: false, output_enabled: false, ..healthy() };
    let report = diagnose(&f);
    assert!(report.contains(&(Check::MicConfAbsent, Mark::Fail)));
    assert!(report.contains(&(Check::MicNodeAbsent, Mark::Fail)));
    assert!(report.contains(&(Check::OutputNodeAbsent, Mark::Fail)));
    assert_eq!(failure_count(&report), 3);
}

#[test]
fn the_echo_canceller_and_the_script_override_add_their_lines() {
    let f = Findings {
        echo_cancel_enabled: true,
        echo_cancel_conf_exists: true,
        script_override: ScriptOverride::Stale,
        ..healthy()
    };
    let report = diagnose(&f);
    assert!(report.contains(&(Check::EchoCancelConfWritten, Mark::Pass)));
    assert!(report.contains(&(Check::EchoCancelNodeVisible, Mark::Fail)));
    assert!(report.contains(&(Check::AecReferenceNothingPlaying, Mark::Skip)));
    assert_eq!(report.last(), Some(&(Check::ScriptOverrideStale, Mark::Fail)));
    assert_eq!(failure_count(&report), 2);
    let same = diagnose(&Findings { script_override: ScriptOverride::Same, ..healthy() });
    assert_eq!(same.last(), Some(&(Check::ScriptOverrideRedundant, Mark::Warn)));
}

#[test]
fn a_journal_is_shown_only_for_a_wanted_unit_that_is_not_running() {
    assert!(journal_wanted(true, "failed"));
    assert!(!journal_wanted(true, "active"));
    assert!(!journal_wanted(false, "inactive"));
}
