use biglinux_microphone::agc::{
    back_in_bounds, clip_step_down, clipped_too_often, find_alsa_source_node,
    find_filter_output_node, limit_step, parse_pw_nodes, reactivity_steps, step_volume,
    voiced_enough, wpctl_volume_arg, AgcSettings, AgcState, DecisionCycle, PwNode, FRAMES_PER_DECISION,
};

const LISTING: &str = "\
\tid 31, type PipeWire:Interface:Node/3
\t\tfactory.id = \"19\"
\t\tnode.name = \"alsa_output.pci-0000_00_1f.3.analog-stereo\"
\t\tmedia.class = \"Audio/Sink\"
\tid 32, type PipeWire:Interface:Node/3
\t\tnode.name = \"alsa_input.pci-0000_00_1f.3.analog-stereo\"
\t\tmedia.class = \"Audio/Source\"
\tid 57, type PipeWire:Interface:Node/3
\t\tnode.name = \"big-noise-canceling-output\"
\t\tmedia.class = \"Audio/Source\"
";

#[test]
fn agc_defaults() {
    let s = AgcSettings::default();
    assert!(s.enabled);
    assert_eq!(s.target_level_dbfs, 73);
    assert_eq!(s.min_volume, 20);
    assert_eq!(s.max_volume, 100);
    assert_eq!(s.reactivity, 50);
}

#[test]
fn the_listing_yields_each_node_with_its_class_and_name() {
    let nodes = parse_pw_nodes(LISTING);
    assert_eq!(nodes.len(), 3);
    assert_eq!(
        nodes[1],
        PwNode {
            id: 32,
            media_class: "Audio/Source".to_string(),
            node_name: "alsa_input.pci-0000_00_1f.3.analog-stereo".to_string(),
        }
    );
    assert_eq!(find_alsa_source_node(&nodes), Some(32));
    assert_eq!(find_filter_output_node(&nodes), Some(57));
    assert_eq!(find_alsa_source_node(&nodes[..1].to_vec()), None);
    assert!(parse_pw_nodes("").is_empty());
}

#[test]
fn a_volume_outside_the_bounds_is_brought_back_first() {
    let cfg = AgcSettings::default();
    assert_eq!(back_in_bounds(10, &cfg), Some(20));
    assert_eq!(back_in_bounds(120, &cfg), Some(100));
    assert_eq!(back_in_bounds(70, &cfg), None);
}

#[test]
fn clipping_takes_three_points_off_down_to_the_minimum() {
    let cfg = AgcSettings::default();
    assert_eq!(clip_step_down(50, &cfg), Some(47));
    assert_eq!(clip_step_down(22, &cfg), Some(20));
    assert_eq!(clip_step_down(20, &cfg), None);
}

#[test]
fn a_step_stays_within_the_bounds() {
    let cfg = AgcSettings::default();
    assert_eq!(step_volume(50, 5, &cfg), Some(55));
    assert_eq!(step_volume(98, 5, &cfg), Some(100));
    assert_eq!(step_volume(100, 5, &cfg), None);
    assert_eq!(step_volume(22, -5, &cfg), Some(20));
    assert_eq!(step_volume(60, 0, &cfg), None);
}

#[test]
fn reactivity_sets_the_decision_count_and_the_largest_step() {
    let slow = reactivity_steps(0);
    assert_eq!((slow.speech_decisions_required, slow.max_step), (5, 2));
    let middle = reactivity_steps(50);
    assert_eq!((middle.speech_decisions_required, middle.max_step), (3, 6));
    let fast = reactivity_steps(100);
    assert_eq!((fast.speech_decisions_required, fast.max_step), (1, 10));
    // Out-of-range reactivity is clamped; the ramps round to the nearest.
    assert_eq!(reactivity_steps(-20), slow);
    assert_eq!(reactivity_steps(250), fast);
    assert_eq!(reactivity_steps(12).speech_decisions_required, 5);
    assert_eq!(reactivity_steps(13).speech_decisions_required, 4);
    assert_eq!(reactivity_steps(7).max_step, 3);
}

#[test]
fn the_cycle_ratios_match_their_thresholds() {
    assert!(!clipped_too_often(5, 50));
    assert!(clipped_too_often(6, 50));
    assert!(!clipped_too_often(3, 0));
    assert!(voiced_enough(10, 50));
    assert!(!voiced_enough(9, 50));
    assert!(voiced_enough(1, 3));
    assert!(!voiced_enough(0, 0));
}

#[test]
fn a_step_is_at_least_one_point_and_at_most_the_largest() {
    assert_eq!(limit_step(true, 0, 6), 1);
    assert_eq!(limit_step(true, 2, 6), 2);
    assert_eq!(limit_step(true, 9, 6), 3);
    assert_eq!(limit_step(true, 9, 5), 2);
    assert_eq!(limit_step(false, 0, 6), -1);
    assert_eq!(limit_step(false, -4, 6), -4);
    assert_eq!(limit_step(false, -9, 6), -6);
}

#[test]
fn one_decision_runs_through_its_parts() {
    let cfg = AgcSettings::default();
    // Out of bounds: brought back, the count kept.
    let mut s = AgcState { current_volume: 120, speech_decisions: 2 };
    assert!(s.correct(0, 50, &cfg));
    assert_eq!(s, AgcState { current_volume: 100, speech_decisions: 2 });
    // Clipping: three points off, the count starts over.
    assert!(s.correct(10, 50, &cfg));
    assert_eq!(s, AgcState { current_volume: 97, speech_decisions: 0 });
    // Nothing to correct.
    assert!(!s.correct(1, 50, &cfg));
    // Quiet cycles reset the count; speech counts up to the reactivity.
    s.speech_decisions = 2;
    assert!(!s.hear(false, 40, 50));
    assert_eq!(s.speech_decisions, 0);
    assert!(s.hear(true, 40, 50));
    assert!(!s.count_speech(50));
    assert!(!s.count_speech(50));
    assert!(s.count_speech(50));
    assert_eq!(s.speech_decisions, 3);
    // A step within the bounds, then one held at the top.
    assert!(s.take_step(2, &cfg));
    assert_eq!(s, AgcState { current_volume: 99, speech_decisions: 0 });
    assert!(s.take_step(3, &cfg));
    assert_eq!(s.current_volume, 100);
    assert!(!s.take_step(3, &cfg));
    let mut fresh = AgcState::new(70);
    fresh.sync_volume(40);
    assert_eq!(fresh, AgcState { current_volume: 40, speech_decisions: 0 });
}

#[test]
fn a_decision_is_due_every_fifty_frames() {
    let mut c = DecisionCycle::new();
    for i in 1..FRAMES_PER_DECISION {
        assert!(!c.record(i % 10 == 0, i % 2 == 0));
    }
    assert!(c.record(true, true));
    assert_eq!(c.frames, 50);
    assert_eq!(c.clipped_frames, 5);
    assert_eq!(c.voiced_frames, 25);
}

#[test]
fn the_volume_argument_is_a_two_decimal_fraction() {
    assert_eq!(wpctl_volume_arg(70), "0.70");
    assert_eq!(wpctl_volume_arg(5), "0.05");
    assert_eq!(wpctl_volume_arg(100), "1.00");
    assert_eq!(wpctl_volume_arg(-3), "0.00");
    assert_eq!(wpctl_volume_arg(150), "1.00");
}

#[test]
fn any_volume_below_the_minimum_is_brought_back() {
    let cfg = AgcSettings { min_volume: 0, max_volume: 100, ..AgcSettings::default() };
    let mut s = AgcState::new(i32::MIN);
    assert!(s.correct(0, 50, &cfg));
    assert_eq!(s.current_volume, 0);
    let mut high = AgcState::new(i32::MAX);
    assert!(high.correct(50, 50, &cfg));
    assert_eq!(high.current_volume, 100);
    let floor = AgcSettings { min_volume: i32::MIN, max_volume: 100, ..AgcSettings::default() };
    let mut low = AgcState::new(i32::MIN + 1);
    assert!(low.correct(50, 50, &floor));
    assert_eq!(low.current_volume, i32::MIN);
}
