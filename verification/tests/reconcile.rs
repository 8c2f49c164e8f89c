use biglinux_microphone::pipeline::mic::MicSwitches;
use biglinux_microphone::services::pipewire::LiveOutcome;
use biglinux_microphone::services::reconcile::{
    action, baseline_path, from_graph, needs_mic_reload, output_topology_changed, Action, Chain,
    Changes, Execution, Failure, GraphNode, MeasuredDiffs, Observed, Plan, Snapshot, Stage, Step,
};

fn no_diffs() -> MeasuredDiffs {
    MeasuredDiffs {
        mic_conf: false,
        output_conf: false,
        mic_bands: false,
        voice_width: false,
        output_bands: false,
    }
}

#[test]
fn forced_repair_does_not_depend_on_live_updates() {
    let settings = Snapshot::default();
    let changes = Changes::between(Some(&settings), &settings, true, no_diffs());
    let targets = changes.live_targets(&settings);
    assert!(!targets.microphone && !targets.output);
    let plan = Plan::new(
        &settings,
        Some(&settings),
        Observed::wanted(&settings),
        changes,
        LiveOutcome::default(),
    );
    assert_eq!(plan.mic, Action::Restart);
}

#[test]
fn a_failed_microphone_push_does_not_restart_the_output() {
    let mut before = Snapshot::default();
    before.output.enabled = true;
    let now = before.clone();
    // The noise-reduction strength moved: the microphone body differs.
    let diffs = MeasuredDiffs {
        mic_conf: true,
        ..no_diffs()
    };
    let changes = Changes::between(Some(&before), &now, false, diffs);
    let plan = Plan::new(
        &now,
        Some(&before),
        Observed::wanted(&now),
        changes,
        LiveOutcome::default(),
    );
    assert_eq!(plan.mic, Action::Restart);
    assert_eq!(plan.output, Action::Keep);
}

#[test]
fn unchanged_suspended_graphs_do_not_need_a_push_or_restart() {
    let before = Snapshot::default();
    // Only the window size and the advanced view changed: nothing the
    // graphs are made of.
    let now = before.clone();
    let changes = Changes::between(Some(&before), &now, false, no_diffs());
    let targets = changes.live_targets(&now);
    assert!(!targets.microphone && !targets.output);
    let plan = Plan::new(
        &now,
        Some(&before),
        Observed::wanted(&now),
        changes,
        LiveOutcome::default(),
    );
    assert!(!plan.changed());
}

#[test]
fn a_missing_endpoint_is_recovered_even_without_a_setting_change() {
    let settings = Snapshot::default();
    let changes = Changes::between(Some(&settings), &settings, false, no_diffs());
    let plan = Plan::new(
        &settings,
        Some(&settings),
        Observed::default(),
        changes,
        LiveOutcome::default(),
    );
    assert_eq!(plan.mic, Action::Restart);
}

/// Carry a plan out against a backend whose canceller service always
/// fails; returns the calls made and whether the run succeeded.
fn run_with_failing_aec(plan: Plan, wanted: Observed) -> (Vec<(Chain, Action)>, bool, Vec<Failure>) {
    let mut calls = Vec::new();
    let mut run = Execution::new(plan, wanted);
    loop {
        let ok = match run.step() {
            Step::Service(chain, action) => {
                calls.push((chain, action));
                chain != Chain::Aec
            }
            Step::WaitAec => unreachable!(),
            Step::WaitState(_) => true,
            Step::Done => break,
        };
        run.advance(ok);
    }
    (calls, run.succeeded(), run.failures.clone())
}

#[test]
fn aec_failure_does_not_prevent_independent_stop_and_output_repair() {
    let plan = Plan {
        aec: Action::Stop,
        mic: Action::Stop,
        output: Action::Restart,
    };
    let (calls, succeeded, _) = run_with_failing_aec(plan, Observed::default());
    assert!(!succeeded);
    assert!(calls.contains(&(Chain::Microphone, Action::Stop)));
    assert!(calls.contains(&(Chain::Output, Action::Restart)));
}

#[test]
fn a_microphone_restart_waits_for_a_wanted_canceller() {
    let plan = Plan {
        aec: Action::Stop,
        mic: Action::Restart,
        output: Action::Keep,
    };
    let wanted = Observed {
        mic_present: true,
        output_present: false,
        aec_present: true,
    };
    let (calls, succeeded, failures) = run_with_failing_aec(plan, wanted);
    assert!(!succeeded);
    assert!(!calls.iter().any(|(chain, _)| *chain == Chain::Microphone));
    assert!(calls.contains(&(Chain::Output, Action::Keep)));
    assert_eq!(failures, vec![Failure::Aec, Failure::MicWaitingForAec]);
    assert_eq!(
        Failure::MicWaitingForAec.context(),
        "microphone is waiting for echo cancellation"
    );
}

#[test]
fn a_restarted_canceller_is_waited_for_before_the_microphone() {
    let plan = Plan {
        aec: Action::Restart,
        mic: Action::Restart,
        output: Action::Keep,
    };
    let wanted = Observed {
        mic_present: true,
        output_present: false,
        aec_present: true,
    };
    let mut run = Execution::new(plan, wanted);
    let mut steps = Vec::new();
    loop {
        let step = run.step();
        steps.push(step);
        if step == Step::Done {
            break;
        }
        run.advance(true);
    }
    assert_eq!(
        steps,
        vec![
            Step::Service(Chain::Aec, Action::Restart),
            Step::WaitAec,
            Step::Service(Chain::Microphone, Action::Restart),
            Step::Service(Chain::Output, Action::Keep),
            Step::WaitState(wanted),
            Step::Done,
        ]
    );
    assert!(run.succeeded());
    assert_eq!(run.stage, Stage::Finished);
}

fn node(kind: &str, state: Option<&str>, name: Option<&str>) -> GraphNode {
    GraphNode {
        kind: kind.to_string(),
        state: state.map(str::to_string),
        name: name.map(str::to_string),
    }
}

#[test]
fn suspended_nodes_exist_but_error_nodes_do_not_count_as_ready() {
    let graph = vec![
        node(
            "PipeWire:Interface:Node",
            Some("suspended"),
            Some("output-biglinux"),
        ),
        node(
            "PipeWire:Interface:Node",
            Some("error"),
            Some("echo-cancel-source"),
        ),
    ];
    let result = from_graph(&graph);
    assert!(result.output_present);
    assert!(!result.aec_present);
}

#[test]
fn the_microphone_needs_both_of_its_nodes() {
    let one = vec![node(
        "PipeWire:Interface:Node",
        Some("running"),
        Some("mic-biglinux"),
    )];
    assert!(!from_graph(&one).mic_present);
    let both = vec![
        node("PipeWire:Interface:Node", Some("idle"), Some("mic-biglinux")),
        node(
            "PipeWire:Interface:Node",
            Some("running"),
            Some("mic-biglinux-capture"),
        ),
    ];
    assert!(from_graph(&both).mic_present);
    let port = vec![node(
        "PipeWire:Interface:Port",
        Some("running"),
        Some("output-biglinux"),
    )];
    assert!(!from_graph(&port).output_present);
}

#[test]
fn the_action_table() {
    assert_eq!(action(false, false, false, false, false, true), Action::Keep);
    assert_eq!(action(false, true, false, false, false, true), Action::Stop);
    assert_eq!(action(false, false, true, false, false, true), Action::Stop);
    assert_eq!(action(false, false, false, false, true, true), Action::Stop);
    assert_eq!(action(true, true, true, false, false, true), Action::Keep);
    assert_eq!(action(true, true, true, true, false, true), Action::Restart);
    assert_eq!(action(true, true, true, false, false, false), Action::Restart);
    assert_eq!(action(true, false, true, false, false, true), Action::Restart);
}

#[test]
fn topology_changes_that_force_a_reload() {
    let before = Snapshot::default();
    let mut now = before.clone();
    assert!(!needs_mic_reload(Some(&before), &now, no_diffs()));
    now.mic.hpf = true;
    assert!(needs_mic_reload(Some(&before), &now, no_diffs()));
    let mut now = before.clone();
    now.mic_eq_preset = "podcast".to_string();
    assert!(needs_mic_reload(Some(&before), &now, no_diffs()));
    assert!(needs_mic_reload(None, &before, no_diffs()));
    assert!(output_topology_changed(None, &before, no_diffs()));
    assert!(!output_topology_changed(Some(&before), &before, no_diffs()));
    let mut out = before.clone();
    out.output.eq_preset = "warm".to_string();
    assert!(output_topology_changed(Some(&before), &out, no_diffs()));
}

#[test]
fn the_baseline_lives_under_the_runtime_directory_when_there_is_one() {
    assert_eq!(
        baseline_path(Some("/run/user/1000"), "/home/u/.config"),
        "/run/user/1000/biglinux-microphone/last-applied.json"
    );
    assert_eq!(
        baseline_path(None, "/home/u/.config"),
        "/home/u/.config/biglinux-microphone/last-applied.json"
    );
}

#[test]
fn cascade_mic_off_drops_every_filter_chain_dependency() {
    let mut s = MicSwitches::default();
    assert!(s.mic_chain_wanted());
    s.cascade_mic_off();
    assert!(!s.noise_reduction);
    assert!(!s.echo_cancel);
    assert!(!s.gate);
    assert!(!s.hpf);
    assert!(!s.stereo);
    assert!(!s.equalizer);
    assert!(!s.compressor);
    assert!(!s.mic_chain_wanted());
}

#[test]
fn each_filter_flag_alone_keeps_chain_wanted() {
    let setters: [(&str, fn(&mut MicSwitches)); 7] = [
        ("noise_reduction", |s| s.noise_reduction = true),
        ("gate", |s| s.gate = true),
        ("hpf", |s| s.hpf = true),
        ("stereo", |s| s.stereo = true),
        ("equalizer", |s| s.equalizer = true),
        ("compressor", |s| s.compressor = true),
        ("echo_cancel", |s| s.echo_cancel = true),
    ];
    for (name, enable) in setters {
        let mut s = MicSwitches::default();
        s.cascade_mic_off();
        assert!(!s.mic_chain_wanted(), "baseline must be all-off");
        enable(&mut s);
        assert!(s.mic_chain_wanted(), "{name} alone must want the mic chain");
    }
}

#[test]
fn fully_applied_ignores_chains_that_are_disabled() {
    let mut s = Snapshot::default();
    s.mic.cascade_mic_off();
    assert!(LiveOutcome::default().fully_applied(Observed::wanted(&s)));
}

#[test]
fn fully_applied_requires_every_enabled_chain() {
    let settings = Snapshot::default();
    assert!(!LiveOutcome::default().fully_applied(Observed::wanted(&settings)));
    assert!(LiveOutcome {
        mic_pushed: true,
        output_pushed: false,
    }
    .fully_applied(Observed::wanted(&settings)));
    let mut with_output = Snapshot::default();
    with_output.output.enabled = true;
    assert!(!LiveOutcome {
        mic_pushed: true,
        output_pushed: false,
    }
    .fully_applied(Observed::wanted(&with_output)));
}
