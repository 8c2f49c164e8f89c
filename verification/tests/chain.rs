use biglinux_microphone::pipeline::chain::{
    eq_config, mic_capture_props, mic_links, mic_playback_props, output_capture_props,
    output_links, output_playback_props,
};
use biglinux_microphone::pipeline::graph::{
    Link, Node, LABEL_BQ_HIGHPASS, LABEL_COPY, LABEL_GTCRN_MONO, LABEL_MIXER, LABEL_PARAM_EQ,
    LABEL_SC4_MONO, LABEL_SWH_GATE, LADSPA_GTCRN, LADSPA_SC4_MONO, LADSPA_SWH_GATE,
};

fn pairs(links: &[Link]) -> Vec<(String, String)> {
    links
        .iter()
        .map(|l| (l.output.clone(), l.input.clone()))
        .collect()
}

fn p(a: &str, b: &str) -> (String, String) {
    (a.to_string(), b.to_string())
}

#[test]
fn a_minimal_chain_links_hpf_directly_to_the_copies() {
    let nodes = vec![
        Node::builtin("hpf", LABEL_BQ_HIGHPASS),
        Node::builtin("copy_l", LABEL_COPY),
        Node::builtin("copy_r", LABEL_COPY),
    ];
    assert_eq!(
        pairs(&mic_links(&nodes)),
        vec![p("hpf:Out", "copy_l:In"), p("hpf:Out", "copy_r:In")]
    );
}

#[test]
fn the_chain_skips_absent_nodes_and_uses_each_nodes_ports() {
    let nodes = vec![
        Node::builtin("hpf_pre", LABEL_BQ_HIGHPASS),
        Node::builtin("hpf", LABEL_BQ_HIGHPASS),
        Node::ladspa("ai", LADSPA_GTCRN, LABEL_GTCRN_MONO).with_ports("Audio In", "Audio Out"),
        Node::ladspa("compressor", LADSPA_SC4_MONO, LABEL_SC4_MONO),
        Node::builtin("eq", LABEL_PARAM_EQ).with_ports("In 1", "Out 1"),
        Node::builtin("copy_l", LABEL_COPY),
        Node::builtin("copy_r", LABEL_COPY),
    ];
    assert_eq!(
        pairs(&mic_links(&nodes)),
        vec![
            p("hpf_pre:Out", "hpf:In"),
            p("hpf:Out", "ai:Audio In"),
            p("ai:Audio Out", "compressor:Input"),
            p("compressor:Output", "eq:In 1"),
            p("eq:Out 1", "copy_l:In"),
            p("eq:Out 1", "copy_r:In"),
        ]
    );
    assert!(mic_links(&Vec::new()).is_empty());
}

#[test]
fn the_output_chain_follows_the_denoisers_ports() {
    let nodes = vec![
        Node::builtin("mixer", LABEL_MIXER),
        Node::builtin("hpf", LABEL_BQ_HIGHPASS),
        Node::ladspa("ai", "/usr/lib/ladspa/x.so", "x").with_ports("Audio In", "Audio Out"),
        Node::ladspa("gate", LADSPA_SWH_GATE, LABEL_SWH_GATE),
    ];
    let links = output_links(&nodes).unwrap();
    assert_eq!(
        pairs(&links),
        vec![
            p("mixer:Out", "hpf:In"),
            p("hpf:Out", "ai:Audio In"),
            p("ai:Audio Out", "gate:Input"),
            p("gate:Output", "compressor:Input"),
            p("compressor:Output", "eq:In 1"),
            p("eq:Out 1", "copy_l:In"),
            p("eq:Out 1", "copy_r:In"),
        ]
    );
    assert!(output_links(&vec![Node::builtin("mixer", LABEL_MIXER)]).is_none());
}

#[test]
fn the_capture_side_is_pinned_to_the_canceller_only_when_it_runs() {
    assert!(!mic_capture_props(false).contains("target.object"));
    assert!(mic_capture_props(true).ends_with("\ntarget.object = \"echo-cancel-source\""));
    assert!(mic_capture_props(false).starts_with("node.name = \"mic-biglinux-capture\""));
    assert!(mic_playback_props().contains("filter.smart.name = \"big.filter-microphone\""));
    assert!(output_capture_props().contains("media.class = Audio/Sink"));
    assert!(output_playback_props().contains("stream.dont-remix = true"));
}

#[test]
fn the_equalizer_block_lists_the_ten_bands() {
    let gains: Vec<String> = (0..10).map(|i| format!("{i}.00")).collect();
    let block = eq_config(&gains);
    assert!(block.starts_with("config = {\n    filters = [\n"));
    assert!(block.contains("        { type = bq_peaking freq = 31 gain = 0.00 q = 1.41 }\n"));
    assert!(block.contains("        { type = bq_peaking freq = 16000 gain = 9.00 q = 1.41 }\n"));
    assert!(block.ends_with("    ]\n}"));
    assert_eq!(block.matches("bq_peaking").count(), 10);
}
