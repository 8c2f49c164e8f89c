use biglinux_microphone::pipeline::graph::{
    Control, Graph, Link, Node, RenderMode, LABEL_BQ_HIGHPASS, LABEL_COPY, LABEL_GTCRN_MONO,
    LABEL_MIXER, LABEL_PARAM_EQ, LABEL_SWH_GATE, LADSPA_GTCRN, LADSPA_SWH_GATE,
};

fn control(name: &str, value: &str) -> Control {
    Control {
        name: name.to_string(),
        value: value.to_string(),
    }
}

fn sample_graph() -> Graph {
    Graph {
        description: "Test Graph".into(),
        media_name: "Test Graph".into(),
        nodes: vec![
            Node::builtin("m", LABEL_MIXER).with_ports("In 1", "Out"),
            Node::builtin("c", LABEL_COPY),
        ],
        links: vec![Link::new("m:Out", "c:In")],
        inputs: vec!["m:In 1".into()],
        outputs: vec!["c:Out".into()],
        capture_props: "node.name = \"cap\"\nmedia.class = Audio/Source".into(),
        playback_props: "node.name = \"pb\"\nnode.passive = true".into(),
    }
}

#[test]
fn render_emits_module_args_body_only() {
    let s = sample_graph().render(RenderMode::ModuleArgs);
    assert!(s.starts_with('{'));
    assert!(!s.contains("context.modules"));
    assert!(!s.contains("# BigLinux"));
    assert!(!s.contains("libpipewire-module-filter-chain"));
    assert!(s.contains("filter.graph = {"));
    assert!(s.contains("nodes = ["));
    assert!(s.contains("links = ["));
    assert!(s.trim_end().ends_with('}'));
}

#[test]
fn render_contains_declared_links() {
    let s = sample_graph().render(RenderMode::ModuleArgs);
    assert!(s.contains(r#"{ output = "m:Out" input = "c:In" }"#));
}

#[test]
fn render_contains_inputs_and_outputs() {
    let s = sample_graph().render(RenderMode::ModuleArgs);
    assert!(s.contains(r#"inputs = [ "m:In 1" ]"#));
    assert!(s.contains(r#"outputs = [ "c:Out" ]"#));
}

#[test]
fn render_indents_custom_capture_props() {
    let s = sample_graph().render(RenderMode::ModuleArgs);
    assert!(s.contains("capture.props = {"));
    assert!(s.contains("        node.name = \"cap\""));
    assert!(s.contains("    playback.props = {"));
}

#[test]
fn render_omits_bootstrap_modules() {
    let s = sample_graph().render(RenderMode::ModuleArgs);
    assert!(!s.contains("context.properties"));
    assert!(!s.contains("context.spa-libs"));
    assert!(!s.contains("protocol-native"));
    assert!(!s.contains("libpipewire-module-rt"));
    assert!(!s.contains("libpipewire-module-adapter"));
}

#[test]
fn the_whole_body_of_a_small_graph() {
    let g = Graph {
        description: "D".into(),
        media_name: "M".into(),
        nodes: vec![Node::builtin("c", LABEL_COPY)],
        links: vec![],
        inputs: vec!["c:In".into()],
        outputs: vec![],
        capture_props: "a = 1".into(),
        playback_props: String::new(),
    };
    assert_eq!(
        g.render(RenderMode::ModuleArgs),
        "{\n    node.description = \"D\"\n    media.name = \"M\"\n    filter.graph = {\n        nodes = [\n            {\n                type = builtin\n                name = \"c\"\n                plugin = \"builtin\"\n                label = \"copy\"\n            }\n        ]\n        links = [\n        ]\n        inputs = [ \"c:In\" ]\n        outputs = [ ]\n    }\n    capture.props = {\n        a = 1\n    }\n    playback.props = {\n    }\n}\n"
    );
}

#[test]
fn builtin_render_contains_type_and_plugin() {
    let s = Node::builtin("m", LABEL_MIXER).render(0);
    assert!(s.contains("type = builtin"));
    assert!(s.contains("plugin = \"builtin\""));
    assert!(s.contains("label = \"mixer\""));
    assert!(s.contains("name = \"m\""));
}

#[test]
fn ladspa_render_uses_plugin_stem() {
    let s = Node::ladspa("ai", LADSPA_GTCRN, LABEL_GTCRN_MONO).render(0);
    assert!(s.contains("type = ladspa"));
    assert!(s.contains(&format!("plugin = \"{LADSPA_GTCRN}\"")));
    assert!(s.contains("label = \"gtcrn_mono\""));
}

#[test]
fn render_includes_controls_in_order() {
    let n = Node::builtin("hp", LABEL_BQ_HIGHPASS)
        .with_controls(vec![control("Freq", "40.0"), control("Q", "0.707")]);
    let s = n.render(0);
    let freq_idx = s.find("\"Freq\"").unwrap();
    let q_idx = s.find("\"Q\"").unwrap();
    assert!(freq_idx < q_idx);
    assert!(s.contains("\"Freq\" = 40.0"));
    assert!(s.contains("\"Q\" = 0.707"));
}

#[test]
fn render_omits_control_block_when_empty() {
    let s = Node::builtin("cp", LABEL_COPY).render(0);
    assert!(!s.contains("control"));
}

#[test]
fn render_respects_custom_ports() {
    let n = Node::ladspa("g", LADSPA_SWH_GATE, LABEL_SWH_GATE);
    assert_eq!(n.input_port, "Input");
    assert_eq!(n.output_port, "Output");
    let n = Node::builtin("eq", LABEL_PARAM_EQ).with_ports("In 1", "Out 1");
    assert_eq!(n.input_port, "In 1");
    assert_eq!(n.output_port, "Out 1");
}

#[test]
fn render_with_indent_prefix() {
    let n = Node::builtin("c", LABEL_COPY).with_config("config = {\n    a = 1\n}".to_string());
    let s = n.render(4);
    for line in s.lines().filter(|l| !l.is_empty()) {
        assert!(line.starts_with("    "));
    }
    assert!(s.contains("        config = {\n            a = 1\n        }\n"));
}
