//! A filter graph and the `{ … }` args body it is rendered as.
//!
//! Control values are written by the caller as the text they appear as
//! (formatting a floating-point level is the application's part); the
//! layout, quoting and order of everything else is decided here.
use vstd::prelude::*;

use crate::text::{extend, extend_str, from_chars, lines, lines_view, str_lines, to_chars};

verus! {

/// How an emitted `.conf` is consumed.
#[derive(Debug, Clone, Copy, PartialEq, Eq, Structural)]
pub enum RenderMode {
    /// The bare module-args body the loader passes verbatim to
    /// `pw_context_load_module()`.
    ModuleArgs,
}

/// One entry of `filter.graph.links`.
#[derive(Debug, Clone)]
pub struct Link {
    pub output: String,
    pub input: String,
}

impl Link {
    /// A link from the port `output` to the port `input`.
    pub fn new(output: &str, input: &str) -> (r: Self)
        ensures
            r.output@ == output@,
            r.input@ == input@,
    {
        Link { output: output.to_owned(), input: input.to_owned() }
    }
}

/// Where a filter node comes from.
#[derive(Debug, Clone, Copy, PartialEq, Eq)]
pub enum NodeKind {
    /// A filter-chain built-in, rendered with `plugin = "builtin"`.
    Builtin,
    /// An external LADSPA plugin, named by its shared object.
    Ladspa { plugin_stem: &'static str },
}

impl NodeKind {
    /// The `type` of the node.
    pub fn type_str(self) -> (r: &'static str)
        ensures
            r@ == (match self {
                NodeKind::Builtin => "builtin"@,
                NodeKind::Ladspa { .. } => "ladspa"@,
            }),
    {
        match self {
            NodeKind::Builtin => "builtin",
            NodeKind::Ladspa { .. } => "ladspa",
        }
    }

    /// The `plugin` of the node.
    pub fn plugin_str(self) -> (r: &'static str)
        ensures
            r@ == (match self {
                NodeKind::Builtin => "builtin"@,
                NodeKind::Ladspa { plugin_stem } => plugin_stem@,
            }),
    {
        match self {
            NodeKind::Builtin => "builtin",
            NodeKind::Ladspa { plugin_stem } => plugin_stem,
        }
    }
}


/// The GTCRN speech-enhancement plugin.
pub const LADSPA_GTCRN: &'static str = "/usr/lib/ladspa/libgtcrn_ladspa.so";
/// Steve Harris' gate.
pub const LADSPA_SWH_GATE: &'static str = "/usr/lib/ladspa/gate_1410.so";
/// The SC4 mono compressor.
pub const LADSPA_SC4_MONO: &'static str = "/usr/lib/ladspa/sc4m_1916.so";
/// Steve Harris' pitch scaler: changes pitch without retiming.
pub const LADSPA_PITCH_SCALE: &'static str = "/usr/lib/ladspa/pitch_scale_1193.so";
/// Steve Harris' simple amplifier.
pub const LADSPA_AMP: &'static str = "/usr/lib/ladspa/amp_1181.so";
/// Label of the GTCRN mono plugin.
pub const LABEL_GTCRN_MONO: &'static str = "gtcrn_mono";
/// Label of Steve Harris' gate.
pub const LABEL_SWH_GATE: &'static str = "gate";
/// Label of the SC4 mono compressor.
pub const LABEL_SC4_MONO: &'static str = "sc4m";
/// Label of the pitch scaler.
pub const LABEL_PITCH_SCALE: &'static str = "pitchScale";
/// Label of the simple amplifier.
pub const LABEL_AMP: &'static str = "amp";
/// The built-in high-pass biquad.
pub const LABEL_BQ_HIGHPASS: &'static str = "bq_highpass";
/// The built-in parametric equalizer.
pub const LABEL_PARAM_EQ: &'static str = "param_eq";
/// The built-in mixer.
pub const LABEL_MIXER: &'static str = "mixer";
/// The built-in copy.
pub const LABEL_COPY: &'static str = "copy";

/// `n` spaces.
pub open spec fn spaces(n: nat) -> Seq<char> {
    Seq::new(n, |i: int| ' ')
}

/// Each line after `prefix`, followed by a newline.
pub open spec fn prefixed_lines(ls: Seq<Seq<char>>, prefix: Seq<char>) -> Seq<char>
    decreases ls.len(),
{
    if ls.len() == 0 {
        seq![]
    } else {
        prefixed_lines(ls.drop_last(), prefix) + prefix + ls.last() + seq!['\n']
    }
}

/// A `control` entry: the control's name and the text of its value.
#[derive(Debug, Clone)]
pub struct Control {
    pub name: String,
    pub value: String,
}

/// One entry of `filter.graph.nodes`.
#[derive(Debug, Clone)]
pub struct Node {
    pub name: String,
    pub kind: NodeKind,
    pub label: &'static str,
    pub input_port: &'static str,
    pub output_port: &'static str,
    /// The controls, in the order they are written.
    pub controls: Vec<Control>,
    /// An already rendered `config = { … }` block (used by `param_eq`).
    pub config: Option<String>,
}

/// The `type` word of a kind.
pub open spec fn type_word(k: NodeKind) -> Seq<char> {
    match k {
        NodeKind::Builtin => "builtin"@,
        NodeKind::Ladspa { .. } => "ladspa"@,
    }
}

/// The `plugin` of a kind.
pub open spec fn plugin_word(k: NodeKind) -> Seq<char> {
    match k {
        NodeKind::Builtin => "builtin"@,
        NodeKind::Ladspa { plugin_stem } => plugin_stem@,
    }
}

/// The control lines of a node, each under `pad`.
pub open spec fn controls_text(cs: Seq<Control>, pad: Seq<char>) -> Seq<char>
    decreases cs.len(),
{
    if cs.len() == 0 {
        seq![]
    } else {
        controls_text(cs.drop_last(), pad) + pad + "        \""@ + cs.last().name@ + "\" = "@
            + cs.last().value@ + seq!['\n']
    }
}

/// A node as an entry of `nodes = [ … ]`, every line after `indent`
/// spaces: its type, name, plugin and label, its controls when it has
/// any, and its config block.
pub open spec fn node_text(n: Node, indent: nat) -> Seq<char> {
    let pad = spaces(indent);
    pad + "{\n"@ + pad + "    type = "@ + type_word(n.kind) + seq!['\n'] + pad + "    name = \""@
        + n.name@ + "\"\n"@ + pad + "    plugin = \""@ + plugin_word(n.kind) + "\"\n"@ + pad
        + "    label = \""@ + n.label@ + "\"\n"@ + (if n.controls@.len() > 0 {
        pad + "    control = {\n"@ + controls_text(n.controls@, pad) + pad + "    }\n"@
    } else {
        seq![]
    }) + (match n.config {
        Some(c) => prefixed_lines(lines(c@), pad + "    "@),
        None => seq![],
    }) + pad + "}\n"@
}

fn push_spaces(out: &mut Vec<char>, n: usize)
    ensures
        final(out)@ == old(out)@ + spaces(n as nat),
{
    let ghost start = out@;
    let mut i: usize = 0;
    while i < n
        invariant
            i <= n,
            out@ == start + spaces(i as nat),
        decreases n - i,
    {
        out.push(' ');
        i = i + 1;
        assert(out@ =~= start + spaces(i as nat));
    }
}

fn push_prefixed_lines(out: &mut Vec<char>, text: &str, prefix: &Vec<char>)
    ensures
        final(out)@ == old(out)@ + prefixed_lines(lines(text@), prefix@),
{
    let ls = str_lines(text);
    let ghost v = lines_view(ls@);
    let ghost start = out@;
    let mut i: usize = 0;
    assert(v.take(0) =~= Seq::<Seq<char>>::empty());
    while i < ls.len()
        invariant
            i <= ls.len(),
            v == lines_view(ls@),
            v == lines(text@),
            out@ == start + prefixed_lines(v.take(i as int), prefix@),
        decreases ls.len() - i,
    {
        extend(out, prefix);
        extend(out, &ls[i]);
        out.push('\n');
        assert(v.take(i + 1).drop_last() =~= v.take(i as int));
        assert(v.take(i + 1).last() == v[i as int]);
        i = i + 1;
        assert(out@ =~= start + prefixed_lines(v.take(i as int), prefix@));
    }
    assert(v.take(v.len() as int) =~= v);
}

impl Node {
    /// A filter-chain built-in with ports `In` and `Out`.
    pub fn builtin(name: &str, label: &'static str) -> (r: Node)
        ensures
            r.name@ == name@,
            r.kind == NodeKind::Builtin,
            r.label == label,
            r.input_port@ == "In"@,
            r.output_port@ == "Out"@,
            r.controls@.len() == 0,
            r.config is None,
    {
        Node {
            name: name.to_string(),
            kind: NodeKind::Builtin,
            label,
            input_port: "In",
            output_port: "Out",
            controls: Vec::new(),
            config: None,
        }
    }

    /// A LADSPA plugin with ports `Input` and `Output`.
    pub fn ladspa(name: &str, plugin_stem: &'static str, label: &'static str) -> (r: Node)
        ensures
            r.name@ == name@,
            r.kind == (NodeKind::Ladspa { plugin_stem }),
            r.label == label,
            r.input_port@ == "Input"@,
            r.output_port@ == "Output"@,
            r.controls@.len() == 0,
            r.config is None,
    {
        Node {
            name: name.to_string(),
            kind: NodeKind::Ladspa { plugin_stem },
            label,
            input_port: "Input",
            output_port: "Output",
            controls: Vec::new(),
            config: None,
        }
    }

    /// The same node with other port names.
    pub fn with_ports(self, input: &'static str, output: &'static str) -> (r: Node)
        ensures
            r == (Node { input_port: input, output_port: output, ..self }),
    {
        Node { input_port: input, output_port: output, ..self }
    }

    /// The same node with these controls, in this order.
    pub fn with_controls(self, controls: Vec<Control>) -> (r: Node)
        ensures
            r == (Node { controls, ..self }),
    {
        Node { controls, ..self }
    }

    /// The same node with a config block.
    pub fn with_config(self, block: String) -> (r: Node)
        ensures
            r == (Node { config: Some(block), ..self }),
    {
        Node { config: Some(block), ..self }
    }

    /// The node as an entry of `nodes = [ … ]`, each line after `indent`
    /// spaces.
    pub fn render(&self, indent: usize) -> (r: String)
        ensures
            r@ == node_text(*self, indent as nat),
    {
        let mut out: Vec<char> = Vec::new();
        let ghost pad = spaces(indent as nat);
        push_spaces(&mut out, indent);
        extend_str(&mut out, "{\n");
        push_spaces(&mut out, indent);
        extend_str(&mut out, "    type = ");
        extend_str(&mut out, self.kind.type_str());
        out.push('\n');
        push_spaces(&mut out, indent);
        extend_str(&mut out, "    name = \"");
        extend_str(&mut out, self.name.as_str());
        extend_str(&mut out, "\"\n");
        push_spaces(&mut out, indent);
        extend_str(&mut out, "    plugin = \"");
        extend_str(&mut out, self.kind.plugin_str());
        extend_str(&mut out, "\"\n");
        push_spaces(&mut out, indent);
        extend_str(&mut out, "    label = \"");
        extend_str(&mut out, self.label);
        extend_str(&mut out, "\"\n");
        let ghost head = out@;
        assert(head == pad + "{\n"@ + pad + "    type = "@ + type_word(self.kind) + seq!['\n'] + pad
            + "    name = \""@ + self.name@ + "\"\n"@ + pad + "    plugin = \""@ + plugin_word(
            self.kind,
        ) + "\"\n"@ + pad + "    label = \""@ + self.label@ + "\"\n"@);
        if self.controls.len() > 0 {
            push_spaces(&mut out, indent);
            extend_str(&mut out, "    control = {\n");
            let ghost before = out@;
            let mut i: usize = 0;
            assert(self.controls@.take(0) =~= Seq::<Control>::empty());
            while i < self.controls.len()
                invariant
                    i <= self.controls.len(),
                    pad == spaces(indent as nat),
                    out@ == before + controls_text(self.controls@.take(i as int), pad),
                decreases self.controls.len() - i,
            {
                let c = &self.controls[i];
                push_spaces(&mut out, indent);
                extend_str(&mut out, "        \"");
                extend_str(&mut out, c.name.as_str());
                extend_str(&mut out, "\" = ");
                extend_str(&mut out, c.value.as_str());
                out.push('\n');
                assert(self.controls@.take(i + 1).drop_last() =~= self.controls@.take(i as int));
                assert(self.controls@.take(i + 1).last() == self.controls@[i as int]);
                i = i + 1;
                assert(out@ =~= before + controls_text(self.controls@.take(i as int), pad));
            }
            assert(self.controls@.take(self.controls@.len() as int) =~= self.controls@);
            push_spaces(&mut out, indent);
            extend_str(&mut out, "    }\n");
        }
        let ghost mid = out@;
        assert(mid == head + (if self.controls@.len() > 0 {
            pad + "    control = {\n"@ + controls_text(self.controls@, pad) + pad + "    }\n"@
        } else {
            seq![]
        }));
        match &self.config {
            Some(cfg) => {
                let mut prefix: Vec<char> = Vec::new();
                push_spaces(&mut prefix, indent);
                extend_str(&mut prefix, "    ");
                push_prefixed_lines(&mut out, cfg.as_str(), &prefix);
            },
            None => {},
        }
        let ghost tail = out@;
        push_spaces(&mut out, indent);
        extend_str(&mut out, "}\n");
        assert(out@ =~= node_text(*self, indent as nat));
        from_chars(&out)
    }
}

/// A fully formed filter graph with its module-level properties.
#[derive(Debug, Clone)]
pub struct Graph {
    pub description: String,
    pub media_name: String,
    pub nodes: Vec<Node>,
    pub links: Vec<Link>,
    /// Entries of `inputs = [ … ]`.
    pub inputs: Vec<String>,
    /// Entries of `outputs = [ … ]`.
    pub outputs: Vec<String>,
    /// The body of `capture.props = { … }`, one property per line.
    pub capture_props: String,
    /// The body of `playback.props = { … }`, one property per line.
    pub playback_props: String,
}

/// The nodes, each rendered at twelve spaces.
pub open spec fn nodes_text(ns: Seq<Node>) -> Seq<char>
    decreases ns.len(),
{
    if ns.len() == 0 {
        seq![]
    } else {
        nodes_text(ns.drop_last()) + node_text(ns.last(), 12)
    }
}

/// The links, one per line.
pub open spec fn links_text(ls: Seq<Link>) -> Seq<char>
    decreases ls.len(),
{
    if ls.len() == 0 {
        seq![]
    } else {
        links_text(ls.drop_last()) + "            { output = \""@ + ls.last().output@
            + "\" input = \""@ + ls.last().input@ + "\" }\n"@
    }
}

/// Quoted entries, each after a space.
pub open spec fn quoted_items(items: Seq<String>) -> Seq<char>
    decreases items.len(),
{
    if items.len() == 0 {
        seq![]
    } else {
        quoted_items(items.drop_last()) + " \""@ + items.last()@ + "\""@
    }
}

/// The `{ … }` args body of a filter-chain module for a graph.
pub open spec fn graph_text(g: Graph) -> Seq<char> {
    "{\n"@ + "    node.description = \""@ + g.description@ + "\"\n"@ + "    media.name = \""@
        + g.media_name@ + "\"\n"@ + "    filter.graph = {\n"@ + "        nodes = [\n"@ + nodes_text(
        g.nodes@,
    ) + "        ]\n"@ + "        links = [\n"@ + links_text(g.links@) + "        ]\n"@
        + "        inputs = ["@ + quoted_items(g.inputs@) + " ]\n"@ + "        outputs = ["@
        + quoted_items(g.outputs@) + " ]\n"@ + "    }\n"@ + "    capture.props = {\n"@
        + prefixed_lines(lines(g.capture_props@), "        "@) + "    }\n"@
        + "    playback.props = {\n"@ + prefixed_lines(lines(g.playback_props@), "        "@)
        + "    }\n"@ + "}\n"@
}

fn push_quoted_items(out: &mut Vec<char>, items: &Vec<String>)
    ensures
        final(out)@ == old(out)@ + quoted_items(items@),
{
    let ghost start = out@;
    let mut i: usize = 0;
    assert(items@.take(0) =~= Seq::<String>::empty());
    while i < items.len()
        invariant
            i <= items.len(),
            out@ == start + quoted_items(items@.take(i as int)),
        decreases items.len() - i,
    {
        extend_str(out, " \"");
        extend_str(out, items[i].as_str());
        extend_str(out, "\"");
        assert(items@.take(i + 1).drop_last() =~= items@.take(i as int));
        assert(items@.take(i + 1).last() == items@[i as int]);
        i = i + 1;
        assert(out@ =~= start + quoted_items(items@.take(i as int)));
    }
    assert(items@.take(items@.len() as int) =~= items@);
}

impl Graph {
    /// The graph as the `{ … }` args body the loader hands verbatim to
    /// `pw_context_load_module()`: no wrapper, no header, no bootstrap
    /// modules.
    pub fn render(&self, mode: RenderMode) -> (r: String)
        ensures
            r@ == graph_text(*self),
    {
        let mut out: Vec<char> = Vec::new();
        extend_str(&mut out, "{\n");
        extend_str(&mut out, "    node.description = \"");
        extend_str(&mut out, self.description.as_str());
        extend_str(&mut out, "\"\n");
        extend_str(&mut out, "    media.name = \"");
        extend_str(&mut out, self.media_name.as_str());
        extend_str(&mut out, "\"\n");
        extend_str(&mut out, "    filter.graph = {\n");
        extend_str(&mut out, "        nodes = [\n");
        let ghost start = out@;
        let mut i: usize = 0;
        assert(self.nodes@.take(0) =~= Seq::<Node>::empty());
        while i < self.nodes.len()
            invariant
                i <= self.nodes.len(),
                out@ == start + nodes_text(self.nodes@.take(i as int)),
            decreases self.nodes.len() - i,
        {
            let text = self.nodes[i].render(12);
            extend_str(&mut out, text.as_str());
            assert(self.nodes@.take(i + 1).drop_last() =~= self.nodes@.take(i as int));
            assert(self.nodes@.take(i + 1).last() == self.nodes@[i as int]);
            i = i + 1;
            assert(out@ =~= start + nodes_text(self.nodes@.take(i as int)));
        }
        assert(self.nodes@.take(self.nodes@.len() as int) =~= self.nodes@);
        extend_str(&mut out, "        ]\n");
        extend_str(&mut out, "        links = [\n");
        let ghost start2 = out@;
        let mut k: usize = 0;
        assert(self.links@.take(0) =~= Seq::<Link>::empty());
        while k < self.links.len()
            invariant
                k <= self.links.len(),
                out@ == start2 + links_text(self.links@.take(k as int)),
            decreases self.links.len() - k,
        {
            extend_str(&mut out, "            { output = \"");
            extend_str(&mut out, self.links[k].output.as_str());
            extend_str(&mut out, "\" input = \"");
            extend_str(&mut out, self.links[k].input.as_str());
            extend_str(&mut out, "\" }\n");
            assert(self.links@.take(k + 1).drop_last() =~= self.links@.take(k as int));
            assert(self.links@.take(k + 1).last() == self.links@[k as int]);
            k = k + 1;
            assert(out@ =~= start2 + links_text(self.links@.take(k as int)));
        }
        assert(self.links@.take(self.links@.len() as int) =~= self.links@);
        extend_str(&mut out, "        ]\n");
        extend_str(&mut out, "        inputs = [");
        push_quoted_items(&mut out, &self.inputs);
        extend_str(&mut out, " ]\n");
        extend_str(&mut out, "        outputs = [");
        push_quoted_items(&mut out, &self.outputs);
        extend_str(&mut out, " ]\n");
        extend_str(&mut out, "    }\n");
        let eight = to_chars("        ");
        extend_str(&mut out, "    capture.props = {\n");
        push_prefixed_lines(&mut out, self.capture_props.as_str(), &eight);
        extend_str(&mut out, "    }\n");
        extend_str(&mut out, "    playback.props = {\n");
        push_prefixed_lines(&mut out, self.playback_props.as_str(), &eight);
        extend_str(&mut out, "    }\n");
        extend_str(&mut out, "}\n");
        assert(out@ =~= graph_text(*self));
        from_chars(&out)
    }
}

} // verus!
