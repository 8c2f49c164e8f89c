//! How the nodes of the two filter chains are linked, and the fixed
//! properties of their capture and playback sides.
//!
//! Which controls each node carries, with what values, is the
//! application's part; which links and properties follow from the nodes
//! and switches is decided here.
use vstd::prelude::*;

use super::graph::{Link, Node};
use crate::config::paths::EQ_BANDS_HZ;
use crate::text::{dec, dec_v, extend, extend_str, from_chars, to_chars};

verus! {

/// A link as the two port names it joins.
pub open spec fn link_view(l: Link) -> (Seq<char>, Seq<char>) {
    (l.output@, l.input@)
}

/// The links as port-name pairs.
pub open spec fn links_view(ls: Seq<Link>) -> Seq<(Seq<char>, Seq<char>)> {
    ls.map_values(|l: Link| link_view(l))
}

/// `name:port` of a node's output.
pub open spec fn out_port(n: Node) -> Seq<char> {
    n.name@ + seq![':'] + n.output_port@
}

/// `name:port` of a node's input.
pub open spec fn in_port(n: Node) -> Seq<char> {
    n.name@ + seq![':'] + n.input_port@
}

/// One of the two stereo fan-out copies.
pub open spec fn is_copy(n: Node) -> bool {
    n.name@ == "copy_l"@ || n.name@ == "copy_r"@
}

/// The nodes of the linear part of a chain: all but the fan-out copies.
pub open spec fn linear_of(ns: Seq<Node>) -> Seq<Node>
    decreases ns.len(),
{
    if ns.len() == 0 {
        seq![]
    } else if is_copy(ns.last()) {
        linear_of(ns.drop_last())
    } else {
        linear_of(ns.drop_last()).push(ns.last())
    }
}

/// Each node of `ls` linked to the next one.
pub open spec fn pairwise(ls: Seq<Node>) -> Seq<(Seq<char>, Seq<char>)>
    decreases ls.len(),
{
    if ls.len() < 2 {
        seq![]
    } else {
        pairwise(ls.drop_last()).push((out_port(ls[ls.len() - 2]), in_port(ls.last())))
    }
}

/// The links of the microphone chain: along its linear part, then from
/// the last linear node to both copies.
pub open spec fn mic_links_spec(ns: Seq<Node>) -> Seq<(Seq<char>, Seq<char>)> {
    let l = linear_of(ns);
    if l.len() == 0 {
        seq![]
    } else {
        pairwise(l) + seq![(out_port(l.last()), "copy_l:In"@), (out_port(l.last()), "copy_r:In"@)]
    }
}

fn port_text(n: &Node, output: bool) -> (r: String)
    ensures
        output ==> r@ == out_port(*n),
        !output ==> r@ == in_port(*n),
{
    let mut v = to_chars(n.name.as_str());
    v.push(':');
    if output {
        extend_str(&mut v, n.output_port);
    } else {
        extend_str(&mut v, n.input_port);
    }
    from_chars(&v)
}

fn is_copy_v(n: &Node) -> (r: bool)
    ensures
        r == is_copy(*n),
{
    let name = to_chars(n.name.as_str());
    crate::text::eq_v(&name, &to_chars("copy_l")) || crate::text::eq_v(&name, &to_chars("copy_r"))
}

/// Link the microphone chain's nodes in order, skipping the two fan-out
/// copies, and feed both copies from the last linear node.
pub fn mic_links(nodes: &Vec<Node>) -> (r: Vec<Link>)
    ensures
        links_view(r@) == mic_links_spec(nodes@),
{
    let mut links: Vec<Link> = Vec::new();
    let mut prev: Option<usize> = None;
    let mut i: usize = 0;
    while i < nodes.len()
        invariant
            i <= nodes.len(),
            links_view(links@) == pairwise(linear_of(nodes@.take(i as int))),
            match prev {
                Some(p) => p < i && linear_of(nodes@.take(i as int)).len() > 0 && nodes@[p as int]
                    == linear_of(nodes@.take(i as int)).last(),
                None => linear_of(nodes@.take(i as int)).len() == 0,
            },
        decreases nodes.len() - i,
    {
        let ghost before = linear_of(nodes@.take(i as int));
        assert(nodes@.take(i + 1).drop_last() =~= nodes@.take(i as int));
        assert(nodes@.take(i + 1).last() == nodes@[i as int]);
        if !is_copy_v(&nodes[i]) {
            let ghost after = before.push(nodes@[i as int]);
            match prev {
                Some(p) => {
                    let link = Link { output: port_text(&nodes[p], true), input: port_text(&nodes[i], false) };
                    let ghost old_links = links@;
                    links.push(link);
                    assert(after[after.len() - 2] == before.last());
                    assert(after.drop_last() =~= before);
                    assert(links_view(links@) =~= links_view(old_links).push(link_view(link)));
                },
                None => {
                    assert(after.len() == 1);
                },
            }
            prev = Some(i);
        }
        i = i + 1;
    }
    assert(nodes@.take(nodes@.len() as int) =~= nodes@);
    match prev {
        Some(p) => {
            let out = port_text(&nodes[p], true);
            let ghost old_links = links@;
            links.push(Link { output: from_chars(&to_chars(out.as_str())), input: "copy_l:In".to_string() });
            links.push(Link { output: out, input: "copy_r:In".to_string() });
            assert(links_view(links@) =~= links_view(old_links) + seq![
                (out_port(nodes@[p as int]), "copy_l:In"@),
                (out_port(nodes@[p as int]), "copy_r:In"@),
            ]);
        },
        None => {},
    }
    links
}

/// The index of the first node named `ai`.
pub open spec fn ai_index(ns: Seq<Node>, i: int) -> Option<int>
    decreases ns.len() - i,
{
    if i < 0 || i >= ns.len() {
        None
    } else if ns[i].name@ == "ai"@ {
        Some(i)
    } else {
        ai_index(ns, i + 1)
    }
}

/// The fixed links of the output chain, through the denoiser node's own
/// port names.
pub open spec fn output_links_spec(ai: Node) -> Seq<(Seq<char>, Seq<char>)> {
    seq![
        ("mixer:Out"@, "hpf:In"@),
        ("hpf:Out"@, "ai:"@ + ai.input_port@),
        ("ai:"@ + ai.output_port@, "gate:Input"@),
        ("gate:Output"@, "compressor:Input"@),
        ("compressor:Output"@, "eq:In 1"@),
        ("eq:Out 1"@, "copy_l:In"@),
        ("eq:Out 1"@, "copy_r:In"@),
    ]
}

/// The output chain's links: mixer, high-pass, denoiser, gate, compressor,
/// equalizer, then both copies. The denoiser is the first node named `ai`,
/// whose ports depend on its plugin; `None` when there is none.
pub fn output_links(nodes: &Vec<Node>) -> (r: Option<Vec<Link>>)
    ensures
        match ai_index(nodes@, 0) {
            Some(k) => r is Some && links_view(r->0@) == output_links_spec(nodes@[k]),
            None => r is None,
        },
{
    let mut k: usize = 0;
    while k < nodes.len() && !crate::text::eq_v(&to_chars(nodes[k].name.as_str()), &to_chars("ai"))
        invariant
            k <= nodes.len(),
            ai_index(nodes@, 0) == ai_index(nodes@, k as int),
        decreases nodes.len() - k,
    {
        k = k + 1;
    }
    if k >= nodes.len() {
        return None;
    }
    let ai = &nodes[k];
    let mut ai_in = to_chars("ai:");
    extend_str(&mut ai_in, ai.input_port);
    let mut ai_out = to_chars("ai:");
    extend_str(&mut ai_out, ai.output_port);
    let mut links: Vec<Link> = Vec::new();
    links.push(Link::new("mixer:Out", "hpf:In"));
    links.push(Link { output: "hpf:Out".to_string(), input: from_chars(&ai_in) });
    links.push(Link { output: from_chars(&ai_out), input: "gate:Input".to_string() });
    links.push(Link::new("gate:Output", "compressor:Input"));
    links.push(Link::new("compressor:Output", "eq:In 1"));
    links.push(Link::new("eq:Out 1", "copy_l:In"));
    links.push(Link::new("eq:Out 1", "copy_r:In"));
    assert(links_view(links@) =~= output_links_spec(nodes@[k as int]));
    Some(links)
}

// ── Fixed properties ─────────────────────────────────────────────────

/// The microphone chain's capture properties, one per line; pinned to the
/// echo-cancelled source when echo cancellation is on.
pub open spec fn mic_capture_props_spec(echo_cancel: bool) -> Seq<char> {
    "node.name = \"mic-biglinux-capture\"\nnode.passive = true\nnode.latency = \"960/48000\"\nnode.pause-on-idle = false\nnode.lock-quantum = true\naudio.rate = 48000\naudio.position = [ MONO ]"@
        + if echo_cancel {
        "\ntarget.object = \"echo-cancel-source\""@
    } else {
        seq![]
    }
}

/// The capture properties of the microphone chain.
pub fn mic_capture_props(echo_cancel: bool) -> (r: String)
    ensures
        r@ == mic_capture_props_spec(echo_cancel),
{
    let mut v = to_chars(
        "node.name = \"mic-biglinux-capture\"\nnode.passive = true\nnode.latency = \"960/48000\"\nnode.pause-on-idle = false\nnode.lock-quantum = true\naudio.rate = 48000\naudio.position = [ MONO ]",
    );
    if echo_cancel {
        extend_str(&mut v, "\ntarget.object = \"echo-cancel-source\"");
    }
    from_chars(&v)
}

/// The playback properties of the microphone chain: the smart filter
/// recording applications read through.
pub fn mic_playback_props() -> (r: String)
    ensures
        r@ == "node.name = \"mic-biglinux\"\nnode.description = \"Filter noise\"\nmedia.class = Audio/Source\nnode.latency = \"960/48000\"\nnode.pause-on-idle = false\nnode.lock-quantum = true\naudio.rate = 48000\naudio.position = [ FL FR ]\nfilter.smart = true\nfilter.smart.name = \"big.filter-microphone\""@,
{
    "node.name = \"mic-biglinux\"\nnode.description = \"Filter noise\"\nmedia.class = Audio/Source\nnode.latency = \"960/48000\"\nnode.pause-on-idle = false\nnode.lock-quantum = true\naudio.rate = 48000\naudio.position = [ FL FR ]\nfilter.smart = true\nfilter.smart.name = \"big.filter-microphone\"".to_string()
}

/// The capture properties of the output chain: the virtual sink
/// applications write into.
pub fn output_capture_props() -> (r: String)
    ensures
        r@ == "node.name = \"output-biglinux\"\nnode.description = \"BigLinux Output Filter\"\nmedia.class = Audio/Sink\nnode.pause-on-idle = false\nnode.async = true\naudio.rate = 48000\naudio.channels = 2\naudio.position = [ FL FR ]\nfilter.smart = true\nfilter.smart.name = \"output-biglinux\""@,
{
    "node.name = \"output-biglinux\"\nnode.description = \"BigLinux Output Filter\"\nmedia.class = Audio/Sink\nnode.pause-on-idle = false\nnode.async = true\naudio.rate = 48000\naudio.channels = 2\naudio.position = [ FL FR ]\nfilter.smart = true\nfilter.smart.name = \"output-biglinux\"".to_string()
}

/// The playback properties of the output chain.
pub fn output_playback_props() -> (r: String)
    ensures
        r@ == "node.name = \"output-biglinux-out\"\nnode.passive = true\nnode.pause-on-idle = false\nnode.async = true\naudio.rate = 48000\naudio.channels = 2\naudio.position = [ FL FR ]\nstream.dont-remix = true"@,
{
    "node.name = \"output-biglinux-out\"\nnode.passive = true\nnode.pause-on-idle = false\nnode.async = true\naudio.rate = 48000\naudio.channels = 2\naudio.position = [ FL FR ]\nstream.dont-remix = true".to_string()
}

// ── The equalizer's filters ──────────────────────────────────────────

/// One `bq_peaking` filter line.
pub open spec fn eq_line(freq: u32, gain: Seq<char>) -> Seq<char> {
    "        { type = bq_peaking freq = "@ + dec(freq as nat) + " gain = "@ + gain + " q = 1.41 }\n"@
}

/// The filter lines of the first `k` bands.
pub open spec fn eq_lines(gains: Seq<String>, k: int) -> Seq<char>
    decreases k,
{
    if k <= 0 {
        seq![]
    } else {
        eq_lines(gains, k - 1) + eq_line(EQ_BANDS_HZ[k - 1], gains[k - 1]@)
    }
}

/// The `config = { … }` block of the ten-band `param_eq` node, from the
/// text of each band's gain.
pub fn eq_config(gains: &Vec<String>) -> (r: String)
    requires
        gains@.len() == 10,
    ensures
        r@ == "config = {\n    filters = [\n"@ + eq_lines(gains@, 10) + "    ]\n}"@,
{
    let mut v = to_chars("config = {\n    filters = [\n");
    let ghost start = v@;
    let mut i: usize = 0;
    while i < 10
        invariant
            i <= 10,
            gains@.len() == 10,
            v@ == start + eq_lines(gains@, i as int),
        decreases 10 - i,
    {
        extend_str(&mut v, "        { type = bq_peaking freq = ");
        extend(&mut v, &dec_v(EQ_BANDS_HZ[i] as u64));
        extend_str(&mut v, " gain = ");
        extend_str(&mut v, gains[i].as_str());
        extend_str(&mut v, " q = 1.41 }\n");
        i = i + 1;
        assert(v@ =~= start + eq_lines(gains@, i as int));
    }
    extend_str(&mut v, "    ]\n}");
    from_chars(&v)
}

} // verus!
