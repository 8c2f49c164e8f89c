//! Reading the live state of the filter-chain nodes.
//!
//! Control values are pushed to a running node with `pw-cli s <id> Props`.
//! A node that never had a consumer sits `suspended` and silently drops
//! such a push, so only a node that is present and not suspended counts as
//! live; otherwise the caller restarts the loader, which re-reads the args
//! file.
use vstd::prelude::*;

use super::{header_id, header_id_v};
use crate::services::reconcile::Observed;
use crate::text::{
    contains, contains_v, extend, extend_str, from_chars, lines, lines_view, str_lines, strip_prefix,
    strip_prefix_v, to_chars, trim, trim_set, trim_set_v, trim_start, trim_start_set,
    trim_start_set_v, trim_start_v, trim_v,
};

verus! {

/// Which chains took a live control update.
#[derive(Debug, Clone, Copy, Default, PartialEq, Eq, Structural)]
pub struct LiveOutcome {
    pub mic_pushed: bool,
    pub output_pushed: bool,
}

impl LiveOutcome {
    /// Every chain that should be running received its update.
    pub fn fully_applied(self, wanted: Observed) -> (r: bool)
        ensures
            r == ((!wanted.mic_present || self.mic_pushed) && (!wanted.output_present
                || self.output_pushed)),
    {
        (!wanted.mic_present || self.mic_pushed) && (!wanted.output_present || self.output_pushed)
    }
}

/// The state a `pw-cli info` line reports, if it is the state line: the
/// line is `*\tstate: "running"`, with `*` marking a changed field.
pub open spec fn state_of_line(line: Seq<char>) -> Option<Seq<char>> {
    match strip_prefix(trim_start_set(line, seq!['*', ' ', '\t']), "state: "@) {
        Some(st) => Some(trim_set(trim(st), seq!['"'])),
        None => None,
    }
}

/// The state of the first state line among `ls`.
pub open spec fn first_state(ls: Seq<Seq<char>>) -> Option<Seq<char>>
    decreases ls.len(),
{
    if ls.len() == 0 {
        None
    } else {
        match state_of_line(ls[0]) {
            Some(st) => Some(st),
            None => first_state(ls.drop_first()),
        }
    }
}

/// The node state (`suspended`, `idle`, `running`) in `pw-cli info` output.
pub fn parse_node_state(stdout: &str) -> (r: Option<String>)
    ensures
        r.deep_view() == first_state(lines(stdout@)),
{
    let ls = str_lines(stdout);
    let mut set: Vec<char> = Vec::new();
    set.push('*');
    set.push(' ');
    set.push('\t');
    let mut quote: Vec<char> = Vec::new();
    quote.push('"');
    let prefix = to_chars("state: ");
    assert(set@ =~= seq!['*', ' ', '\t']);
    assert(quote@ =~= seq!['"']);
    let mut i: usize = 0;
    assert(lines_view(ls@).skip(0) =~= lines_view(ls@));
    while i < ls.len()
        invariant
            i <= ls.len(),
            set@ == seq!['*', ' ', '\t'],
            quote@ == seq!['"'],
            prefix@ == "state: "@,
            first_state(lines(stdout@)) == first_state(lines_view(ls@).skip(i as int)),
            lines_view(ls@) == lines(stdout@),
        decreases ls.len() - i,
    {
        let ghost rest = lines_view(ls@).skip(i as int);
        assert(rest.drop_first() =~= lines_view(ls@).skip(i + 1));
        assert(rest[0] == ls@[i as int]@);
        let t = trim_start_set_v(&ls[i], &set);
        if let Some(st) = strip_prefix_v(&t, &prefix) {
            let state = trim_set_v(&trim_v(&st), &quote);
            return Some(from_chars(&state));
        }
        i = i + 1;
    }
    None
}

/// The id of the object whose `node.name` line is `needle`, following the
/// most recent `id` header before it.
pub open spec fn node_id_from(ls: Seq<Seq<char>>, current: Option<u32>, needle: Seq<char>) -> Option<
    u32,
>
    decreases ls.len(),
{
    if ls.len() == 0 {
        None
    } else {
        let t = trim_start(ls[0]);
        match strip_prefix(t, "id "@) {
            Some(rest) => node_id_from(ls.drop_first(), header_id(rest), needle),
            None => if contains(t, needle) {
                current
            } else {
                node_id_from(ls.drop_first(), current, needle)
            },
        }
    }
}

/// The property line naming a node: `node.name = "<name>"`.
pub open spec fn node_name_line(node_name: Seq<char>) -> Seq<char> {
    "node.name = \""@ + node_name + "\""@
}

/// The id of the node called `node_name` in `pw-cli ls Node` output, or
/// `None` when no such node is listed.
pub fn parse_node_id(stdout: &str, node_name: &str) -> (r: Option<u32>)
    ensures
        r == node_id_from(lines(stdout@), None, node_name_line(node_name@)),
{
    let ls = str_lines(stdout);
    let mut needle = to_chars("node.name = \"");
    extend_str(&mut needle, node_name);
    extend_str(&mut needle, "\"");
    let prefix = to_chars("id ");
    let mut current: Option<u32> = None;
    let mut i: usize = 0;
    assert(lines_view(ls@).skip(0) =~= lines_view(ls@));
    while i < ls.len()
        invariant
            i <= ls.len(),
            prefix@ == "id "@,
            needle@ == node_name_line(node_name@),
            lines_view(ls@) == lines(stdout@),
            node_id_from(lines(stdout@), None, needle@) == node_id_from(
                lines_view(ls@).skip(i as int),
                current,
                needle@,
            ),
        decreases ls.len() - i,
    {
        let ghost rest = lines_view(ls@).skip(i as int);
        assert(rest.drop_first() =~= lines_view(ls@).skip(i + 1));
        assert(rest[0] == ls@[i as int]@);
        let t = trim_start_v(&ls[i]);
        match strip_prefix_v(&t, &prefix) {
            Some(r) => {
                current = header_id_v(&r);
            },
            None => {
                if contains_v(&t, &needle) {
                    return current;
                }
            },
        }
        i = i + 1;
    }
    None
}

} // verus!
