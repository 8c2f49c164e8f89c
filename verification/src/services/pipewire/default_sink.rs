//! The default audio sink, as `pw-metadata 0 default.audio.sink` reports it.
use vstd::prelude::*;

use super::sources::{metadata_name, metadata_name_v};

verus! {

/// The `node.name` of the default sink in `pw-metadata` output, or `None`
/// when the metadata holds no such value.
pub fn parse_default_sink(stdout: &str) -> (r: Option<String>)
    ensures
        r.deep_view() == metadata_name(stdout@),
{
    metadata_name_v(stdout)
}

} // verus!
