//! Plain data describing application streams seen in the PipeWire graph.
use vstd::prelude::*;

use crate::text::{to_chars, eq_v};

verus! {

/// Direction of an [`AppStream`], mirroring the `media.class` of the node.
#[derive(Debug, Clone, Copy, PartialEq, Eq, Structural)]
pub enum StreamDirection {
    /// `media.class = Stream/Output/Audio`: the app produces audio.
    Playback,
    /// `media.class = Stream/Input/Audio`: the app records.
    Capture,
}

/// The direction a `media.class` names, if it names a stream.
pub open spec fn direction_of(media_class: Seq<char>) -> Option<StreamDirection> {
    if media_class == "Stream/Output/Audio"@ {
        Some(StreamDirection::Playback)
    } else if media_class == "Stream/Input/Audio"@ {
        Some(StreamDirection::Capture)
    } else {
        None
    }
}

impl StreamDirection {
    /// Parse from the `media.class` property. Non-stream classes (devices,
    /// virtual sinks, sources themselves) give `None`.
    pub fn from_media_class(media_class: &str) -> (r: Option<Self>)
        ensures
            r == direction_of(media_class@),
    {
        let v = to_chars(media_class);
        direction_of_v(&v)
    }
}

/// [`StreamDirection::from_media_class`] on characters.
pub fn direction_of_v(v: &Vec<char>) -> (r: Option<StreamDirection>)
    ensures
        r == direction_of(v@),
{
    if eq_v(v, &to_chars("Stream/Output/Audio")) {
        Some(StreamDirection::Playback)
    } else if eq_v(v, &to_chars("Stream/Input/Audio")) {
        Some(StreamDirection::Capture)
    } else {
        None
    }
}

/// An application stream discovered in the PipeWire graph.
#[derive(Debug, Clone, PartialEq, Eq)]
pub struct AppStream {
    pub node_id: u32,
    /// `application.name`, the key WirePlumber rules match on.
    pub application_name: String,
    /// `media.name`, the title mixers show, when the stream has one.
    pub media_name: Option<String>,
    pub direction: StreamDirection,
}

/// What an [`AppStream`] holds, as mathematical values.
pub struct AppStreamView {
    pub node_id: u32,
    pub application_name: Seq<char>,
    pub media_name: Option<Seq<char>>,
    pub direction: StreamDirection,
}

impl View for AppStream {
    type V = AppStreamView;

    open spec fn view(&self) -> AppStreamView {
        AppStreamView {
            node_id: self.node_id,
            application_name: self.application_name@,
            media_name: self.media_name.deep_view(),
            direction: self.direction,
        }
    }
}

/// The views of a list of streams.
pub open spec fn streams_view(s: Seq<AppStream>) -> Seq<AppStreamView> {
    s.map_values(|a: AppStream| a@)
}

impl AppStream {
    /// Only playback streams with a readable application name can be routed.
    pub fn is_routable_output(&self) -> (r: bool)
        ensures
            r == (self.direction == StreamDirection::Playback && self.application_name@.len() > 0),
    {
        let playback = match self.direction {
            StreamDirection::Playback => true,
            StreamDirection::Capture => false,
        };
        playback && !self.application_name.as_str().is_empty()
    }
}

/// The stream a node's properties describe: its `media.class` must name a
/// stream direction; a missing `application.name` becomes the empty name,
/// which [`AppStream::is_routable_output`] then refuses.
pub fn app_stream_from_props(
    node_id: u32,
    media_class: Option<&str>,
    application_name: Option<&str>,
    media_name: Option<&str>,
) -> (r: Option<AppStream>)
    ensures
        match r {
            None => media_class is None || direction_of(media_class->0@) is None,
            Some(a) => media_class is Some && direction_of(media_class->0@) == Some(a.direction)
                && a.node_id == node_id && a.application_name@ == (match application_name {
                Some(n) => n@,
                None => Seq::<char>::empty(),
            }) && a.media_name.deep_view() == (match media_name {
                Some(m) => Some(m@),
                None => None::<Seq<char>>,
            }),
        },
{
    let class = match media_class {
        Some(c) => c,
        None => return None,
    };
    let direction = match StreamDirection::from_media_class(class) {
        Some(d) => d,
        None => return None,
    };
    let application_name = match application_name {
        Some(n) => n.to_string(),
        None => String::new(),
    };
    let media_name = match media_name {
        Some(m) => Some(m.to_string()),
        None => None,
    };
    Some(AppStream { node_id, application_name, media_name, direction })
}

/// Commands the consumer sends into the PipeWire worker.
#[derive(Debug, Clone)]
pub enum Command {
    /// Shut the main loop down; the worker exits after pending events.
    Shutdown,
}

} // verus!
