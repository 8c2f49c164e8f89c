use biglinux_microphone::services::pipewire::live::{parse_node_id, parse_node_state};
use biglinux_microphone::services::pipewire::sources::parse_default_source;
use biglinux_microphone::services::pipewire::default_sink::parse_default_sink;
use biglinux_microphone::services::pipewire::{
    app_stream_from_props, parse_pw_cli_nodes, parse_sources, property_value, snapshot, AppStream, Source,
    StreamDirection,
};

fn fixture_with_two_streams() -> &'static str {
    "\tid 12, type PipeWire:Interface:Node/3\n\
     \t\t  factory.id = \"9\"\n\
     \t\t  application.name = \"Firefox\"\n\
     \t\t  media.name = \"AudioStream\"\n\
     \t\t  media.class = \"Stream/Output/Audio\"\n\
     \tid 17, type PipeWire:Interface:Node/3\n\
     \t\t  application.name = \"PulseAudio Volume Control\"\n\
     \t\t  media.class = \"Stream/Input/Audio\"\n"
}

fn check_two_streams(parsed: Vec<AppStream>) {
    assert_eq!(parsed.len(), 2);

    let firefox = &parsed[0];
    assert_eq!(firefox.node_id, 12);
    assert_eq!(firefox.application_name, "Firefox");
    assert_eq!(firefox.media_name.as_deref(), Some("AudioStream"));
    assert_eq!(firefox.direction, StreamDirection::Playback);

    let pavu = &parsed[1];
    assert_eq!(pavu.node_id, 17);
    assert_eq!(pavu.direction, StreamDirection::Capture);
    assert!(pavu.media_name.is_none());
}

#[test]
fn pipewire_property_value_extracts_quoted_payload() {
    let line = "  application.name = \"Firefox\"";
    assert_eq!(
        property_value(line.trim_start(), "application.name"),
        Some("Firefox".to_owned())
    );
}

#[test]
fn pipewire_property_value_returns_none_on_unquoted_payload() {
    let line = "application.name = Firefox";
    assert_eq!(property_value(line, "application.name"), None);
}

#[test]
fn pipewire_property_value_returns_none_when_key_does_not_match() {
    let line = "media.name = \"x\"";
    assert_eq!(property_value(line, "application.name"), None);
}

#[test]
fn mod_property_value_extracts_quoted_payload() {
    let line = "  application.name = \"Firefox\"";
    assert_eq!(
        property_value(line.trim_start(), "application.name"),
        Some("Firefox".to_owned())
    );
}

#[test]
fn mod_property_value_returns_none_on_unquoted_payload() {
    let line = "application.name = Firefox";
    assert_eq!(property_value(line, "application.name"), None);
}

#[test]
fn mod_property_value_returns_none_when_key_does_not_match() {
    let line = "media.name = \"x\"";
    assert_eq!(property_value(line, "application.name"), None);
}

#[test]
fn parse_pw_cli_nodes_emits_one_entry_per_stream_node() {
    check_two_streams(parse_pw_cli_nodes(fixture_with_two_streams()));
}

#[test]
fn parse_pw_cli_nodes_emits_one_entry_per_stream_object() {
    check_two_streams(parse_pw_cli_nodes(fixture_with_two_streams()));
}

#[test]
fn pipewire_parse_pw_cli_nodes_skips_objects_without_stream_media_class() {
    let stdout = "\tid 5, type PipeWire:Interface:Node/3\n\
                  \t\t  application.name = \"alsa\"\n\
                  \t\t  media.class = \"Audio/Sink\"\n";
    assert!(parse_pw_cli_nodes(stdout).is_empty());
}

#[test]
fn mod_parse_pw_cli_nodes_skips_objects_without_stream_media_class() {
    let stdout = "\tid 5, type PipeWire:Interface:Node/3\n\
                  \t\t  application.name = \"alsa\"\n\
                  \t\t  media.class = \"Audio/Sink\"\n";
    assert!(parse_pw_cli_nodes(stdout).is_empty());
}

#[test]
fn pipewire_parse_pw_cli_nodes_handles_empty_input() {
    assert!(parse_pw_cli_nodes("").is_empty());
}

#[test]
fn mod_parse_pw_cli_nodes_handles_empty_input() {
    assert!(parse_pw_cli_nodes("").is_empty());
}

#[test]
fn pipewire_parse_pw_cli_nodes_recovers_after_garbled_id_line() {
    let stdout = "\tid not-a-number, type X\n\
                  \tid 21, type PipeWire:Interface:Node/3\n\
                  \t\t  application.name = \"OK\"\n\
                  \t\t  media.class = \"Stream/Output/Audio\"\n";
    let parsed = parse_pw_cli_nodes(stdout);
    assert_eq!(parsed.len(), 1);
    assert_eq!(parsed[0].node_id, 21);
}

#[test]
fn mod_parse_pw_cli_nodes_recovers_after_garbled_id_line() {
    let stdout = "\tid not-a-number, type X\n\
                  \tid 21, type PipeWire:Interface:Node/3\n\
                  \t\t  application.name = \"OK\"\n\
                  \t\t  media.class = \"Stream/Output/Audio\"\n";
    let parsed = parse_pw_cli_nodes(stdout);
    assert_eq!(parsed.len(), 1);
    assert_eq!(parsed[0].node_id, 21);
}

#[test]
fn stream_direction_parses_playback_and_capture() {
    assert_eq!(
        StreamDirection::from_media_class("Stream/Output/Audio"),
        Some(StreamDirection::Playback)
    );
    assert_eq!(
        StreamDirection::from_media_class("Stream/Input/Audio"),
        Some(StreamDirection::Capture)
    );
}

#[test]
fn stream_direction_rejects_non_stream_classes() {
    assert_eq!(StreamDirection::from_media_class("Audio/Sink"), None);
    assert_eq!(StreamDirection::from_media_class("Audio/Source"), None);
    assert_eq!(StreamDirection::from_media_class(""), None);
}

#[test]
fn is_routable_output_requires_playback_and_name() {
    let base = AppStream {
        node_id: 1,
        application_name: "Firefox".into(),
        media_name: None,
        direction: StreamDirection::Playback,
    };
    assert!(base.is_routable_output());

    let capture = AppStream {
        direction: StreamDirection::Capture,
        ..base.clone()
    };
    assert!(!capture.is_routable_output());

    let unnamed = AppStream {
        application_name: String::new(),
        ..base
    };
    assert!(!unnamed.is_routable_output());
}

#[test]
fn directions_are_symmetric_with_classifier() {
    assert_eq!(
        StreamDirection::from_media_class("Stream/Output/Audio"),
        Some(StreamDirection::Playback)
    );
    assert_eq!(
        StreamDirection::from_media_class("Stream/Input/Audio"),
        Some(StreamDirection::Capture)
    );
}

#[test]
fn app_stream_rejects_unnamed_playback_from_routing() {
    let s = AppStream {
        node_id: 42,
        application_name: String::new(),
        media_name: None,
        direction: StreamDirection::Playback,
    };
    assert!(!s.is_routable_output());
}

fn sources_fixture() -> &'static str {
    "\tid 67, type PipeWire:Interface:Node/3\n\
     \t\tnode.name = \"alsa_input.lenovo\"\n\
     \t\tnode.description = \"Lenovo FHD Webcam Audio\"\n\
     \t\tmedia.class = \"Audio/Source\"\n\
     \tid 72, type PipeWire:Interface:Node/3\n\
     \t\tnode.name = \"alsa_input.usb-AKG\"\n\
     \t\tnode.description = \"AKG C44-USB Microphone\"\n\
     \t\tnode.nick = \"AKG C44\"\n\
     \t\tmedia.class = \"Audio/Source\"\n\
     \tid 88, type PipeWire:Interface:Node/3\n\
     \t\tnode.name = \"mic-biglinux\"\n\
     \t\tmedia.class = \"Audio/Source\"\n\
     \tid 89, type PipeWire:Interface:Node/3\n\
     \t\tnode.name = \"echo-cancel-source\"\n\
     \t\tmedia.class = \"Audio/Source\"\n\
     \tid 94, type PipeWire:Interface:Node/3\n\
     \t\tnode.name = \"input.pw-loopback-1\"\n\
     \t\tmedia.class = \"Audio/Source\"\n\
     \tid 74, type PipeWire:Interface:Node/3\n\
     \t\tnode.name = \"alsa_output.pch\"\n\
     \t\tmedia.class = \"Audio/Sink\"\n"
}

#[test]
fn parse_sources_keeps_only_real_audio_sources() {
    let parsed = parse_sources(sources_fixture());
    let names: Vec<_> = parsed.iter().map(|s| s.node_name.as_str()).collect();
    assert_eq!(names, ["alsa_input.lenovo", "alsa_input.usb-AKG"]);
}

#[test]
fn parse_sources_prefers_description_over_nick_over_name() {
    let parsed = parse_sources(sources_fixture());
    assert_eq!(parsed[0].description, "Lenovo FHD Webcam Audio");
    assert_eq!(parsed[1].description, "AKG C44-USB Microphone");
}

#[test]
fn parse_sources_falls_back_to_nick_when_description_missing() {
    let stdout = "\tid 5, type PipeWire:Interface:Node\n\
                  \t\tnode.name = \"alsa_input.x\"\n\
                  \t\tnode.nick = \"Webcam\"\n\
                  \t\tmedia.class = \"Audio/Source\"\n";
    let parsed = parse_sources(stdout);
    assert_eq!(parsed.len(), 1);
    assert_eq!(parsed[0].description, "Webcam");
}

#[test]
fn parse_sources_falls_back_to_node_name_when_both_missing() {
    let stdout = "\tid 5, type PipeWire:Interface:Node\n\
                  \t\tnode.name = \"alsa_input.x\"\n\
                  \t\tmedia.class = \"Audio/Source\"\n";
    let parsed = parse_sources(stdout);
    assert_eq!(parsed[0].description, "alsa_input.x");
}

#[test]
fn parse_sources_skips_object_without_node_name() {
    let stdout = "\tid 5, type PipeWire:Interface:Node\n\
                  \t\tmedia.class = \"Audio/Source\"\n";
    assert!(parse_sources(stdout).is_empty());
}

#[test]
fn parse_default_source_extracts_name_field() {
    let stdout = "Found \"settings\" metadata 30\nupdate: id:0 \
                  key:'default.audio.source' value:'{ \"name\": \
                  \"alsa_input.usb-AKG\" }' type:'Spa:String:JSON'\n";
    assert_eq!(
        parse_default_source(stdout),
        Some("alsa_input.usb-AKG".into())
    );
}

#[test]
fn parse_default_source_handles_missing_value() {
    assert_eq!(parse_default_source("nothing here"), None);
}

#[test]
fn parse_default_sink_extracts_name_field() {
    let stdout = "Found \"settings\" metadata 30\nupdate: id:0 \
                  key:'default.audio.sink' value:'{ \"name\": \
                  \"alsa_output.pci-0000_00_1f.3.analog-stereo\" }' \
                  type:'Spa:String:JSON'\n";
    assert_eq!(
        parse_default_sink(stdout),
        Some("alsa_output.pci-0000_00_1f.3.analog-stereo".into())
    );
}

#[test]
fn parse_default_sink_handles_missing_value() {
    assert_eq!(parse_default_sink("nothing here"), None);
}

#[test]
fn parse_node_id_extracts_correct_id() {
    let stdout = "\t\tid 12, type PipeWire:Interface:Node/3\n\
                  \t\t\tfactory.id = \"9\"\n\
                  \t\t\tnode.name = \"alsa_input.usb\"\n\
                  \t\tid 42, type PipeWire:Interface:Node/3\n\
                  \t\t\tnode.name = \"mic-biglinux\"\n\
                  \t\t\tmedia.class = \"Audio/Source\"\n";
    assert_eq!(parse_node_id(stdout, "mic-biglinux"), Some(42));
    assert_eq!(parse_node_id(stdout, "alsa_input.usb"), Some(12));
    assert_eq!(parse_node_id(stdout, "does-not-exist"), None);
}

#[test]
fn parse_node_id_handles_empty_output() {
    assert_eq!(parse_node_id("", "mic-biglinux"), None);
}

#[test]
fn parse_node_state_reads_the_starred_state_line() {
    let stdout = "\tid: 79\n\
                  \tpermissions: rwxm-\n\
                  \ttype: PipeWire:Interface:Node/3\n\
                  *\tinput ports: 1/129\n\
                  *\tstate: \"running\"\n";
    assert_eq!(parse_node_state(stdout), Some("running".to_owned()));

    let suspended = "*\tstate: \"suspended\"\n";
    assert_eq!(parse_node_state(suspended), Some("suspended".to_owned()));
}

#[test]
fn parse_node_state_handles_output_without_a_state_line() {
    assert_eq!(parse_node_state(""), None);
    assert_eq!(parse_node_state("\tid: 79\n\tpermissions: rwxm-\n"), None);
}

#[test]
fn snapshot_finds_the_default_source_by_name() {
    let sources = parse_sources(sources_fixture());
    let (all, default_id) = snapshot(sources, Some("alsa_input.usb-AKG".to_owned()));
    assert_eq!(all.len(), 2);
    assert_eq!(default_id, Some(72));
    let (_, none) = snapshot(all, Some("mic-biglinux".to_owned()));
    assert_eq!(none, None);
    let unknown: Vec<Source> = Vec::new();
    assert_eq!(snapshot(unknown, None).1, None);
}

#[test]
fn node_properties_become_a_stream_only_for_stream_classes() {
    let s = app_stream_from_props(42, Some("Stream/Output/Audio"), Some("Firefox"), Some("Video")).unwrap();
    assert_eq!(s.node_id, 42);
    assert_eq!(s.application_name, "Firefox");
    assert_eq!(s.media_name.as_deref(), Some("Video"));
    assert_eq!(s.direction, StreamDirection::Playback);
    assert!(s.is_routable_output());

    let unnamed = app_stream_from_props(7, Some("Stream/Input/Audio"), None, None).unwrap();
    assert_eq!(unnamed.application_name, "");
    assert_eq!(unnamed.direction, StreamDirection::Capture);
    assert!(!unnamed.is_routable_output());

    assert!(app_stream_from_props(1, Some("Audio/Sink"), Some("x"), None).is_none());
    assert!(app_stream_from_props(1, None, Some("x"), None).is_none());
}

#[test]
fn a_listing_is_read_object_by_object() {
    let first = "\tid 12, type PipeWire:Interface:Node/3\n\t\tapplication.name = \"A\"\n\t\tmedia.class = \"Stream/Output/Audio\"\n";
    let second = "\tid 13, type PipeWire:Interface:Node/3\n\t\tmedia.class = \"Stream/Input/Audio\"\n";
    let both = format!("{first}{second}");
    let mut apart = parse_pw_cli_nodes(first);
    apart.extend(parse_pw_cli_nodes(second));
    assert_eq!(parse_pw_cli_nodes(&both), apart);
    assert_eq!(apart.len(), 2);
    assert_eq!(apart[1].application_name, "");
    assert!(parse_pw_cli_nodes("\t\tmedia.class = \"Stream/Output/Audio\"\n").is_empty());
}
