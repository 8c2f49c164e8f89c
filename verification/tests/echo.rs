use biglinux_microphone::config::{EchoCancelConfig, EchoMode};
use biglinux_microphone::services::echo::{
    decision_from_graph, microphone_can_hear_it, settle, DeviceRef, JsonText, MetadataItem,
    RouteDirection, RouteEntry, RouteObject, RouteWatch,
};

fn object(id: u64) -> RouteObject {
    RouteObject {
        id: Some(id),
        removed: false,
        metadata: None,
        node_name: JsonText::Absent,
        device_id: DeviceRef::Other,
        form_factor: None,
        form_factor_alt: None,
        port_name: None,
        routes: None,
    }
}

fn default_sink_metadata(id: u64, sink: &str) -> RouteObject {
    RouteObject {
        metadata: Some(vec![MetadataItem {
            key: Some("default.audio.sink".to_string()),
            name: Some(JsonText::Text(sink.to_string())),
        }]),
        ..object(id)
    }
}

fn sink_node(id: u64, name: &str, device: u64) -> RouteObject {
    RouteObject {
        node_name: JsonText::Text(name.to_string()),
        device_id: DeviceRef::Number(device),
        ..object(id)
    }
}

fn device(id: u64, route: &str) -> RouteObject {
    RouteObject {
        routes: Some(vec![RouteEntry {
            direction: RouteDirection::Text("Output".to_string()),
            name: Some(route.to_string()),
        }]),
        ..object(id)
    }
}

#[test]
fn speakers_headphones_and_explicit_modes() {
    assert!(microphone_can_hear_it(None, None));
    assert!(microphone_can_hear_it(Some("speaker"), None));
    assert!(!microphone_can_hear_it(Some("headset"), None));
    assert!(!microphone_can_hear_it(
        None,
        Some("analog-output-headphones")
    ));
    let mut config = EchoCancelConfig {
        enabled: false,
        mode: EchoMode::Always,
    };
    settle(&mut config, None);
    assert!(config.enabled);
    config.mode = EchoMode::Never;
    settle(&mut config, Some(true));
    assert!(!config.enabled);
}

#[test]
fn automatic_mode_follows_the_route_and_keeps_its_state_without_one() {
    let mut config = EchoCancelConfig {
        enabled: true,
        mode: EchoMode::Automatic,
    };
    settle(&mut config, None);
    assert!(config.enabled);
    settle(&mut config, Some(false));
    assert!(!config.enabled);
    assert!(!microphone_can_hear_it(None, Some("Analog-Output-HEADSET")));
}

#[test]
fn default_metadata_resolves_active_hardware_route() {
    let mut graph = vec![
        default_sink_metadata(1, "test-sink"),
        sink_node(2, "test-sink", 3),
        device(3, "analog-output-headphones"),
    ];
    assert_eq!(decision_from_graph(&graph), Some(false));
    graph[2] = device(3, "analog-output-speaker");
    assert_eq!(decision_from_graph(&graph), Some(true));
    assert_eq!(decision_from_graph(&Vec::new()), None);
}

#[test]
fn the_form_factor_decides_before_the_route() {
    let mut node = sink_node(2, "test-sink", 3);
    node.form_factor_alt = Some("headphone".to_string());
    let graph = vec![
        default_sink_metadata(1, "test-sink"),
        node,
        device(3, "analog-output-speaker"),
    ];
    assert_eq!(decision_from_graph(&graph), Some(false));
}

#[test]
fn route_watch_folds_deltas_and_only_speaks_up_on_a_change() {
    let mut watch = RouteWatch::new();
    let full = vec![
        default_sink_metadata(1, "test-sink"),
        sink_node(2, "test-sink", 3),
        device(3, "analog-output-speaker"),
    ];
    assert_eq!(
        watch.absorb(full),
        Some(true),
        "the first decision is always new"
    );

    // An unrelated object appearing must not re-report the same answer.
    let mut dump = object(249);
    dump.node_name = JsonText::Text("pw-dump".to_string());
    assert_eq!(watch.absorb(vec![dump]), None);

    // Objects with no `info` key at all are ordinary graph members.
    assert_eq!(
        watch.absorb(vec![default_sink_metadata(1, "test-sink")]),
        None,
        "re-reporting the same sink must not drop it from the view"
    );

    // Headphones plugged in: one delta on the device flips the answer.
    assert_eq!(
        watch.absorb(vec![device(3, "analog-output-headphones")]),
        Some(false)
    );

    // `info: null` is how the monitor reports a removal.
    let removed = RouteObject {
        removed: true,
        ..object(2)
    };
    assert_eq!(watch.absorb(vec![removed]), None);
    assert_eq!(watch.objects.len(), 3);
    assert_eq!(
        watch.objects.iter().map(|o| o.id).collect::<Vec<_>>(),
        vec![Some(1), Some(3), Some(249)]
    );
}
