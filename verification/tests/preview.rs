use biglinux_microphone::services::preview::{
    completion_status, is_preview_quantum, preview_frames, quantum_from_graph, set_quantum_args,
    MetaValue, MetadataEntry, MetadataObject, PreviewError, RestoreEvent, RestoreFailure,
    RestoreStep, Restoration, RESTORE_ATTEMPTS,
};

/// Drive a restoration with a read and a write function, as the child does;
/// returns the outcome and the number of pauses taken.
fn restore_with(
    previous: u32,
    temporary: u32,
    mut read: impl FnMut() -> Result<u32, String>,
    mut write: impl FnMut(u32) -> Result<(), String>,
) -> (Result<(), String>, usize) {
    let mut r = Restoration::new(previous, temporary);
    let mut pauses = 0;
    let mut last_error = String::new();
    loop {
        let event = match r.step() {
            RestoreStep::Read => match read() {
                Ok(v) => RestoreEvent::Value(v),
                Err(e) => {
                    last_error = e;
                    RestoreEvent::ReadFailed
                }
            },
            RestoreStep::Write(v) => match write(v) {
                Ok(()) => RestoreEvent::Written,
                Err(e) => {
                    last_error = e;
                    RestoreEvent::WriteFailed
                }
            },
            RestoreStep::Pause(ms) => {
                assert_eq!(ms, 150);
                pauses += 1;
                RestoreEvent::Paused
            }
            RestoreStep::Restored => return (Ok(()), pauses),
            RestoreStep::Failed(RestoreFailure::StillTemporary) => {
                return (
                    Err(RestoreFailure::StillTemporary.message().to_string()),
                    pauses,
                )
            }
            RestoreStep::Failed(_) => return (Err(last_error), pauses),
        };
        r.advance(event);
    }
}

#[test]
fn transient_read_failure_does_not_abandon_the_override() {
    let mut value = 256;
    let mut reads = 0;
    let value_ref = std::cell::Cell::new(value);
    let (result, _) = restore_with(
        1024,
        256,
        || {
            reads += 1;
            if reads == 1 {
                Err("temporarily unavailable".to_string())
            } else {
                Ok(value_ref.get())
            }
        },
        |v| {
            value_ref.set(v);
            Ok(())
        },
    );
    result.unwrap();
    value = value_ref.get();
    assert_eq!(value, 1024);
}

#[test]
fn another_app_override_is_never_replaced_during_retry() {
    let mut reads = 0;
    let (result, _) = restore_with(
        1024,
        256,
        || {
            reads += 1;
            if reads == 1 {
                Err("busy".to_string())
            } else {
                Ok(512)
            }
        },
        |_| panic!("external override must be preserved"),
    );
    result.unwrap();
}

#[test]
fn failed_write_is_retried_and_read_back() {
    let value = std::cell::Cell::new(256);
    let writes = std::cell::Cell::new(0);
    let (result, _) = restore_with(
        1024,
        256,
        || Ok(value.get()),
        |v| {
            writes.set(writes.get() + 1);
            if writes.get() == 1 {
                Err("temporary write failure".to_string())
            } else {
                value.set(v);
                Ok(())
            }
        },
    );
    result.unwrap();
    assert_eq!(writes.get(), 2);
    assert_eq!(value.get(), 1024);
}

#[test]
fn persistent_failure_is_bounded_and_remains_an_error() {
    let mut reads = 0;
    let (result, pauses) = restore_with(
        1024,
        256,
        || {
            reads += 1;
            Err("unavailable".to_string())
        },
        |_| Ok(()),
    );
    assert!(result.is_err());
    assert_eq!(reads, RESTORE_ATTEMPTS);
    assert_eq!(pauses, RESTORE_ATTEMPTS - 1);
    assert!(completion_status(false).is_err());
    assert!(completion_status(true).is_ok());
}

#[test]
fn a_value_that_stays_temporary_after_the_write_is_an_error() {
    let (result, pauses) = restore_with(1024, 256, || Ok(256), |_| Ok(()));
    assert_eq!(
        result,
        Err("temporary audio buffer is still active".to_string())
    );
    assert_eq!(pauses, 2);
    assert_eq!(
        completion_status(false),
        Err(PreviewError::RestorationFailed)
    );
}

fn settings(entries: Option<Vec<MetadataEntry>>) -> MetadataObject {
    MetadataObject {
        kind: "PipeWire:Interface:Metadata".to_string(),
        props_name: Some("settings".to_string()),
        info_props_name: None,
        entries,
    }
}

#[test]
fn absent_override_means_release_not_a_guessed_distribution_default() {
    let graph = vec![settings(Some(Vec::new()))];
    assert_eq!(quantum_from_graph(&graph), Some(0));
    assert_eq!(quantum_from_graph(&Vec::new()), None);
}

#[test]
fn previous_explicit_override_is_preserved() {
    let graph = vec![settings(Some(vec![MetadataEntry {
        key: Some("clock.force-quantum".to_string()),
        value: MetaValue::Text("512".to_string()),
    }]))];
    assert_eq!(quantum_from_graph(&graph), Some(512));
}

#[test]
fn a_numeric_override_and_the_info_props_name_are_read_too() {
    let graph = vec![
        MetadataObject {
            kind: "PipeWire:Interface:Node".to_string(),
            props_name: Some("settings".to_string()),
            info_props_name: None,
            entries: None,
        },
        MetadataObject {
            kind: "PipeWire:Interface:Metadata".to_string(),
            props_name: None,
            info_props_name: Some("settings".to_string()),
            entries: Some(vec![
                MetadataEntry {
                    key: Some("clock.rate".to_string()),
                    value: MetaValue::Unsigned(48000),
                },
                MetadataEntry {
                    key: Some("clock.force-quantum".to_string()),
                    value: MetaValue::Unsigned(1024),
                },
            ]),
        },
    ];
    assert_eq!(quantum_from_graph(&graph), Some(1024));
    let too_big = vec![settings(Some(vec![MetadataEntry {
        key: Some("clock.force-quantum".to_string()),
        value: MetaValue::Unsigned(1 << 40),
    }]))];
    assert_eq!(quantum_from_graph(&too_big), None);
    assert_eq!(quantum_from_graph(&vec![settings(None)]), None);
}

#[test]
fn only_the_listed_quanta_can_be_previewed() {
    assert!(is_preview_quantum(0));
    assert!(is_preview_quantum(1024));
    assert!(!is_preview_quantum(1000));
    assert_eq!(preview_frames(Some("2048")), Some(2048));
    assert_eq!(preview_frames(Some("100")), None);
    assert_eq!(preview_frames(Some("x")), None);
    assert_eq!(preview_frames(None), None);
    assert_eq!(
        PreviewError::Unsupported.message(),
        "unsupported preview quantum"
    );
}

#[test]
fn the_quantum_is_set_in_the_settings_metadata() {
    assert_eq!(
        set_quantum_args(512),
        vec!["-n", "settings", "0", "clock.force-quantum", "512"]
    );
}
