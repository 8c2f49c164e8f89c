use biglinux_microphone::services::pipewire::user_tweaks::transaction::{
    optional_bytes, TuningConflict, TuningRevision, TuningWrite,
};
use biglinux_microphone::services::pipewire::user_tweaks::UserTweaks;

/// Two drop-ins held in memory, written the way the application writes
/// them: a blank body removes the file.
#[derive(Default)]
struct Disk {
    files: [Option<Vec<u8>>; 2],
    writes: usize,
}

impl Disk {
    fn revision(&self) -> TuningRevision {
        TuningRevision {
            pipewire: self.files[0].clone(),
            wireplumber: self.files[1].clone(),
        }
    }

    fn write_or_remove(&mut self, i: usize, body: &str) {
        self.writes += 1;
        self.files[i] = if body.trim().is_empty() {
            None
        } else {
            Some(body.as_bytes().to_vec())
        };
    }
}

/// Write `desired` where `expected` is believed to be on disk; a write to
/// `failing` fails (after the file was renamed into place when `renamed`).
fn write_at(
    desired: &TuningRevision,
    expected: &TuningRevision,
    disk: &mut Disk,
    failing: Option<usize>,
    renamed: bool,
) -> Result<TuningRevision, Option<TuningRevision>> {
    let observed = disk.revision();
    let mut run = match TuningWrite::begin(desired.clone(), expected, &observed) {
        Ok(run) => run,
        Err(TuningConflict::ChangedOutside) => return Err(None),
    };
    while let Some(i) = run.next_write() {
        let body = run.body(i);
        if failing == Some(i) {
            if renamed {
                disk.write_or_remove(i, &body);
            }
            let readback = Some(disk.files[i].clone());
            return Err(Some(run.failed(i, readback)));
        }
        disk.write_or_remove(i, &body);
        run.written(i);
    }
    Ok(run.finish())
}

#[test]
fn partial_write_can_be_retried_against_our_exact_persisted_revision() {
    let mut disk = Disk::default();
    let initial = TuningRevision::default();
    let desired = TuningRevision::from_settings(&UserTweaks {
        quantum: Some(512),
        headroom_usb: Some(1024),
        ..UserTweaks::default()
    });
    let partial = write_at(&desired, &initial, &mut disk, Some(1), false)
        .unwrap_err()
        .unwrap();
    assert_eq!(disk.revision(), partial);
    assert_ne!(partial, desired);
    assert_eq!(
        write_at(&desired, &partial, &mut disk, None, false).unwrap(),
        desired
    );
}

#[test]
fn external_edits_are_not_absorbed_as_our_successful_write() {
    let mut disk = Disk::default();
    let before = TuningRevision::default();
    disk.files[0] = Some(b"# another application\n".to_vec());
    let desired = TuningRevision::from_settings(&UserTweaks {
        quantum: Some(512),
        ..UserTweaks::default()
    });
    let error = write_at(&desired, &before, &mut disk, None, false).unwrap_err();
    assert!(error.is_none());
    assert_eq!(
        disk.files[0].as_deref(),
        Some(&b"# another application\n"[..])
    );
    assert_eq!(
        TuningConflict::ChangedOutside.message(),
        "Audio configuration changed outside this window. Close and reopen settings before applying."
    );
}

#[test]
fn a_failed_restart_does_not_invalidate_the_persisted_baseline() {
    let mut disk = Disk::default();
    let desired = TuningRevision::from_settings(&UserTweaks {
        quantum: Some(512),
        ..UserTweaks::default()
    });
    let persisted = write_at(&desired, &TuningRevision::default(), &mut disk, None, false).unwrap();
    let writes = disk.writes;
    let retried = write_at(&desired, &persisted, &mut disk, None, false).unwrap();
    assert_eq!(disk.writes, writes, "unchanged file rewritten");
    assert_eq!(retried, desired);
}

#[test]
fn a_write_that_landed_before_its_error_counts_as_ours() {
    let mut disk = Disk::default();
    let desired = TuningRevision::from_settings(&UserTweaks {
        quantum: Some(512),
        ..UserTweaks::default()
    });
    let persisted = write_at(&desired, &TuningRevision::default(), &mut disk, Some(0), true)
        .unwrap_err()
        .unwrap();
    assert_eq!(persisted, desired);
}

#[test]
fn a_revision_reads_back_as_the_tweaks_it_was_made_from() {
    let tweaks = UserTweaks {
        quantum: Some(512),
        headroom_usb: Some(1024),
        bt_sbc_xq: Some(true),
        ..UserTweaks::default()
    };
    let revision = TuningRevision::from_settings(&tweaks);
    assert!(revision.pipewire.is_some() && revision.wireplumber.is_some());
    assert_eq!(revision.settings(), Some(tweaks));
    assert_eq!(TuningRevision::default().settings(), Some(UserTweaks::default()));
    let broken = TuningRevision {
        pipewire: Some(vec![0xff, 0xfe]),
        wireplumber: None,
    };
    assert_eq!(broken.settings(), None);
}

#[test]
fn blank_text_is_no_file() {
    assert_eq!(optional_bytes("  \n"), None);
    assert_eq!(optional_bytes("a\n"), Some(b"a\n".to_vec()));
}
