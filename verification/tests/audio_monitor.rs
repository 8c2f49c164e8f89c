use biglinux_microphone::services::audio_monitor::{
    fit_bands, meter_capture_args, Ring, DEFAULT_BAND_COUNT, DEFAULT_FFT_SIZE, DEFAULT_HOP_SIZE,
    DEFAULT_SAMPLE_RATE, MARKED_AS_A_METER,
};

#[test]
fn defaults_are_internally_consistent() {
    const { assert!(DEFAULT_HOP_SIZE < DEFAULT_FFT_SIZE) };
    assert!(DEFAULT_FFT_SIZE.is_power_of_two());
    assert!(DEFAULT_HOP_SIZE.is_power_of_two());
    const { assert!(DEFAULT_BAND_COUNT <= DEFAULT_FFT_SIZE / 2) };
    assert_eq!(DEFAULT_SAMPLE_RATE, 48_000);
}

#[test]
fn the_spectrum_stream_says_it_is_only_a_meter() {
    let argv = meter_capture_args(48_000);
    let marks = argv
        .iter()
        .position(|arg| arg == "-P")
        .map(|at| argv[at + 1].clone())
        .expect("the properties are passed");
    assert!(marks.contains("media.role=monitor"), "{marks}");
    assert!(
        marks.contains("application.id=br.com.biglinux.microphone"),
        "{marks}"
    );
    assert!(
        marks.contains("node.name=biglinux-microphone.meter.spectrum"),
        "{marks}"
    );
    assert_eq!(marks, MARKED_AS_A_METER);
    assert!(argv.contains(&String::from("@DEFAULT_SOURCE@")));
    assert!(argv.contains(&String::from("f32")));
    assert!(argv.contains(&String::from("48000")));
}

#[test]
fn the_ring_gives_the_window_oldest_first() {
    let mut ring = Ring::new(4, 0);
    assert!(!ring.ready());
    for s in 1..=6 {
        ring.push(s);
    }
    assert!(ring.ready());
    let mut out = Vec::new();
    ring.copy_window_into(&mut out);
    assert_eq!(out, vec![3, 4, 5, 6]);
}

#[test]
fn fitted_bands_never_overlap_and_never_go_back() {
    let raw = vec![(0, 0), (0, 1), (1, 1), (1, 5), (3, 9), (2000, 3000)];
    let bands = fit_bands(&raw, 1024);
    assert_eq!(bands.len(), raw.len());
    for window in bands.windows(2) {
        let (_, prev_hi) = window[0];
        let (next_lo, _) = window[1];
        assert!(next_lo >= prev_hi, "overlap detected: {window:?}");
    }
    assert_eq!(bands, vec![(0, 0), (1, 1), (2, 2), (3, 5), (6, 9), (1023, 1023)]);
}
