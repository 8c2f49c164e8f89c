use biglinux_microphone::probe::{node_line, parse_duration, ArgsError, NumberError};

fn args(list: &[&str]) -> Vec<String> {
    list.iter().map(|s| s.to_string()).collect()
}

#[test]
fn the_probe_watches_five_seconds_by_default() {
    assert_eq!(parse_duration(&args(&[])), Ok(Some(5000)));
    assert_eq!(parse_duration(&args(&["--help"])), Ok(None));
    assert_eq!(parse_duration(&args(&["-h"])), Ok(None));
    assert_eq!(parse_duration(&args(&["--duration-ms", "250"])), Ok(Some(250)));
}

#[test]
fn bad_probe_arguments_are_refused_with_their_reason() {
    let bad = parse_duration(&args(&["--duration-ms", "soon"])).unwrap_err();
    assert_eq!(bad, ArgsError::BadValue(NumberError::InvalidDigit));
    assert_eq!(bad.message(), "--duration-ms value: invalid digit found in string");
    assert_eq!(
        parse_duration(&args(&["--duration-ms", ""])),
        Err(ArgsError::BadValue(NumberError::Empty))
    );
    assert_eq!(
        parse_duration(&args(&["--duration-ms", "99999999999999999999"])),
        Err(ArgsError::BadValue(NumberError::TooLarge))
    );
    assert_eq!(
        parse_duration(&args(&["--duration-ms"])).unwrap_err().message(),
        "--duration-ms requires a value"
    );
    assert_eq!(
        parse_duration(&args(&["--verbose", "x"])).unwrap_err().message(),
        "unknown argument: --verbose"
    );
    assert_eq!(
        parse_duration(&args(&["-h", "x"])),
        Err(ArgsError::Unknown("-h".to_string()))
    );
}

#[test]
fn a_node_line_names_what_is_present_and_dashes_the_rest() {
    let props = vec![
        ("media.class".to_string(), "Stream/Input/Audio".to_string()),
        ("node.name".to_string(), "firefox".to_string()),
        ("node.rate".to_string(), "1/48000".to_string()),
        ("audio.rate".to_string(), "44100".to_string()),
    ];
    assert_eq!(
        node_line(42, &props),
        "probe stream_appeared id=42 name=firefox media_class=Stream/Input/Audio state=- quantum=- rate=1/48000 latency=- driver=- target=-"
    );
    assert_eq!(
        node_line(7, &Vec::new()),
        "probe node_appeared id=7 name=- media_class=- state=- quantum=- rate=- latency=- driver=- target=-"
    );
}
