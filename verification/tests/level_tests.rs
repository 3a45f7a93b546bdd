use template_app::level::Level;

#[test]
fn parses_each_level_name() {
    assert_eq!(Level::from("trace"), Level::Trace);
    assert_eq!(Level::from("debug"), Level::Debug);
    assert_eq!(Level::from("info"), Level::Info);
    assert_eq!(Level::from("warn"), Level::Warn);
    assert_eq!(Level::from("error"), Level::Error);
}

#[test]
fn parsing_ignores_case() {
    assert_eq!(Level::from("TRACE"), Level::Trace);
    assert_eq!(Level::from("Debug"), Level::Debug);
    assert_eq!(Level::from("wArN"), Level::Warn);
    assert_eq!(Level::from("ERROR"), Level::Error);
}

#[test]
fn unknown_text_parses_as_info() {
    assert_eq!(Level::from(""), Level::Info);
    assert_eq!(Level::from("verbose"), Level::Info);
    assert_eq!(Level::from("warning"), Level::Info);
    assert_eq!(Level::from(" warn"), Level::Info);
    assert_eq!(Level::from("err"), Level::Info);
}

#[test]
fn unicode_lowercasing_decides_alike() {
    // Dotted capital I lower-cases to `i` and a combining dot: no match.
    assert_eq!(Level::from("\u{130}nfo"), Level::Info);
    assert_eq!(Level::from("\u{130}NFO").to_string(), "INFO");
    assert_eq!(Level::from("TR\u{c5}CE"), Level::Info);
    assert_eq!("TR\u{c5}CE".to_lowercase() == "trace", false);
}

#[test]
fn display_names() {
    assert_eq!(Level::Trace.to_string(), "TRACE");
    assert_eq!(Level::Debug.to_string(), "DEBUG");
    assert_eq!(Level::Info.to_string(), "INFO");
    assert_eq!(Level::Warn.to_string(), "WARN");
    assert_eq!(Level::Error.to_string(), "ERROR");
}

#[test]
fn display_then_parse_roundtrip() {
    for l in [Level::Trace, Level::Debug, Level::Info, Level::Warn, Level::Error] {
        let shown = l.to_string();
        assert_eq!(Level::from(shown.as_str()), l);
    }
}

#[test]
fn levels_convert_with_into() {
    let l: Level = "Warn".into();
    assert_eq!(l, Level::Warn);
}
