use lemmy_server::init_tracing::{
    init_tracing, tracing_with, InitTracingError, CONSOLE_EVENT_BUFFER_CAPACITY, CONSOLE_PORT,
    DEFAULT_LOG,
};
use tracing_subscriber::filter::Targets;

/// The directives that are read from the text of `RUST_LOG`.
fn directives(rust_log: &str) -> String {
    init_tracing(Some(rust_log.to_string()))
        .unwrap()
        .targets
        .to_string()
}

#[test]
fn without_rust_log_info_is_logged() {
    let tracing = init_tracing(None).unwrap();
    assert_eq!(tracing.targets.to_string(), "info");
    assert_eq!(DEFAULT_LOG, "info");
    assert_eq!(directives("info"), "info");
}

#[test]
fn the_console_listens_everywhere() {
    let console = init_tracing(None).unwrap().console;
    assert_eq!(console.ip, [0, 0, 0, 0]);
    assert_eq!(console.port, 6669);
    assert_eq!(console.event_buffer_capacity, 1024 * 1024);
    assert_eq!(CONSOLE_PORT, 6669);
    assert_eq!(CONSOLE_EVENT_BUFFER_CAPACITY, 1024 * 1024);
}

#[test]
fn rust_log_names_targets() {
    assert_eq!(directives("warn,lemmy_server=debug"), "lemmy_server=debug,warn");
    assert_eq!(directives("lemmy"), "lemmy=trace");
    assert_eq!(directives(""), "error");
}

#[test]
fn white_space_around_rust_log_means_nothing() {
    assert_eq!(directives("  debug\t\n"), "debug");
    assert_eq!(directives("\u{a0}debug\u{3000}"), "debug");
    assert_eq!(directives("\u{85}\u{2028}debug\u{1680}\u{205f}\u{202f}"), "debug");
    for code in (0x9..=0xd).chain(0x2000..=0x200a) {
        let white = char::from_u32(code).unwrap();
        assert_eq!(directives(&format!("{}debug{}", white, white)), "debug");
    }
    // A zero width space is no white space.
    assert_eq!(directives("\u{200b}debug"), "\u{200b}debug=trace");
}

#[test]
fn exactly_the_listed_characters_are_white_space() {
    for code in 0..=0x10ffff_u32 {
        if let Some(c) = char::from_u32(code) {
            let listed = matches!(code, 0x9..=0xd | 0x20 | 0x85 | 0xa0 | 0x1680)
                || matches!(code, 0x2000..=0x200a | 0x2028 | 0x2029 | 0x202f | 0x205f | 0x3000);
            assert_eq!(c.is_whitespace(), listed);
        }
    }
}

#[test]
fn quotes_around_rust_log_mean_nothing() {
    assert_eq!(directives("\"warn\""), "warn");
    assert_eq!(directives("\"\"warn\""), "warn");
    assert_eq!(directives(" \"warn,lemmy=debug\" "), "lemmy=debug,warn");
    assert_eq!(directives("\"\""), "error");
}

#[test]
fn white_space_inside_of_quotes_stays() {
    assert_eq!(directives("\" warn\""), " warn=trace");
}

#[test]
fn malformed_directives_are_refused() {
    for rust_log in ["lemmy=loud", "lemmy=info=debug", "\"lemmy=loud\""] {
        assert!(matches!(
            init_tracing(Some(rust_log.to_string())),
            Err(InitTracingError::InvalidTargets(_))
        ));
    }
}

#[test]
fn the_filter_that_was_read_is_used() {
    let tracing = tracing_with("lemmy=debug".parse::<Targets>()).unwrap();
    assert_eq!(tracing.targets.to_string(), "lemmy=debug");
    assert_eq!(tracing.console.port, 6669);
    let InitTracingError::InvalidTargets(error) =
        tracing_with("lemmy=loud".parse::<Targets>()).unwrap_err();
    assert_eq!(
        error.to_string(),
        "lemmy=loud".parse::<Targets>().unwrap_err().to_string()
    );
}

#[test]
fn the_error_is_that_of_the_text() {
    let error = |rust_log: &str| {
        let InitTracingError::InvalidTargets(error) =
            init_tracing(Some(rust_log.to_string())).unwrap_err();
        error.to_string()
    };
    let own = |filter: &str| filter.parse::<Targets>().unwrap_err().to_string();
    assert_eq!(error(" \"lemmy=loud\" "), own("lemmy=loud"));
    assert_eq!(error("lemmy=info=debug"), own("lemmy=info=debug"));
    assert_ne!(error("lemmy=loud"), error("lemmy=info=debug"));
}
