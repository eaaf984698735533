use tumu::logging::{append_decimal, Level, LevelFilter, Logger};

#[test]
fn info_and_below_print_the_message_alone() {
    let logger = Logger::new(LevelFilter::Trace);
    assert_eq!(
        logger.render(Level::Info, "tumu::worker", Some(12), "hello"),
        Some("hello".to_string())
    );
    assert_eq!(logger.render(Level::Debug, "t", None, "dbg"), Some("dbg".to_string()));
    assert_eq!(logger.render(Level::Trace, "t", Some(1), ""), Some("".to_string()));
}

#[test]
fn errors_and_warnings_are_led_by_level_and_place() {
    let logger = Logger::new(LevelFilter::Info);
    assert_eq!(
        logger.render(Level::Error, "tumu::worker", Some(120), "boom"),
        Some("ERROR RS - tumu::worker:120 - boom".to_string())
    );
    assert_eq!(
        logger.render(Level::Warn, "deno::ops", None, "careful"),
        Some("WARN RS - deno::ops - careful".to_string())
    );
    assert_eq!(
        logger.render(Level::Warn, "", Some(0), ""),
        Some("WARN RS - :0 - ".to_string())
    );
}

#[test]
fn records_above_the_level_do_not_pass() {
    let logger = Logger::new(LevelFilter::Info);
    assert_eq!(logger.max_level(), LevelFilter::Info);
    assert!(logger.enabled(Level::Error));
    assert!(logger.enabled(Level::Warn));
    assert!(logger.enabled(Level::Info));
    assert!(!logger.enabled(Level::Debug));
    assert!(!logger.enabled(Level::Trace));
    assert_eq!(logger.render(Level::Debug, "t", Some(1), "m"), None);
    let off = Logger::new(LevelFilter::Off);
    assert!(!off.enabled(Level::Error));
    assert_eq!(off.render(Level::Error, "t", Some(1), "m"), None);
    let errors = Logger::new(LevelFilter::Error);
    assert!(errors.enabled(Level::Error));
    assert!(!errors.enabled(Level::Warn));
    assert_eq!(errors.render(Level::Warn, "t", None, "m"), None);
}

#[test]
fn line_numbers_are_written_in_decimal() {
    for (n, text) in [
        (0u32, "0"),
        (7, "7"),
        (10, "10"),
        (42, "42"),
        (100, "100"),
        (909, "909"),
        (65535, "65535"),
        (1234567890, "1234567890"),
        (u32::MAX, "4294967295"),
    ] {
        let mut s = String::from("line ");
        append_decimal(&mut s, n);
        assert_eq!(s, format!("line {}", text));
    }
}

#[test]
fn levels_have_their_names_and_ranks() {
    let levels = [
        (Level::Error, "ERROR", 1u8),
        (Level::Warn, "WARN", 2),
        (Level::Info, "INFO", 3),
        (Level::Debug, "DEBUG", 4),
        (Level::Trace, "TRACE", 5),
    ];
    for (level, name, rank) in levels {
        assert_eq!(level.name(), name);
        assert_eq!(level.index(), rank);
    }
    let filters = [
        (LevelFilter::Off, 0u8),
        (LevelFilter::Error, 1),
        (LevelFilter::Warn, 2),
        (LevelFilter::Info, 3),
        (LevelFilter::Debug, 4),
        (LevelFilter::Trace, 5),
    ];
    for (filter, rank) in filters {
        assert_eq!(filter.index(), rank);
    }
}

#[test]
fn a_diagnostic_is_led_by_the_word_error() {
    assert_eq!(tumu::logging::diagnostic("boom"), "error: boom");
    assert_eq!(tumu::logging::diagnostic(""), "error: ");
}
