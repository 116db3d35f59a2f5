use mw_log::level::{is_enabled, max_level_filter_from_cpp, Level, LevelFilter};

const LEVELS: [Level; 6] = [
    Level::Fatal,
    Level::Error,
    Level::Warn,
    Level::Info,
    Level::Debug,
    Level::Trace,
];

const FILTERS: [LevelFilter; 7] = [
    LevelFilter::Off,
    LevelFilter::Fatal,
    LevelFilter::Error,
    LevelFilter::Warn,
    LevelFilter::Info,
    LevelFilter::Debug,
    LevelFilter::Trace,
];

#[test]
fn enabled_iff_at_least_as_urgent() {
    for (li, l) in LEVELS.iter().enumerate() {
        for (fi, f) in FILTERS.iter().enumerate() {
            assert_eq!(is_enabled(*l, *f), li + 1 <= fi, "{:?} {:?}", l, f);
        }
    }
}

#[test]
fn level_equal_to_threshold_is_enabled() {
    assert!(is_enabled(Level::Warn, LevelFilter::Warn));
    assert!(is_enabled(Level::Fatal, LevelFilter::Fatal));
    assert!(is_enabled(Level::Trace, LevelFilter::Trace));
    assert!(!is_enabled(Level::Info, LevelFilter::Warn));
    assert!(is_enabled(Level::Error, LevelFilter::Warn));
}

#[test]
fn off_disables_everything() {
    for l in LEVELS.iter() {
        assert!(!is_enabled(*l, LevelFilter::Off));
    }
}

#[test]
fn known_codes_map_in_order() {
    for (code, f) in FILTERS.iter().enumerate() {
        assert_eq!(max_level_filter_from_cpp(code as u8), *f);
        assert_eq!(f.to_external_code(), code as u8);
    }
}

#[test]
fn unknown_code_falls_back_to_info() {
    assert_eq!(max_level_filter_from_cpp(0xFF), LevelFilter::Info);
    assert_eq!(max_level_filter_from_cpp(7), LevelFilter::Info);
    assert_ne!(max_level_filter_from_cpp(0xFF), LevelFilter::Off);
}
