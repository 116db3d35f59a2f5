use mw_log::builder::MwLoggerBuilder;
use mw_log::level::{Level, LevelFilter};
use mw_log::logger::{InstanceHandle, MwLogger, Verb};
use mw_log::record::{Record, ShowFlags};
use mw_log::registry::{init, set_default_logger, LoggerError, ProcessLoggerState};

fn none_shown() -> ShowFlags {
    ShowFlags { module: false, file: false, line: false }
}

fn record(level: Level, msg: &str) -> Record {
    Record {
        level,
        message: vec![msg.to_string()],
        module: None,
        file: None,
        line: None,
        context_id: None,
    }
}

#[test]
fn nothing_is_dispatched_before_install() {
    let state = ProcessLoggerState::new();
    assert!(state.log(&record(Level::Fatal, "x")).is_none());
}

#[test]
fn second_install_fails_and_keeps_first() {
    let mut state = ProcessLoggerState::new();
    let first = MwLogger { level: LevelFilter::Warn, show: none_shown(), instance: InstanceHandle { id: 1 } };
    let second = MwLogger {
        level: LevelFilter::Trace,
        show: ShowFlags { module: true, file: true, line: true },
        instance: InstanceHandle { id: 2 },
    };
    assert_eq!(set_default_logger(&mut state, first), Ok(()));
    assert_eq!(set_default_logger(&mut state, second), Err(LoggerError::AlreadyInstalled));
    assert_eq!(state.default, Some(first));
    assert_eq!(state.max_level, LevelFilter::Warn);
    let d = state.log(&record(Level::Error, "after")).unwrap();
    assert_eq!(d.verb, Verb::Emit);
    assert_eq!(d.message.as_bytes(), b"after");
    assert!(state.log(&record(Level::Info, "filtered")).is_none());
}

#[test]
fn init_sets_global_threshold() {
    let mut state = ProcessLoggerState::new();
    let l = MwLogger { level: LevelFilter::Trace, show: none_shown(), instance: InstanceHandle { id: 1 } };
    assert!(set_default_logger(&mut state, l).is_ok());
    init(&mut state, LevelFilter::Error);
    assert_eq!(state.max_level, LevelFilter::Error);
    assert!(state.log(&record(Level::Warn, "x")).is_none());
    assert!(state.log(&record(Level::Error, "x")).is_some());
}

#[test]
fn many_events_each_keep_their_own_message() {
    let mut state = ProcessLoggerState::new();
    let l = MwLogger { level: LevelFilter::Info, show: none_shown(), instance: InstanceHandle { id: 9 } };
    assert!(set_default_logger(&mut state, l).is_ok());
    let shared = &state;
    let mut delivered: Vec<Vec<u8>> = Vec::new();
    for t in 0..4 {
        for m in 0..25 {
            let text = format!("thread {} event {}", t, m);
            let d = shared.log(&record(Level::Info, &text)).unwrap();
            assert_eq!(d.instance, None);
            delivered.push(d.message.as_bytes_with_nul().to_vec());
        }
    }
    assert_eq!(delivered.len(), 100);
    for t in 0..4 {
        for m in 0..25 {
            let want = format!("thread {} event {}\0", t, m);
            assert_eq!(delivered[t * 25 + m], want.as_bytes());
        }
    }
}

#[test]
fn builder_defaults_and_settings() {
    let b = MwLoggerBuilder::new();
    assert_eq!(b.level, LevelFilter::Info);
    assert_eq!(b.instance_tag(), "DFLT");
    let b = b.level(LevelFilter::Debug).context("TST2").unwrap();
    assert_eq!(b.level, LevelFilter::Debug);
    assert_eq!(b.instance_tag(), "TST2");
    let b = b.filter_max_level_from_cpp(2);
    assert_eq!(b.level, LevelFilter::Error);
    let b = b.filter_max_level_from_cpp(0xFF);
    assert_eq!(b.level, LevelFilter::Info);
}

#[test]
fn context_with_nul_is_refused() {
    assert!(matches!(MwLoggerBuilder::new().context("a\0b"), Err(LoggerError::ContextHasNul)));
}

#[test]
fn build_needs_an_instance() {
    let b = MwLoggerBuilder::new().level(LevelFilter::Warn);
    assert!(matches!(b.build(none_shown(), None), Err(LoggerError::InstanceCreationFailed)));
    let l = b.build(none_shown(), Some(InstanceHandle { id: 5 })).unwrap();
    assert_eq!(l.level, LevelFilter::Warn);
    assert_eq!(l.instance, InstanceHandle { id: 5 });
}

#[test]
fn builder_installs_default_once() {
    let mut state = ProcessLoggerState::new();
    assert_eq!(
        MwLoggerBuilder::new().set_as_default_logger(&mut state, none_shown(), None),
        Err(LoggerError::InstanceCreationFailed)
    );
    assert!(state.default.is_none());
    let h = Some(InstanceHandle { id: 3 });
    assert_eq!(MwLoggerBuilder::new().set_as_default_logger(&mut state, none_shown(), h), Ok(()));
    assert_eq!(state.max_level, LevelFilter::Info);
    assert_eq!(
        MwLoggerBuilder::new().level(LevelFilter::Trace).set_as_default_logger(&mut state, none_shown(), h),
        Err(LoggerError::AlreadyInstalled)
    );
    assert_eq!(state.max_level, LevelFilter::Info);
}
