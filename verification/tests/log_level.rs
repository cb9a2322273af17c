use xterm_js_sys::log_level::LogLevelIsOff;
use xterm_js_sys::types::{LogLevel, WideCharacterWidth};

#[test]
fn trace_and_debug_both_become_debug() {
    assert_eq!(LogLevel::from(log::Level::Trace), LogLevel::Debug);
    assert_eq!(LogLevel::from(log::Level::Debug), LogLevel::Debug);
}

#[test]
fn other_levels_keep_their_name() {
    assert_eq!(LogLevel::from(log::Level::Info), LogLevel::Info);
    assert_eq!(LogLevel::from(log::Level::Warn), LogLevel::Warn);
    assert_eq!(LogLevel::from(log::Level::Error), LogLevel::Error);
}

#[test]
fn no_level_turns_logging_off() {
    assert_eq!(LogLevel::from(None::<log::Level>), LogLevel::Off);
    assert_eq!(LogLevel::from(Some(log::Level::Warn)), LogLevel::Warn);
    assert_eq!(LogLevel::from(Some(log::Level::Trace)), LogLevel::Debug);
}

#[test]
fn off_has_no_log_level() {
    assert_eq!(log::Level::try_from(LogLevel::Off), Err(LogLevelIsOff));
}

#[test]
fn every_other_level_converts_back() {
    assert_eq!(log::Level::try_from(LogLevel::Debug), Ok(log::Level::Debug));
    assert_eq!(log::Level::try_from(LogLevel::Info), Ok(log::Level::Info));
    assert_eq!(log::Level::try_from(LogLevel::Warn), Ok(log::Level::Warn));
    assert_eq!(log::Level::try_from(LogLevel::Error), Ok(log::Level::Error));
}

#[test]
fn round_trip_loses_only_trace() {
    for level in [log::Level::Error, log::Level::Warn, log::Level::Info, log::Level::Debug] {
        assert_eq!(log::Level::try_from(LogLevel::from(level)), Ok(level));
    }
    assert_eq!(
        log::Level::try_from(LogLevel::from(log::Level::Trace)),
        Ok(log::Level::Debug)
    );
}

#[test]
fn into_works_through_the_same_conversion() {
    let level: LogLevel = log::Level::Error.into();
    assert_eq!(level, LogLevel::Error);
    let back: Result<log::Level, LogLevelIsOff> = LogLevel::Info.try_into();
    assert_eq!(back, Ok(log::Level::Info));
}

#[test]
fn wide_characters_take_up_to_two_cells() {
    assert_eq!(WideCharacterWidth::_0.cells(), 0);
    assert_eq!(WideCharacterWidth::_1.cells(), 1);
    assert_eq!(WideCharacterWidth::_2.cells(), 2);
}
