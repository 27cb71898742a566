use lexa_kernel::{
    LoggerFilter, LoggerSettings, LoggerSettingsLevel, LoggerSettingsPreset, ProcessMode,
};

fn enabled(logger: &lexa_logger::LoggerStdout, target: &str) -> bool {
    let metadata = log::Metadata::builder().level(log::Level::Info).target(target).build();
    log::Log::enabled(logger, &metadata)
}

fn built(settings: &LoggerSettings, level: LoggerFilter) -> lexa_logger::LoggerStdout {
    lexa_logger::LoggerBuilder::build(settings.builder(level))
}

#[test]
fn the_name_of_the_logger_configuration() {
    assert_eq!(LoggerSettings::FILENAME, "logger");
}

#[test]
fn default_settings_choose_nothing() {
    let settings = LoggerSettings::default();
    assert_eq!(settings.preset, LoggerSettingsPreset::Default);
    assert_eq!(settings.colorized, None);
    assert_eq!(settings.max_level, None);
    assert!(settings.target_filters.is_empty());
    assert_eq!(settings.timestamp, None);
}

#[test]
fn explicit_settings_choose_everything() {
    let filters = vec![String::from("lexa*"), String::from("app")];
    let settings = LoggerSettings::explicit(false, LoggerSettingsLevel::WARNING, filters.clone(), true);
    assert_eq!(settings.preset, LoggerSettingsPreset::Default);
    assert_eq!(settings.colorized, Some(false));
    assert_eq!(settings.max_level, Some(LoggerSettingsLevel::WARNING));
    assert_eq!(settings.target_filters, filters);
    assert_eq!(settings.timestamp, Some(true));
}

#[test]
fn the_level_of_a_mode() {
    assert_eq!(LoggerFilter::for_mode(ProcessMode::LOCAL), LoggerFilter::Debug);
    assert_eq!(LoggerFilter::for_mode(ProcessMode::DEVELOPMENT), LoggerFilter::Debug);
    assert_eq!(LoggerFilter::for_mode(ProcessMode::PRODUCTION), LoggerFilter::Error);
    assert_eq!(LoggerFilter::for_mode(ProcessMode::TEST), LoggerFilter::Trace);
}

#[test]
fn the_level_of_a_settings_level() {
    assert_eq!(LoggerFilter::from(LoggerSettingsLevel::DEBUG), LoggerFilter::Debug);
    assert_eq!(LoggerFilter::from(LoggerSettingsLevel::ERROR), LoggerFilter::Error);
    assert_eq!(LoggerFilter::from(LoggerSettingsLevel::INFO), LoggerFilter::Info);
    assert_eq!(LoggerFilter::from(LoggerSettingsLevel::TRACE), LoggerFilter::Trace);
    assert_eq!(LoggerFilter::from(LoggerSettingsLevel::WARNING), LoggerFilter::Warn);
}

#[test]
fn the_builder_starts_from_the_given_level() {
    let settings = LoggerSettings::default();
    assert_eq!(built(&settings, LoggerFilter::Off).level(), log::LevelFilter::Off);
    assert_eq!(built(&settings, LoggerFilter::Error).level(), log::LevelFilter::Error);
    assert_eq!(built(&settings, LoggerFilter::Warn).level(), log::LevelFilter::Warn);
    assert_eq!(built(&settings, LoggerFilter::Info).level(), log::LevelFilter::Info);
    assert_eq!(built(&settings, LoggerFilter::Debug).level(), log::LevelFilter::Debug);
    assert_eq!(built(&settings, LoggerFilter::Trace).level(), log::LevelFilter::Trace);
}

#[test]
fn the_level_of_the_settings_replaces_the_given_level() {
    let mut settings = LoggerSettings::default();
    settings.max_level = Some(LoggerSettingsLevel::WARNING);
    assert_eq!(built(&settings, LoggerFilter::Trace).level(), log::LevelFilter::Warn);
    settings.max_level = Some(LoggerSettingsLevel::DEBUG);
    assert_eq!(built(&settings, LoggerFilter::Error).level(), log::LevelFilter::Debug);
    settings.max_level = Some(LoggerSettingsLevel::ERROR);
    assert_eq!(built(&settings, LoggerFilter::Trace).level(), log::LevelFilter::Error);
    settings.max_level = Some(LoggerSettingsLevel::INFO);
    assert_eq!(built(&settings, LoggerFilter::Trace).level(), log::LevelFilter::Info);
    settings.max_level = Some(LoggerSettingsLevel::TRACE);
    assert_eq!(built(&settings, LoggerFilter::Off).level(), log::LevelFilter::Trace);
}

#[test]
fn without_filters_every_target_is_logged() {
    let logger = built(&LoggerSettings::default(), LoggerFilter::Trace);
    assert!(enabled(&logger, "lexa_kernel"));
    assert!(enabled(&logger, "anything::else"));
}

#[test]
fn with_filters_a_target_is_logged_when_one_of_them_matches() {
    let mut settings = LoggerSettings::default();
    settings.target_filters = vec![String::from("lexa_*"), String::from("app::db")];
    let logger = built(&settings, LoggerFilter::Trace);
    assert!(enabled(&logger, "lexa_kernel"));
    assert!(enabled(&logger, "lexa_logger::stdout"));
    assert!(enabled(&logger, "app::db"));
    assert!(enabled(&logger, "my_app::db::pool"));
    assert!(!enabled(&logger, "hyper"));
    assert!(!enabled(&logger, "app::web"));
}

#[test]
fn a_filter_over_the_limit_lets_nothing_through() {
    let mut settings = LoggerSettings::default();
    settings.target_filters = vec!["*".repeat(1025)];
    let logger = built(&settings, LoggerFilter::Trace);
    assert!(!enabled(&logger, "lexa_kernel"));
    settings.target_filters.push(String::from("lexa"));
    let logger = built(&settings, LoggerFilter::Trace);
    assert!(enabled(&logger, "lexa_kernel"));
    assert!(!enabled(&logger, "hyper"));
}
