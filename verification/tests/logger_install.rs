use lexa_kernel::{LoggerFilter, LoggerSettings, LoggerSettingsLevel};

#[test]
fn the_logger_is_installed_once_and_refused_afterwards() {
    let mut settings = LoggerSettings::default();
    settings.max_level = Some(LoggerSettingsLevel::INFO);
    settings.target_filters = vec![String::from("lexa_kernel*")];

    assert!(settings.make_builder(LoggerFilter::Trace).is_ok());
    assert_eq!(log::max_level(), log::LevelFilter::Info);

    let kept = log::Metadata::builder().level(log::Level::Info).target("lexa_kernel::x").build();
    let dropped = log::Metadata::builder().level(log::Level::Info).target("hyper").build();
    assert!(log::logger().enabled(&kept));
    assert!(!log::logger().enabled(&dropped));

    let refused = settings.make_builder(LoggerFilter::Error).unwrap_err();
    assert_eq!(
        refused.reason(),
        "attempted to set a logger after the logging system was already initialized"
    );
    let refused = LoggerSettings::default().make_builder(LoggerFilter::Off).unwrap_err();
    assert_eq!(
        refused.reason(),
        "attempted to set a logger after the logging system was already initialized"
    );
}
