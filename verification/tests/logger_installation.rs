use lexa_kernel::LoggerSettings;

struct Silent;

impl log::Log for Silent {
    fn enabled(&self, _: &log::Metadata) -> bool {
        false
    }

    fn log(&self, _: &log::Record) {}

    fn flush(&self) {}
}

#[test]
fn the_outcome_of_an_installation_is_passed_on() {
    assert_eq!(LoggerSettings::installation(Ok(())), Ok(()));

    assert!(log::set_boxed_logger(Box::new(Silent)).is_ok());
    let refusal = log::set_boxed_logger(Box::new(Silent));
    assert!(refusal.is_err());
    let error = LoggerSettings::installation(refusal).unwrap_err();
    assert_eq!(
        error.reason(),
        "attempted to set a logger after the logging system was already initialized"
    );
}
