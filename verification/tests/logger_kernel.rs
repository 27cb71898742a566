use lexa_kernel::extension::logger::{
    logger_failure, logger_settings_failure, logger_settings_or_default,
};
use lexa_kernel::{
    ApplicationAdapterInterface, ApplicationLoggerExtension, Kernel, KernelError, KernelSettings,
    LoggerFilter, LoggerSettings, LoggerSettingsLevel, ProcessMode,
};

struct Adapter;

impl ApplicationAdapterInterface for Adapter {
    type Settings = ();

    fn new(_: ()) -> Self {
        Adapter
    }
}

fn kernel(mode: ProcessMode) -> Kernel<Adapter> {
    Kernel::<Adapter>::new("lexa-app", "0.1.0", KernelSettings::new("/app", mode, true, true))
        .complete(Ok(()))
}

#[test]
fn the_level_of_the_logger_follows_the_mode() {
    assert_eq!(kernel(ProcessMode::LOCAL).logger_level(), LoggerFilter::Debug);
    assert_eq!(kernel(ProcessMode::DEVELOPMENT).logger_level(), LoggerFilter::Debug);
    assert_eq!(kernel(ProcessMode::PRODUCTION).logger_level(), LoggerFilter::Error);
    assert_eq!(kernel(ProcessMode::TEST).logger_level(), LoggerFilter::Trace);
}

#[test]
fn the_settings_of_the_logger_are_read_from_the_logger_file() {
    let request = kernel(ProcessMode::DEVELOPMENT).logger_settings_request().unwrap();
    assert_eq!(request.directory, "/app/config");
    assert_eq!(request.relative_path, "dev/logger");
}

#[test]
fn an_installed_logger_writes_nothing_to_the_signal() {
    let kernel = kernel(ProcessMode::LOCAL).logger_installed(Ok(()));
    assert!(kernel.signal().warnings().is_empty());
    assert!(kernel.signal().errors().is_empty());
}

#[test]
fn the_messages_about_the_logger() {
    assert_eq!(logger_failure("x"), "Erreur liée au logger. Raison « x »");
    assert_eq!(
        logger_settings_failure("x"),
        "Le fichier de configuration du logger n'a pas pu être chargé correctement.\nRaison « x ». \
         \nLes paramètres par défaut du logger ont été appliqués."
    );
}

#[test]
fn the_settings_that_were_read_are_those_that_are_installed() {
    let read = LoggerSettings::explicit(
        false,
        LoggerSettingsLevel::ERROR,
        vec![String::from("lexa*")],
        false,
    );
    assert_eq!(logger_settings_or_default(Ok(read.clone())), read);
}

#[test]
fn settings_that_could_not_be_read_are_the_default_settings() {
    let absent = Err(KernelError::NotFound(String::from("absent")));
    assert_eq!(logger_settings_or_default(absent), LoggerSettings::default());
    let malformed = Err(KernelError::Deserialize(String::from("malformed")));
    assert_eq!(logger_settings_or_default(malformed), LoggerSettings::default());
}
