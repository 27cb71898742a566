use lexa_kernel::{
    ApplicationAdapterInterface, ApplicationLoggerExtension, Kernel, KernelSettings,
    LoggerSettings, LoggerSettingsLevel, ProcessMode,
};

struct Adapter;

impl ApplicationAdapterInterface for Adapter {
    type Settings = ();

    fn new(_: ()) -> Self {
        Adapter
    }
}

fn kernel(mode: ProcessMode) -> Kernel<Adapter> {
    Kernel::<Adapter>::new("lexa-app", "0.1.0", KernelSettings::new("/app", mode, true, true))
        .complete(Ok(()))
}

#[test]
fn settings_that_were_read_are_installed_without_a_word() {
    let mut settings = LoggerSettings::default();
    settings.max_level = Some(LoggerSettingsLevel::WARNING);
    let kernel = kernel(ProcessMode::TEST).initialize_logger(Ok(settings));
    assert!(kernel.signal().warnings().is_empty());
    assert!(kernel.signal().errors().is_empty());
    assert_eq!(log::max_level(), log::LevelFilter::Warn);
}
