//! The logger of the application.

use vstd::prelude::*;

use crate::config::{missing_directory_text, request_of, ConfigFallback, ConfigRequest};
use crate::error::KernelError;
use crate::kernel::{Kernel, KernelView};
use crate::logger::{
    set_logger_error_text,
    LoggerBuilderError,
    LoggerFilter,
    LoggerSettings,
    LoggerSettingsPreset,
};
use crate::process::ProcessMode;
use crate::signal::LoggerSignalView;

verus! {

/// The warning about settings of the logger that could not be read.
pub open spec fn logger_settings_failure_text(reason: Seq<char>) -> Seq<char> {
    "Le fichier de configuration du logger n'a pas pu être chargé correctement.\nRaison « "@
        + reason + " ». \nLes paramètres par défaut du logger ont été appliqués."@
}

/// The error about a logger that could not be installed.
pub open spec fn logger_failure_text(reason: Seq<char>) -> Seq<char> {
    "Erreur liée au logger. Raison « "@ + reason + " »"@
}

/// What `signal` is after the settings of the logger were read: unchanged
/// if they could be read, and one warning longer if they could not.
pub open spec fn after_logger_settings(
    signal: LoggerSignalView,
    loaded: Result<LoggerSettings, KernelError>,
) -> LoggerSignalView {
    match loaded {
        Ok(_) => signal,
        Err(error) => LoggerSignalView {
            warnings: signal.warnings.push(logger_settings_failure_text(error.text())),
            ..signal
        },
    }
}

/// What `signal` is after the installation of the logger: unchanged if the
/// logger was installed, and one error longer if it was not.
pub open spec fn after_logger_installation(
    signal: LoggerSignalView,
    outcome: Result<(), LoggerBuilderError>,
) -> LoggerSignalView {
    match outcome {
        Ok(_) => signal,
        Err(error) => LoggerSignalView {
            errors: signal.errors.push(logger_failure_text(error.text())),
            ..signal
        },
    }
}

/// What `signal` is after a refused installation of the logger.
pub open spec fn after_refused_installation(signal: LoggerSignalView) -> LoggerSignalView {
    LoggerSignalView {
        errors: signal.errors.push(logger_failure_text(set_logger_error_text())),
        ..signal
    }
}

/// Writes the warning about settings of the logger that could not be read.
pub fn logger_settings_failure(reason: &str) -> (text: String)
    ensures
        text@ == logger_settings_failure_text(reason@),
{
    String::from_str(
        "Le fichier de configuration du logger n'a pas pu être chargé correctement.\nRaison « ",
    ).concat(reason).concat(" ». \nLes paramètres par défaut du logger ont été appliqués.")
}

/// Whether `settings` are those that the logger is installed with once the
/// outcome of reading them is `loaded`: the settings that were read or,
/// where they could not be read, the default settings, in which the preset
/// decides everything.
pub open spec fn is_settled(settings: LoggerSettings, loaded: Result<LoggerSettings, KernelError>) -> bool {
    match loaded {
        Ok(read) => settings == read,
        Err(_) => {
            &&& settings.preset == LoggerSettingsPreset::Default
            &&& settings.colorized is None
            &&& settings.max_level is None
            &&& settings.target_filters@.len() == 0
            &&& settings.timestamp is None
        },
    }
}

/// The settings that the logger is installed with once the outcome of
/// reading them is `loaded`: the settings that were read or, where they could
/// not be read, the default settings.
pub fn logger_settings_or_default(loaded: Result<LoggerSettings, KernelError>) -> (settings:
    LoggerSettings)
    ensures
        is_settled(settings, loaded),
{
    match loaded {
        Ok(settings) => settings,
        Err(_) => LoggerSettings::default(),
    }
}

/// Writes the error about a logger that could not be installed.
pub fn logger_failure(reason: &str) -> (text: String)
    ensures
        text@ == logger_failure_text(reason@),
{
    String::from_str("Erreur liée au logger. Raison « ").concat(reason).concat(" »")
}

/// The step that installs the logger of the application.
pub trait ApplicationLoggerExtension: Sized {
    /// What was written to the diagnostic signal and not taken out yet.
    spec fn diagnostics(&self) -> LoggerSignalView;

    /// The mode the application runs in.
    spec fn mode(&self) -> ProcessMode;

    /// The level that the logger starts from: the one of the mode the
    /// application runs in.
    fn logger_level(&self) -> (level: LoggerFilter)
        ensures
            level == LoggerFilter::of_mode(self.mode()),
    ;

    /// Installs the logger with the settings read from the configuration
    /// file of the logger, of which `loaded` is the outcome.
    ///
    /// Settings that could not be read do not stop the assembly: one warning
    /// is written to the diagnostic signal, and the logger is installed with
    /// the default settings. For the installation itself see
    /// [`ApplicationLoggerExtension::with_logger`].
    fn initialize_logger(self, loaded: Result<LoggerSettings, KernelError>) -> (next: Self)
        ensures
            next.mode() == self.mode(),
            next.diagnostics() == after_logger_settings(self.diagnostics(), loaded)
                || next.diagnostics() == after_refused_installation(
                after_logger_settings(self.diagnostics(), loaded),
            ),
    ;

    /// Installs the logger with `settings`, starting from the level of the
    /// mode the application runs in.
    ///
    /// A logger that the backend refuses does not stop the assembly: one
    /// error is written to the diagnostic signal, and the application goes
    /// on without a logger of its own.
    fn with_logger(self, settings: LoggerSettings) -> (next: Self)
        ensures
            next.mode() == self.mode(),
            next.diagnostics() == self.diagnostics() || next.diagnostics()
                == after_refused_installation(self.diagnostics()),
    ;

    /// Takes the outcome of the installation of the logger: nothing is
    /// written to the diagnostic signal for a success, and one error that
    /// carries the reason for a failure.
    fn logger_installed(self, outcome: Result<(), LoggerBuilderError>) -> (next: Self)
        ensures
            next.mode() == self.mode(),
            next.diagnostics() == after_logger_installation(self.diagnostics(), outcome),
    ;
}

impl<A, E, C> Kernel<A, E, C> {
    /// Says which file holds the settings of the logger: see
    /// [`crate::config::fetch_config`].
    pub fn logger_settings_request(&self) -> (request: Result<ConfigRequest, KernelError>)
        ensures
            match request {
                Ok(request) => request_of(
                    self@.settings,
                    LoggerSettings::FILENAME@,
                    ConfigFallback::Fail,
                ) == Some(request@),
                Err(error) => self@.settings.directory.config is None && error is NotFound
                    && error.text() == missing_directory_text(),
            },
    {
        self.fetch_config(LoggerSettings::FILENAME)
    }
}

impl<A, E, C> ApplicationLoggerExtension for Kernel<A, E, C> {
    open spec fn diagnostics(&self) -> LoggerSignalView {
        self@.logger_signal
    }

    open spec fn mode(&self) -> ProcessMode {
        self@.settings.process_mode
    }

    fn logger_level(&self) -> (level: LoggerFilter) {
        LoggerFilter::for_mode(self.settings().process_mode())
    }

    fn initialize_logger(self, loaded: Result<LoggerSettings, KernelError>) -> (next: Self)
        ensures
            exists|settings: LoggerSettings, outcome: Result<(), LoggerBuilderError>| #[trigger]
                call_ensures(
                    LoggerSettings::make_builder,
                    (&settings, LoggerFilter::of_mode(self@.settings.process_mode)),
                    outcome,
                ) && is_settled(settings, loaded) && next@ == (KernelView {
                    logger_signal: after_logger_installation(
                        after_logger_settings(self@.logger_signal, loaded),
                        outcome,
                    ),
                    ..self@
                }),
    {
        let mut next = self;
        if let Err(error) = &loaded {
            let text = logger_settings_failure(error.reason());
            next.signal_mut().send_warning(text.as_str());
        }
        next.with_logger(logger_settings_or_default(loaded))
    }

    fn with_logger(self, settings: LoggerSettings) -> (next: Self)
        ensures
            exists|outcome: Result<(), LoggerBuilderError>| #[trigger]
                call_ensures(
                    LoggerSettings::make_builder,
                    (&settings, LoggerFilter::of_mode(self@.settings.process_mode)),
                    outcome,
                ) && next@ == (KernelView {
                    logger_signal: after_logger_installation(self@.logger_signal, outcome),
                    ..self@
                }),
    {
        let level = self.logger_level();
        let outcome = settings.make_builder(level);
        self.logger_installed(outcome)
    }

    fn logger_installed(self, outcome: Result<(), LoggerBuilderError>) -> (next: Self)
        ensures
            next@ == (KernelView {
                logger_signal: after_logger_installation(self@.logger_signal, outcome),
                ..self@
            }),
    {
        let mut next = self;
        match outcome {
            Ok(()) => {},
            Err(error) => {
                let text = logger_failure(error.reason());
                next.signal_mut().send_error(text.as_str());
            },
        }
        next
    }
}

} // verus!
