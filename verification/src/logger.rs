//! The settings of the logger, and how they become a logger.

use vstd::prelude::*;
use vstd::std_specs::convert::FromSpecImpl;

use crate::process::ProcessMode;
use crate::signal::texts;
use crate::wildcard::target_matches;

verus! {

/// The presets of a logger.
#[derive(Debug, Clone, Copy, PartialEq, Eq, Hash, Structural)]
pub enum LoggerSettingsPreset {
    /// Colours and timestamps on.
    Default,
}

/// The levels that the settings of a logger can ask for.
#[derive(Debug, Clone, Copy, PartialEq, Eq, Hash, Structural)]
pub enum LoggerSettingsLevel {
    /// Errors, warnings, information and what helps to debug.
    DEBUG,
    /// Errors only.
    ERROR,
    /// Errors, warnings and information.
    INFO,
    /// Everything.
    TRACE,
    /// Errors and warnings.
    WARNING,
}

/// The most verbose level that a logger lets through.
#[derive(Debug, Clone, Copy, PartialEq, Eq, Hash, Structural)]
pub enum LoggerFilter {
    /// Nothing is logged.
    Off,
    /// Errors only.
    Error,
    /// Errors and warnings.
    Warn,
    /// Errors, warnings and information.
    Info,
    /// Errors, warnings, information and what helps to debug.
    Debug,
    /// Everything.
    Trace,
}

impl LoggerFilter {
    /// The level that a logger starts from in `mode`, before its settings
    /// are read: verbose on a developer's machine and in development, errors
    /// only in production, and everything under test.
    pub open spec fn of_mode(mode: ProcessMode) -> LoggerFilter {
        match mode {
            ProcessMode::LOCAL => LoggerFilter::Debug,
            ProcessMode::DEVELOPMENT => LoggerFilter::Debug,
            ProcessMode::PRODUCTION => LoggerFilter::Error,
            ProcessMode::TEST => LoggerFilter::Trace,
        }
    }

    /// The level that stands for a level of the settings.
    pub open spec fn of_level(level: LoggerSettingsLevel) -> LoggerFilter {
        match level {
            LoggerSettingsLevel::DEBUG => LoggerFilter::Debug,
            LoggerSettingsLevel::ERROR => LoggerFilter::Error,
            LoggerSettingsLevel::INFO => LoggerFilter::Info,
            LoggerSettingsLevel::TRACE => LoggerFilter::Trace,
            LoggerSettingsLevel::WARNING => LoggerFilter::Warn,
        }
    }

    /// The level that a logger starts from in `mode`.
    pub fn for_mode(mode: ProcessMode) -> (level: LoggerFilter)
        ensures
            level == Self::of_mode(mode),
    {
        match mode {
            ProcessMode::LOCAL => LoggerFilter::Debug,
            ProcessMode::DEVELOPMENT => LoggerFilter::Debug,
            ProcessMode::PRODUCTION => LoggerFilter::Error,
            ProcessMode::TEST => LoggerFilter::Trace,
        }
    }
}

impl From<LoggerSettingsLevel> for LoggerFilter {
    fn from(level: LoggerSettingsLevel) -> (filter: LoggerFilter) {
        match level {
            LoggerSettingsLevel::DEBUG => LoggerFilter::Debug,
            LoggerSettingsLevel::ERROR => LoggerFilter::Error,
            LoggerSettingsLevel::INFO => LoggerFilter::Info,
            LoggerSettingsLevel::TRACE => LoggerFilter::Trace,
            LoggerSettingsLevel::WARNING => LoggerFilter::Warn,
        }
    }
}

impl FromSpecImpl<LoggerSettingsLevel> for LoggerFilter {
    open spec fn obeys_from_spec() -> bool {
        true
    }

    open spec fn from_spec(level: LoggerSettingsLevel) -> LoggerFilter {
        LoggerFilter::of_level(level)
    }
}

/// The settings of a logger.
///
/// Every field but the preset can be left out: the preset then decides.
#[derive(Debug, Clone, PartialEq, Eq)]
pub struct LoggerSettings {
    /// The preset that the other fields start from.
    pub preset: LoggerSettingsPreset,
    /// Whether the log lines are coloured.
    pub colorized: Option<bool>,
    /// The most verbose level that is logged.
    pub max_level: Option<LoggerSettingsLevel>,
    /// Wildcard patterns of the targets (modules, crates) that are logged.
    /// With no pattern, every target is.
    pub target_filters: Vec<String>,
    /// Whether the log lines carry the time.
    pub timestamp: Option<bool>,
}

impl Default for LoggerSettings {
    fn default() -> (settings: LoggerSettings)
        ensures
            settings.preset == LoggerSettingsPreset::Default,
            settings.colorized is None,
            settings.max_level is None,
            settings.target_filters@.len() == 0,
            settings.timestamp is None,
    {
        LoggerSettings {
            preset: LoggerSettingsPreset::Default,
            colorized: None,
            max_level: None,
            target_filters: Vec::new(),
            timestamp: None,
        }
    }
}

/// The colour, timestamp and level of a logger, as far as they were chosen.
pub struct LoggerOptions {
    /// Whether the log lines are coloured.
    pub colorized: bool,
    /// Whether the log lines carry the time.
    pub timestamp: bool,
    /// The most verbose level that is logged, if one was chosen.
    pub level: Option<LoggerFilter>,
}

/// Why a logger could not be installed.
#[derive(Debug, Clone, PartialEq, Eq)]
pub struct LoggerBuilderError {
    reason: String,
}

impl LoggerBuilderError {
    /// The reason, as text.
    pub closed spec fn text(&self) -> Seq<char> {
        self.reason@
    }

    /// The reason, in the words of the logging backend.
    pub fn reason(&self) -> (reason: &str)
        ensures
            reason@ == self.text(),
    {
        self.reason.as_str()
    }
}

/// `lexa_logger::LoggerStdoutBuilder`: a logger in the making. Nothing is
/// seen of what is inside.
#[verifier::external_type_specification]
#[verifier::external_body]
pub struct ExLoggerStdoutBuilder(lexa_logger::LoggerStdoutBuilder);

/// `log::SetLoggerError`: the error of a process that has a logger already.
/// Nothing is seen of what is inside.
#[verifier::external_type_specification]
#[verifier::external_body]
pub struct ExSetLoggerError(log::SetLoggerError);

/// The patterns of the filters that a `lexa_logger::LoggerStdoutBuilder`
/// holds, in the order they were added.
pub uninterp spec fn builder_filters(builder: lexa_logger::LoggerStdoutBuilder) -> Seq<Seq<char>>;

/// The colour, timestamp and level that a
/// `lexa_logger::LoggerStdoutBuilder` holds.
pub uninterp spec fn builder_options(builder: lexa_logger::LoggerStdoutBuilder) -> LoggerOptions;

/// What `log::SetLoggerError` says when it is displayed.
pub open spec fn set_logger_error_text() -> Seq<char> {
    "attempted to set a logger after the logging system was already initialized"@
}

/// `lexa_logger::LoggerStdout::builder`: a builder with colours and
/// timestamps off, no level and no filter.
#[verifier::external_body]
fn stdout_builder() -> (builder: lexa_logger::LoggerStdoutBuilder)
    ensures
        builder_options(builder) == (LoggerOptions {
            colorized: false,
            timestamp: false,
            level: None,
        }),
        builder_filters(builder) == Seq::<Seq<char>>::empty(),
{
    lexa_logger::LoggerStdout::builder()
}

/// `lexa_logger::LoggerBuilder::with_color`: sets the colour choice and
/// nothing else.
#[verifier::external_body]
fn with_color(builder: lexa_logger::LoggerStdoutBuilder, colorized: bool) -> (next:
    lexa_logger::LoggerStdoutBuilder)
    ensures
        builder_options(next) == (LoggerOptions { colorized, ..builder_options(builder) }),
        builder_filters(next) == builder_filters(builder),
{
    lexa_logger::LoggerBuilder::with_color(builder, colorized)
}

/// `lexa_logger::LoggerBuilder::with_timestamp`: sets the timestamp choice
/// and nothing else.
#[verifier::external_body]
fn with_timestamp(builder: lexa_logger::LoggerStdoutBuilder, timestamp: bool) -> (next:
    lexa_logger::LoggerStdoutBuilder)
    ensures
        builder_options(next) == (LoggerOptions { timestamp, ..builder_options(builder) }),
        builder_filters(next) == builder_filters(builder),
{
    lexa_logger::LoggerBuilder::with_timestamp(builder, timestamp)
}

/// `lexa_logger::LoggerBuilder::with_level`: sets the level, given as the
/// variant of `log::LevelFilter` of the same name, and nothing else.
#[verifier::external_body]
fn with_level(builder: lexa_logger::LoggerStdoutBuilder, level: LoggerFilter) -> (next:
    lexa_logger::LoggerStdoutBuilder)
    ensures
        builder_options(next) == (LoggerOptions { level: Some(level), ..builder_options(builder) }),
        builder_filters(next) == builder_filters(builder),
{
    lexa_logger::LoggerBuilder::with_level(
        builder,
        match level {
            LoggerFilter::Off => log::LevelFilter::Off,
            LoggerFilter::Error => log::LevelFilter::Error,
            LoggerFilter::Warn => log::LevelFilter::Warn,
            LoggerFilter::Info => log::LevelFilter::Info,
            LoggerFilter::Debug => log::LevelFilter::Debug,
            LoggerFilter::Trace => log::LevelFilter::Trace,
        },
    )
}

/// `lexa_logger::LoggerBuilder::filter`: adds, after the filters that the
/// builder holds, one that lets a record through when its target matches
/// `pattern`, and changes nothing else.
#[verifier::external_body]
fn with_filter(builder: lexa_logger::LoggerStdoutBuilder, pattern: String) -> (next:
    lexa_logger::LoggerStdoutBuilder)
    ensures
        builder_filters(next) == builder_filters(builder).push(pattern@),
        builder_options(next) == builder_options(builder),
{
    let dependency = pattern.clone();
    lexa_logger::LoggerBuilder::filter(
        builder,
        move |metadata: &log::Metadata| target_matches(metadata.target(), pattern.as_str()),
        dependency,
    )
}

/// `lexa_logger::LoggerInitiator::stdout`: builds the logger and installs it
/// as the logger of the process. It fails when the process has a logger
/// already, which nothing here can tell beforehand.
#[verifier::external_body]
fn install(builder: lexa_logger::LoggerStdoutBuilder) -> (installed: Result<
    (),
    log::SetLoggerError,
>) {
    lexa_logger::LoggerInitiator::stdout(builder)
}

/// Whether `outcome` is what the logging backend answered when `builder` was
/// handed to it to be installed. Nothing is known of the answer but that it
/// was given.
pub closed spec fn backend_answer(
    builder: lexa_logger::LoggerStdoutBuilder,
    outcome: Result<(), log::SetLoggerError>,
) -> bool {
    call_ensures(install, (builder,), outcome)
}

/// The display of a `log::SetLoggerError`, which is one fixed sentence.
#[verifier::external_body]
fn error_text(error: &log::SetLoggerError) -> (text: String)
    ensures
        text@ == set_logger_error_text(),
{
    error.to_string()
}

impl LoggerSettings {
    /// The name of the configuration file of the logger.
    pub const FILENAME: &'static str = "logger";

    /// The colour, timestamp and level of the logger that these settings
    /// ask for, where `level` is the level to start from: colours and
    /// timestamps are on unless the settings turn them off, and the level of
    /// the settings, if there is one, replaces `level`.
    pub open spec fn options(&self, level: LoggerFilter) -> LoggerOptions {
        LoggerOptions {
            colorized: match self.colorized {
                Some(colorized) => colorized,
                None => true,
            },
            timestamp: match self.timestamp {
                Some(timestamp) => timestamp,
                None => true,
            },
            level: Some(
                match self.max_level {
                    Some(max_level) => LoggerFilter::of_level(max_level),
                    None => level,
                },
            ),
        }
    }

    /// Settings in which every choice is made.
    pub fn explicit(
        colorized: bool,
        max_level: LoggerSettingsLevel,
        target_filters: Vec<String>,
        timestamp: bool,
    ) -> (settings: LoggerSettings)
        ensures
            settings.preset == LoggerSettingsPreset::Default,
            settings.colorized == Some(colorized),
            settings.max_level == Some(max_level),
            settings.target_filters == target_filters,
            settings.timestamp == Some(timestamp),
    {
        LoggerSettings {
            preset: LoggerSettingsPreset::Default,
            colorized: Some(colorized),
            max_level: Some(max_level),
            target_filters,
            timestamp: Some(timestamp),
        }
    }

    /// Prepares the logger that these settings ask for, starting from
    /// `level`: a builder with the options of the settings and one filter
    /// per target pattern, in the order of the settings.
    pub fn builder(&self, level: LoggerFilter) -> (builder: lexa_logger::LoggerStdoutBuilder)
        ensures
            builder_options(builder) == self.options(level),
            builder_filters(builder) == texts(self.target_filters@),
    {
        let mut builder = match self.preset {
            LoggerSettingsPreset::Default => with_level(
                with_timestamp(with_color(stdout_builder(), true), true),
                level,
            ),
        };
        if let Some(colorized) = self.colorized {
            builder = with_color(builder, colorized);
        }
        if let Some(timestamp) = self.timestamp {
            builder = with_timestamp(builder, timestamp);
        }
        if let Some(max_level) = self.max_level {
            builder = with_level(builder, LoggerFilter::from(max_level));
        }
        let mut i: usize = 0;
        proof {
            assert(texts(self.target_filters@).take(0) =~= Seq::<Seq<char>>::empty());
        }
        while i < self.target_filters.len()
            invariant
                i <= self.target_filters.len(),
                builder_options(builder) == self.options(level),
                builder_filters(builder) == texts(self.target_filters@).take(i as int),
            decreases self.target_filters.len() - i,
        {
            let pattern = self.target_filters[i].clone();
            builder = with_filter(builder, pattern);
            proof {
                assert(texts(self.target_filters@).take(i + 1) =~= texts(
                    self.target_filters@,
                ).take(i as int).push(self.target_filters@[i as int]@));
            }
            i += 1;
        }
        proof {
            assert(texts(self.target_filters@).take(self.target_filters.len() as int) =~= texts(
                self.target_filters@,
            ));
        }
        builder
    }

    /// Installs the logger that these settings ask for, starting from
    /// `level`, as the logger of the process.
    ///
    /// The logger that is handed to the backend is the one that
    /// [`LoggerSettings::builder`] prepares: it has the options of the
    /// settings and one filter per target pattern. Whether the installation
    /// succeeds is the backend's to say: it refuses once the process has a
    /// logger. The result is a success if the backend answered with one, and
    /// an error that carries the backend's reason if it did not.
    pub fn make_builder(&self, level: LoggerFilter) -> (installed: Result<(), LoggerBuilderError>)
        ensures
            installed matches Err(error) ==> error.text() == set_logger_error_text(),
            exists|builder: lexa_logger::LoggerStdoutBuilder, outcome: Result<(), log::SetLoggerError>|
                #[trigger] backend_answer(builder, outcome) && builder_options(builder)
                    == self.options(level) && builder_filters(builder) == texts(
                    self.target_filters@,
                ) && (outcome is Ok <==> installed is Ok),
    {
        let builder = self.builder(level);
        let outcome = install(builder);
        proof {
            assert(backend_answer(builder, outcome));
        }
        Self::installation(outcome)
    }

    /// What the outcome of an installation is to the caller: a success is a
    /// success, and a failure carries the backend's reason.
    pub fn installation(outcome: Result<(), log::SetLoggerError>) -> (installed: Result<
        (),
        LoggerBuilderError,
    >)
        ensures
            outcome is Ok <==> installed is Ok,
            installed matches Err(error) ==> error.text() == set_logger_error_text(),
    {
        match outcome {
            Ok(()) => Ok(()),
            Err(error) => Err(LoggerBuilderError { reason: error_text(&error) }),
        }
    }
}

} // verus!
