//! Where a configuration file is read from.

use vstd::prelude::*;

use crate::error::KernelError;
use crate::process::ProcessMode;
use crate::settings::{KernelSettings, KernelSettingsView, LoaderExtension};

verus! {

/// The sub-directory of the configuration directory that holds the files of
/// `mode`, with the separator that follows it: none on a developer's
/// machine, `dev/` in development, `prod/` in production and `test/` under
/// test.
pub open spec fn mode_directory(mode: ProcessMode) -> Seq<char> {
    match mode {
        ProcessMode::LOCAL => Seq::empty(),
        ProcessMode::DEVELOPMENT => "dev/"@,
        ProcessMode::PRODUCTION => "prod/"@,
        ProcessMode::TEST => "test/"@,
    }
}

/// The path of the configuration `config_name` in `mode`, relative to the
/// configuration directory and without the file's extension.
pub open spec fn relative_path(mode: ProcessMode, config_name: Seq<char>) -> Seq<char> {
    mode_directory(mode) + config_name
}

/// The mode alone decides where, below the configuration directory, a
/// configuration is read from: directly in it on a developer's machine, and
/// under `dev`, `prod` and `test` in development, in production and under
/// test.
pub proof fn law_relative_path_of_each_mode(config_name: Seq<char>)
    ensures
        relative_path(ProcessMode::LOCAL, config_name) == config_name,
        relative_path(ProcessMode::DEVELOPMENT, config_name) == "dev/"@ + config_name,
        relative_path(ProcessMode::PRODUCTION, config_name) == "prod/"@ + config_name,
        relative_path(ProcessMode::TEST, config_name) == "test/"@ + config_name,
{
    assert(relative_path(ProcessMode::LOCAL, config_name) =~= config_name);
}

/// What is said when the configuration directory is missing.
pub open spec fn missing_directory_text() -> Seq<char> {
    "Le répertoire de configuration n'existe pas."@
}

/// What to do when the file of a configuration cannot be read.
#[derive(Debug, Clone, Copy, PartialEq, Eq, Hash, Structural)]
pub enum ConfigFallback {
    /// Report the failure.
    Fail,
    /// Ask the user for the values, and offer to write the file.
    Prompt,
}

/// A configuration file to read, as plain values.
pub struct ConfigRequestView {
    /// The configuration directory.
    pub directory: Seq<char>,
    /// The path of the file in that directory, without its extension.
    pub relative_path: Seq<char>,
    /// The format of the file.
    pub extension: LoaderExtension,
    /// What to do when the file cannot be read.
    pub fallback: ConfigFallback,
}

/// A configuration file to read: what the loader of structured files is
/// called with.
#[derive(Debug, Clone, PartialEq, Eq)]
pub struct ConfigRequest {
    /// The configuration directory.
    pub directory: String,
    /// The path of the file in that directory, without its extension.
    pub relative_path: String,
    /// The format of the file.
    pub extension: LoaderExtension,
    /// What to do when the file cannot be read.
    pub fallback: ConfigFallback,
}

impl View for ConfigRequest {
    type V = ConfigRequestView;

    open spec fn view(&self) -> ConfigRequestView {
        ConfigRequestView {
            directory: self.directory@,
            relative_path: self.relative_path@,
            extension: self.extension,
            fallback: self.fallback,
        }
    }
}

/// The request for `config_name` under `settings`, if they name a
/// configuration directory.
pub open spec fn request_of(
    settings: KernelSettingsView,
    config_name: Seq<char>,
    fallback: ConfigFallback,
) -> Option<ConfigRequestView> {
    match settings.directory.config {
        Some(directory) => Some(
            ConfigRequestView {
                directory,
                relative_path: relative_path(settings.process_mode, config_name),
                extension: settings.loader_extension,
                fallback,
            },
        ),
        None => None,
    }
}

/// The path of the configuration `config_name` in `mode`, relative to the
/// configuration directory.
pub fn mode_path(mode: ProcessMode, config_name: &str) -> (path: String)
    ensures
        path@ == relative_path(mode, config_name@),
{
    match mode {
        ProcessMode::LOCAL => {
            let path = String::from_str(config_name);
            proof {
                assert(path@ =~= relative_path(mode, config_name@));
            }
            path
        },
        ProcessMode::DEVELOPMENT => String::from_str("dev/").concat(config_name),
        ProcessMode::PRODUCTION => String::from_str("prod/").concat(config_name),
        ProcessMode::TEST => String::from_str("test/").concat(config_name),
    }
}

/// Says which file holds the configuration `config_name`, and with which
/// fallback it is to be read.
fn locate(config_name: &str, settings: &KernelSettings, fallback: ConfigFallback) -> (request:
    Result<ConfigRequest, KernelError>)
    ensures
        match request {
            Ok(request) => request_of(settings@, config_name@, fallback) == Some(request@),
            Err(error) => request_of(settings@, config_name@, fallback) is None && error
                is NotFound && error.text() == missing_directory_text(),
        },
{
    let relative_path = mode_path(settings.process_mode(), config_name);
    match settings.directory().config() {
        Some(directory) => Ok(
            ConfigRequest {
                directory: String::from_str(directory),
                relative_path,
                extension: settings.loader_extension(),
                fallback,
            },
        ),
        None => Err(
            KernelError::NotFound(String::from_str("Le répertoire de configuration n'existe pas.")),
        ),
    }
}

/// Says which file holds the configuration `config_name` of the mode the
/// application runs in.
///
/// The file lies in the configuration directory of `settings`: directly in
/// it on a developer's machine, and under `dev`, `prod` or `test` in the
/// other modes. Its format is the one of the settings. Without a
/// configuration directory there is no such file, and the error says so.
pub fn fetch_config(config_name: &str, settings: &KernelSettings) -> (request: Result<
    ConfigRequest,
    KernelError,
>)
    ensures
        match request {
            Ok(request) => request_of(settings@, config_name@, ConfigFallback::Fail) == Some(
                request@,
            ),
            Err(error) => settings@.directory.config is None && error is NotFound && error.text()
                == missing_directory_text(),
        },
{
    locate(config_name, settings, ConfigFallback::Fail)
}

/// Says which file holds the configuration `config_name` of the mode the
/// application runs in, for a reader that asks the user when the file
/// cannot be read.
pub fn fetch_config_or_prompt(config_name: &str, settings: &KernelSettings) -> (request: Result<
    ConfigRequest,
    KernelError,
>)
    ensures
        match request {
            Ok(request) => request_of(settings@, config_name@, ConfigFallback::Prompt) == Some(
                request@,
            ),
            Err(error) => settings@.directory.config is None && error is NotFound && error.text()
                == missing_directory_text(),
        },
{
    locate(config_name, settings, ConfigFallback::Prompt)
}

} // verus!
