//! What an application brings to the kernel: its adapter, the settings of
//! the adapter, its environment variables and its command-line arguments.
//!
//! These traits are implemented by the application. The kernel calls them
//! and promises nothing of what they return.

use vstd::prelude::*;

use crate::error::KernelError;
use crate::settings::KernelSettings;

verus! {

/// The settings of an adapter.
///
/// They are read from a configuration file. Where the file cannot be read,
/// the adapter is made from the default settings.
pub trait ApplicationAdapterSettingsInterface: Sized + Default {
    /// The name of the configuration file of the settings, without its
    /// extension.
    const FILENAME: &'static str;
}

/// An adapter without settings has no file to read them from.
impl ApplicationAdapterSettingsInterface for () {
    const FILENAME: &'static str = "";
}

/// The adapter: the application that the kernel assembles and starts.
pub trait ApplicationAdapterInterface: Sized {
    /// The settings that the adapter is made from.
    type Settings: ApplicationAdapterSettingsInterface;

    /// Makes the adapter from its settings.
    fn new(settings: Self::Settings) -> Self;
}

/// The environment variables of an application.
pub trait ApplicationEnvInterface: Sized + Clone {
    /// The name of the environment file. The file lies in the directory of
    /// the environment files.
    const FILENAME: &'static str;

    /// What follows the name of the environment file under these settings:
    /// nothing, unless the application says otherwise.
    fn with_suffix(settings: &KernelSettings) -> (suffix: String)
        default_ensures
            suffix@ == Seq::<char>::empty(),
    {
        String::new()
    }

    /// Reads the environment variables from a file.
    fn fetch_from_file(env_filepath: &str) -> Result<Self, KernelError>;
}

/// An adapter that keeps the environment variables of the application.
pub trait ApplicationAdapterEnvInterface: Sized {
    /// The environment variables that the adapter keeps.
    type Env: ApplicationEnvInterface;

    /// The environment variables of the application.
    fn env(&self) -> &Self::Env;

    /// Hands the environment variables of the application to the adapter.
    fn set_env(&mut self, env: Self::Env);
}

/// The command-line arguments of an application.
pub trait ApplicationCLIInterface: Sized {
    /// Reads the arguments that the process was started with. An
    /// implementation is free to end the process on arguments it cannot
    /// take.
    fn arguments() -> Self;
}

} // verus!
