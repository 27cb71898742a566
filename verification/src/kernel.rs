//! The kernel: an application being assembled.

use vstd::prelude::*;

use crate::config::{
    fetch_config,
    fetch_config_or_prompt,
    missing_directory_text,
    request_of,
    ConfigFallback,
    ConfigRequest,
};
use crate::error::KernelError;
use crate::interface::{ApplicationAdapterInterface, ApplicationAdapterSettingsInterface};
use crate::settings::{KernelSettings, KernelSettingsView, LoaderExtension};
use crate::signal::{LoggerSignal, LoggerSignalView};

verus! {

/// A kernel, as plain values.
pub struct KernelView<ApplicationAdapter, UserEnv, UserCLI> {
    /// The name of the application.
    pub application_name: Seq<char>,
    /// The version of the application.
    pub application_version: Seq<char>,
    /// The adapter.
    pub application_adapter: ApplicationAdapter,
    /// The settings of the kernel.
    pub settings: KernelSettingsView,
    /// The environment variables, once they were read.
    pub env_vars: Option<UserEnv>,
    /// The command-line arguments, once they were read.
    pub cli_args: Option<UserCLI>,
    /// What was written to the diagnostic signal and not taken out yet.
    pub logger_signal: LoggerSignalView,
}

/// The kernel of an application.
///
/// It is assembled step by step: every step takes the kernel and gives it
/// back. Problems met on the way are written to the diagnostic signal and do
/// not stop the assembly.
pub struct Kernel<ApplicationAdapter, UserEnv = (), UserCLI = ()> {
    application_name: String,
    application_version: String,
    application_adapter: ApplicationAdapter,
    settings: KernelSettings,
    env_vars: Option<UserEnv>,
    cli_args: Option<UserCLI>,
    logger_signal: LoggerSignal,
}

impl<A, E, C> View for Kernel<A, E, C> {
    type V = KernelView<A, E, C>;

    closed spec fn view(&self) -> KernelView<A, E, C> {
        KernelView {
            application_name: self.application_name@,
            application_version: self.application_version@,
            application_adapter: self.application_adapter,
            settings: self.settings@,
            env_vars: self.env_vars,
            cli_args: self.cli_args,
            logger_signal: self.logger_signal@,
        }
    }
}

/// A kernel that waits for its adapter, as plain values.
pub struct KernelDraftView<UserEnv, UserCLI> {
    /// The name of the application.
    pub application_name: Seq<char>,
    /// The version of the application.
    pub application_version: Seq<char>,
    /// The settings of the kernel.
    pub settings: KernelSettingsView,
    /// The environment variables, once they were read.
    pub env_vars: Option<UserEnv>,
    /// The command-line arguments, once they were read.
    pub cli_args: Option<UserCLI>,
    /// What was written to the diagnostic signal and not taken out yet.
    pub logger_signal: LoggerSignalView,
}

/// A kernel that waits for its adapter.
///
/// The adapter is made from settings that are read from a file of the
/// configuration directory. A draft says which file that is, and becomes a
/// kernel with the outcome of reading it.
pub struct KernelDraft<ApplicationAdapter, UserEnv = (), UserCLI = ()> {
    application_name: String,
    application_version: String,
    settings: KernelSettings,
    env_vars: Option<UserEnv>,
    cli_args: Option<UserCLI>,
    logger_signal: LoggerSignal,
    adapter: core::marker::PhantomData<ApplicationAdapter>,
}

impl<A, E, C> View for KernelDraft<A, E, C> {
    type V = KernelDraftView<E, C>;

    closed spec fn view(&self) -> KernelDraftView<E, C> {
        KernelDraftView {
            application_name: self.application_name@,
            application_version: self.application_version@,
            settings: self.settings@,
            env_vars: self.env_vars,
            cli_args: self.cli_args,
            logger_signal: self.logger_signal@,
        }
    }
}

/// Whether `adapter` is what an application makes of the outcome `loaded` of
/// reading the settings of its adapter: the adapter of the settings that
/// were read or, where they could not be read, of the default settings.
pub open spec fn made_of<A: ApplicationAdapterInterface>(
    adapter: A,
    loaded: Result<A::Settings, KernelError>,
) -> bool {
    exists|settings: A::Settings| #[trigger]
        call_ensures(A::new, (settings,), adapter) && match loaded {
            Ok(read) => settings == read,
            Err(_) => call_ensures(<A::Settings as Default>::default, (), settings),
        }
}

impl<A: ApplicationAdapterInterface, E, C> KernelDraft<A, E, C> {
    /// Says which file holds the settings of the adapter: the configuration
    /// that goes by the name of the settings, under the settings of the
    /// kernel. See [`fetch_config`].
    pub fn request(&self) -> (request: Result<ConfigRequest, KernelError>)
        ensures
            match request {
                Ok(request) => request_of(
                    self@.settings,
                    <A::Settings as ApplicationAdapterSettingsInterface>::FILENAME@,
                    ConfigFallback::Fail,
                ) == Some(request@),
                Err(error) => self@.settings.directory.config is None && error is NotFound
                    && error.text() == missing_directory_text(),
            },
    {
        fetch_config(<A::Settings as ApplicationAdapterSettingsInterface>::FILENAME, &self.settings)
    }

    /// Makes the adapter of the outcome of reading its settings: of the
    /// settings that were read or, where they could not be read, of the
    /// default settings.
    pub fn make_adapter(loaded: Result<A::Settings, KernelError>) -> (adapter: A)
        ensures
            made_of(adapter, loaded),
    {
        let settings = match loaded {
            Ok(settings) => settings,
            Err(_) => <A::Settings as Default>::default(),
        };
        A::new(settings)
    }

    /// Completes the kernel with `adapter`.
    pub fn with_adapter(self, adapter: A) -> (kernel: Kernel<A, E, C>)
        ensures
            kernel@ == (KernelView {
                application_name: self@.application_name,
                application_version: self@.application_version,
                application_adapter: adapter,
                settings: self@.settings,
                env_vars: self@.env_vars,
                cli_args: self@.cli_args,
                logger_signal: self@.logger_signal,
            }),
    {
        Kernel {
            application_name: self.application_name,
            application_version: self.application_version,
            application_adapter: adapter,
            settings: self.settings,
            env_vars: self.env_vars,
            cli_args: self.cli_args,
            logger_signal: self.logger_signal,
        }
    }

    /// Completes the kernel with the outcome of reading the settings of the
    /// adapter. A file that could not be read is no failure: the adapter is
    /// then made of the default settings.
    pub fn complete(self, loaded: Result<A::Settings, KernelError>) -> (kernel: Kernel<A, E, C>)
        ensures
            made_of(kernel@.application_adapter, loaded),
            kernel@ == (KernelView {
                application_name: self@.application_name,
                application_version: self@.application_version,
                application_adapter: kernel@.application_adapter,
                settings: self@.settings,
                env_vars: self@.env_vars,
                cli_args: self@.cli_args,
                logger_signal: self@.logger_signal,
            }),
    {
        let adapter = Self::make_adapter(loaded);
        self.with_adapter(adapter)
    }
}

impl<A: ApplicationAdapterInterface, E, C> Kernel<A, E, C> {
    /// Begins the kernel of the application of this name and version under
    /// `settings`: nothing is read yet, nothing is written to the signal,
    /// and the adapter is to be made.
    pub fn new(application_name: &str, application_version: &str, settings: KernelSettings) -> (draft:
        KernelDraft<A, E, C>)
        ensures
            draft@ == (KernelDraftView::<E, C> {
                application_name: application_name@,
                application_version: application_version@,
                settings: settings@,
                env_vars: None,
                cli_args: None,
                logger_signal: LoggerSignalView {
                    name: application_name@,
                    version: application_version@,
                    warnings: Seq::empty(),
                    errors: Seq::empty(),
                },
            }),
    {
        KernelDraft {
            application_name: String::from_str(application_name),
            application_version: String::from_str(application_version),
            settings,
            env_vars: None,
            cli_args: None,
            logger_signal: LoggerSignal::create(application_name, application_version),
            adapter: core::marker::PhantomData,
        }
    }

    /// Redefines the directory of the configuration files: see
    /// [`crate::settings::KernelSettingsDirectory::set_config_directory`].
    ///
    /// The adapter was made of settings read from the former directory, so
    /// it is given up and has to be made again from the new one.
    pub fn define_config_directory(self, dir: &str) -> (draft: KernelDraft<A, E, C>)
        ensures
            draft@ == (KernelDraftView::<E, C> {
                application_name: self@.application_name,
                application_version: self@.application_version,
                settings: self@.settings.with_config_directory(dir@),
                env_vars: self@.env_vars,
                cli_args: self@.cli_args,
                logger_signal: self@.logger_signal,
            }),
    {
        let mut settings = self.settings;
        settings.set_config_directory(dir);
        KernelDraft {
            application_name: self.application_name,
            application_version: self.application_version,
            settings,
            env_vars: self.env_vars,
            cli_args: self.cli_args,
            logger_signal: self.logger_signal,
            adapter: core::marker::PhantomData,
        }
    }
}

impl<A, E, C> Kernel<A, E, C> {
    /// Redefines the root directory of the project: see
    /// [`crate::settings::KernelSettingsDirectory::set_project_directory`].
    pub fn define_project_directory(self, dir: &str) -> (kernel: Self)
        ensures
            kernel@ == (KernelView {
                settings: self@.settings.with_project_directory(dir@),
                ..self@
            }),
    {
        let mut kernel = self;
        kernel.settings.set_project_directory(dir);
        kernel
    }

    /// Redefines the format of the configuration files of the application.
    pub fn define_loader_extension(self, loader_extension: LoaderExtension) -> (kernel: Self)
        ensures
            kernel@ == (KernelView {
                settings: KernelSettingsView { loader_extension, ..self@.settings },
                ..self@
            }),
    {
        let mut kernel = self;
        kernel.settings.set_loader_extension(loader_extension);
        kernel
    }

    /// Says which file holds the configuration `config_name`: see
    /// [`fetch_config`].
    pub fn fetch_config(&self, config_name: &str) -> (request: Result<ConfigRequest, KernelError>)
        ensures
            match request {
                Ok(request) => request_of(self@.settings, config_name@, ConfigFallback::Fail)
                    == Some(request@),
                Err(error) => self@.settings.directory.config is None && error is NotFound
                    && error.text() == missing_directory_text(),
            },
    {
        fetch_config(config_name, &self.settings)
    }

    /// Says which file holds the configuration `config_name`, for a reader
    /// that asks the user when the file cannot be read: see
    /// [`fetch_config_or_prompt`].
    pub fn fetch_config_or_prompt(&self, config_name: &str) -> (request: Result<
        ConfigRequest,
        KernelError,
    >)
        ensures
            match request {
                Ok(request) => request_of(self@.settings, config_name@, ConfigFallback::Prompt)
                    == Some(request@),
                Err(error) => self@.settings.directory.config is None && error is NotFound
                    && error.text() == missing_directory_text(),
            },
    {
        fetch_config_or_prompt(config_name, &self.settings)
    }

    /// The settings of the kernel, of which the view of the kernel holds the
    /// view.
    pub closed spec fn kernel_settings(&self) -> KernelSettings {
        self.settings
    }

    /// The settings of the kernel.
    pub fn settings(&self) -> (settings: &KernelSettings)
        ensures
            *settings == self.kernel_settings(),
            settings@ == self@.settings,
    {
        &self.settings
    }

    /// The settings of the kernel, to redefine them. The adapter is left as
    /// it is, whatever is redefined.
    pub fn settings_mut(&mut self) -> (settings: &mut KernelSettings)
        ensures
            settings@ == old(self)@.settings,
            final(self)@ == (KernelView { settings: final(settings)@, ..old(self)@ }),
    {
        &mut self.settings
    }

    /// The adapter.
    pub fn application_adapter(&self) -> (adapter: &A)
        ensures
            *adapter == self@.application_adapter,
    {
        &self.application_adapter
    }

    /// The adapter, to change it.
    pub fn application_adapter_mut(&mut self) -> (adapter: &mut A)
        ensures
            *adapter == old(self)@.application_adapter,
            final(self)@ == (KernelView { application_adapter: *final(adapter), ..old(self)@ }),
    {
        &mut self.application_adapter
    }

    /// Gives up the kernel for its adapter.
    pub fn into_adapter(self) -> (adapter: A)
        ensures
            adapter == self@.application_adapter,
    {
        self.application_adapter
    }

    /// The environment variables, once they were read.
    pub fn env_vars(&self) -> (env_vars: Option<&E>)
        ensures
            match env_vars {
                Some(env_vars) => self@.env_vars == Some(*env_vars),
                None => self@.env_vars is None,
            },
    {
        self.env_vars.as_ref()
    }

    /// Keeps `env_vars` as the environment variables of the application,
    /// in place of those that were kept before.
    pub(crate) fn set_env_vars(&mut self, env_vars: E)
        ensures
            final(self)@ == (KernelView { env_vars: Some(env_vars), ..old(self)@ }),
    {
        self.env_vars = Some(env_vars);
    }

    /// The command-line arguments, once they were read.
    pub fn cli_arguments(&self) -> (cli_args: Option<&C>)
        ensures
            match cli_args {
                Some(cli_args) => self@.cli_args == Some(*cli_args),
                None => self@.cli_args is None,
            },
    {
        self.cli_args.as_ref()
    }

    /// Keeps `cli_args` as the command-line arguments of the application, in
    /// place of those that were kept before.
    pub(crate) fn set_cli_args(&mut self, cli_args: C)
        ensures
            final(self)@ == (KernelView { cli_args: Some(cli_args), ..old(self)@ }),
    {
        self.cli_args = Some(cli_args);
    }

    /// The name of the application.
    pub fn application_name(&self) -> (name: &str)
        ensures
            name@ == self@.application_name,
    {
        self.application_name.as_str()
    }

    /// The version of the application.
    pub fn application_version(&self) -> (version: &str)
        ensures
            version@ == self@.application_version,
    {
        self.application_version.as_str()
    }

    /// The diagnostic signal.
    pub fn signal(&self) -> (signal: &LoggerSignal)
        ensures
            signal@ == self@.logger_signal,
    {
        &self.logger_signal
    }

    /// The diagnostic signal, to write to it or to take out what was
    /// written.
    pub fn signal_mut(&mut self) -> (signal: &mut LoggerSignal)
        ensures
            signal@ == old(self)@.logger_signal,
            final(self)@ == (KernelView { logger_signal: final(signal)@, ..old(self)@ }),
    {
        &mut self.logger_signal
    }
}

} // verus!
