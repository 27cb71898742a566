//! An application bootstrap kernel.
//!
//! The kernel gathers what an application needs before it starts: its name
//! and version, the directories it reads its configuration and environment
//! from, the execution mode it runs in, its command-line arguments, its
//! logger, and a diagnostic signal through which the bootstrap reports
//! problems without stopping.
//!
//! This crate holds the decisions of that bootstrap, each with a contract.
//! It reads no file, prints nothing and starts no thread: where a step needs
//! one of these, the kernel says what has to be done and takes the outcome
//! back as a plain value.
//!
//! An application is assembled in a chain of steps. The kernel begins as a
//! draft that says which file holds the settings of its adapter, and is
//! completed with what was read from it:
//!
//! ```text
//! let settings = KernelSettings::new("/app", mode, has_config, has_env);
//! let draft = Kernel::<Adapter, Env>::new("lexa-app", "0.1.0", settings);
//! let loaded = read(draft.request());
//! let kernel = draft.complete(loaded).include_env_vars().with_logger(logger);
//! let (introduction, adapter) = kernel.startup();
//! ```
//!
//! What the steps write to the diagnostic signal stays in the kernel until
//! it is taken out and handed to the workers of the signal, which render it.

pub mod config;
pub mod error;
pub mod extension;
pub mod interface;
pub mod kernel;
pub mod logger;
pub mod path;
pub mod process;
pub mod settings;
pub mod signal;
pub mod style;
pub mod wildcard;

pub use config::{fetch_config, fetch_config_or_prompt, ConfigFallback, ConfigRequest};
pub use error::KernelError;
pub use extension::cli::ApplicationCLIExtension;
pub use extension::env::ApplicationEnvExtension;
pub use extension::logger::ApplicationLoggerExtension;
pub use extension::startup::{ApplicationStartupCallableExtension, ApplicationStartupExtension};
pub use interface::{
    ApplicationAdapterEnvInterface,
    ApplicationAdapterInterface,
    ApplicationAdapterSettingsInterface,
    ApplicationCLIInterface,
    ApplicationEnvInterface,
};
pub use kernel::{Kernel, KernelDraft};
pub use logger::{
    LoggerBuilderError,
    LoggerFilter,
    LoggerSettings,
    LoggerSettingsLevel,
    LoggerSettingsPreset,
};
pub use process::ProcessMode;
pub use settings::{KernelSettings, KernelSettingsDirectory, LoaderExtension};
pub use signal::{Channel, LoggerReader, LoggerSignal, WorkerAction, WorkerEvent, WorkerState};
