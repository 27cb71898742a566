//! The settings of the kernel: the directories of the application, the
//! format of its configuration files, and the mode it runs in.

use vstd::prelude::*;

use crate::path::{is_absolute, is_home_relative, join, joined, resolve, resolved};
use crate::process::ProcessMode;

verus! {

/// The formats a configuration file can be written in.
#[derive(Debug, Clone, Copy, PartialEq, Eq, Hash, Structural)]
pub enum LoaderExtension {
    /// An environment file.
    ENV,
    /// A `.json` file.
    JSON,
    /// A `.toml` file.
    TOML,
    /// A `.yml` file.
    YAML,
}

/// The directories of an application, as texts.
pub struct KernelSettingsDirectoryView {
    /// The root directory of the project.
    pub project_root: Seq<char>,
    /// The root directory of the application.
    pub application_root: Seq<char>,
    /// The directory of the configuration files, if there is one.
    pub config: Option<Seq<char>>,
    /// The directory of the environment files, if there is one.
    pub env: Option<Seq<char>>,
}

impl KernelSettingsDirectoryView {
    /// The directory that `dir` names under these roots: `dir` itself if it
    /// is absolute, what follows its marker under the project root if it
    /// begins with `~/`, and `dir` under the application root otherwise.
    pub open spec fn resolve(self, dir: Seq<char>) -> Seq<char> {
        resolved(self.project_root, self.application_root, dir)
    }

    /// These directories with the root of the project redefined as `dir`.
    pub open spec fn with_project_directory(self, dir: Seq<char>) -> Self {
        KernelSettingsDirectoryView { project_root: self.resolve(dir), ..self }
    }

    /// These directories with the directory of the configuration files
    /// redefined as `dir`.
    pub open spec fn with_config_directory(self, dir: Seq<char>) -> Self {
        KernelSettingsDirectoryView { config: Some(self.resolve(dir)), ..self }
    }

    /// These directories with the directory of the environment files
    /// redefined as `dir`.
    pub open spec fn with_env_directory(self, dir: Seq<char>) -> Self {
        KernelSettingsDirectoryView { env: Some(self.resolve(dir)), ..self }
    }
}

/// The directories of an application.
///
/// The application has a root and belongs to a project, which has a root
/// too; unless said otherwise they are the same. The directories of the
/// configuration and of the environment files are optional, and named either
/// absolutely, from the project root, or from the application root.
pub struct KernelSettingsDirectory {
    project_root: String,
    application_root: String,
    config: Option<String>,
    env: Option<String>,
}

impl View for KernelSettingsDirectory {
    type V = KernelSettingsDirectoryView;

    closed spec fn view(&self) -> KernelSettingsDirectoryView {
        KernelSettingsDirectoryView {
            project_root: self.project_root@,
            application_root: self.application_root@,
            config: match self.config {
                Some(directory) => Some(directory@),
                None => None,
            },
            env: match self.env {
                Some(directory) => Some(directory@),
                None => None,
            },
        }
    }
}

impl Default for KernelSettingsDirectory {
    fn default() -> (directory: KernelSettingsDirectory)
        ensures
            directory@ == (KernelSettingsDirectoryView {
                project_root: Seq::empty(),
                application_root: Seq::empty(),
                config: None,
                env: None,
            }),
    {
        KernelSettingsDirectory {
            project_root: String::new(),
            application_root: String::new(),
            config: None,
            env: None,
        }
    }
}

impl KernelSettingsDirectory {
    /// The directories of the application rooted at `root`.
    ///
    /// The project has the same root. The configuration directory is
    /// `config` under the root and the environment directory is `env` under
    /// the root, each of them only if it was found to be there.
    pub fn new(root: &str, has_config: bool, has_env: bool) -> (directory: KernelSettingsDirectory)
        ensures
            directory@ == (KernelSettingsDirectoryView {
                project_root: root@,
                application_root: root@,
                config: if has_config {
                    Some(joined(root@, "config"@))
                } else {
                    None
                },
                env: if has_env {
                    Some(joined(root@, "env"@))
                } else {
                    None
                },
            }),
    {
        KernelSettingsDirectory {
            project_root: String::from_str(root),
            application_root: String::from_str(root),
            config: if has_config {
                Some(join(root, "config"))
            } else {
                None
            },
            env: if has_env {
                Some(join(root, "env"))
            } else {
                None
            },
        }
    }

    /// The root directory of the project.
    pub fn project_root(&self) -> (root: &str)
        ensures
            root@ == self@.project_root,
    {
        self.project_root.as_str()
    }

    /// The root directory of the application.
    pub fn application_root(&self) -> (root: &str)
        ensures
            root@ == self@.application_root,
    {
        self.application_root.as_str()
    }

    /// The directory of the configuration files, if there is one.
    pub fn config(&self) -> (directory: Option<&str>)
        ensures
            match directory {
                Some(directory) => self@.config == Some(directory@),
                None => self@.config is None,
            },
    {
        match &self.config {
            Some(directory) => Some(directory.as_str()),
            None => None,
        }
    }

    /// The directory of the configuration files, for callers that cannot do
    /// without one.
    pub fn config_sudo(&self) -> (directory: &str)
        requires
            self@.config is Some,
        ensures
            self@.config == Some(directory@),
    {
        self.config.as_ref().unwrap().as_str()
    }

    /// The directory of the environment files, if there is one.
    pub fn env(&self) -> (directory: Option<&str>)
        ensures
            match directory {
                Some(directory) => self@.env == Some(directory@),
                None => self@.env is None,
            },
    {
        match &self.env {
            Some(directory) => Some(directory.as_str()),
            None => None,
        }
    }

    /// The directory of the environment files, for callers that cannot do
    /// without one.
    pub fn env_sudo(&self) -> (directory: &str)
        requires
            self@.env is Some,
        ensures
            self@.env == Some(directory@),
    {
        self.env.as_ref().unwrap().as_str()
    }

    /// Replaces the root directory of the project.
    ///
    /// An absolute `dir` is kept as it is. One that begins with `~/` is
    /// taken from the root that the project had, without the marker. Any
    /// other is taken from the application root.
    pub fn set_project_directory(&mut self, dir: &str)
        ensures
            final(self)@ == old(self)@.with_project_directory(dir@),
    {
        self.project_root = resolve(
            self.project_root.as_str(),
            self.application_root.as_str(),
            dir,
        );
    }

    /// Replaces the directory of the configuration files, whether there was
    /// one or not.
    ///
    /// An absolute `dir` is kept as it is. One that begins with `~/` is
    /// taken from the project root, without the marker. Any other is taken
    /// from the application root.
    pub fn set_config_directory(&mut self, dir: &str)
        ensures
            final(self)@ == old(self)@.with_config_directory(dir@),
    {
        self.config = Some(resolve(self.project_root.as_str(), self.application_root.as_str(), dir));
    }

    /// Replaces the directory of the environment files, whether there was
    /// one or not.
    ///
    /// An absolute `dir` is kept as it is. One that begins with `~/` is
    /// taken from the project root, without the marker. Any other is taken
    /// from the application root.
    pub fn set_env_directory(&mut self, dir: &str)
        ensures
            final(self)@ == old(self)@.with_env_directory(dir@),
    {
        self.env = Some(resolve(self.project_root.as_str(), self.application_root.as_str(), dir));
    }
}

/// The settings of the kernel, as plain values.
pub struct KernelSettingsView {
    /// The directories of the application.
    pub directory: KernelSettingsDirectoryView,
    /// The format of the configuration files.
    pub loader_extension: LoaderExtension,
    /// The mode the application runs in.
    pub process_mode: ProcessMode,
    /// Whether the application introduces itself when it starts.
    pub startup_info: bool,
}

impl KernelSettingsView {
    /// These settings with other directories.
    pub open spec fn with_directory(self, directory: KernelSettingsDirectoryView) -> Self {
        KernelSettingsView { directory, ..self }
    }

    /// These settings with the root of the project redefined as `dir`.
    pub open spec fn with_project_directory(self, dir: Seq<char>) -> Self {
        self.with_directory(self.directory.with_project_directory(dir))
    }

    /// These settings with the directory of the configuration files
    /// redefined as `dir`.
    pub open spec fn with_config_directory(self, dir: Seq<char>) -> Self {
        self.with_directory(self.directory.with_config_directory(dir))
    }

    /// These settings with the directory of the environment files redefined
    /// as `dir`.
    pub open spec fn with_env_directory(self, dir: Seq<char>) -> Self {
        self.with_directory(self.directory.with_env_directory(dir))
    }
}

/// The settings of the kernel.
///
/// The mode is fixed when the settings are made. The directories and the
/// format of the configuration files can be redefined afterwards.
pub struct KernelSettings {
    directory: KernelSettingsDirectory,
    loader_extension: LoaderExtension,
    process_mode: ProcessMode,
    startup_info: bool,
}

impl View for KernelSettings {
    type V = KernelSettingsView;

    closed spec fn view(&self) -> KernelSettingsView {
        KernelSettingsView {
            directory: self.directory@,
            loader_extension: self.loader_extension,
            process_mode: self.process_mode,
            startup_info: self.startup_info,
        }
    }
}

impl KernelSettings {
    /// The settings of the application rooted at `dir` that runs in
    /// `process_mode`.
    ///
    /// `has_config` and `has_env` say whether the directories `config` and
    /// `env` were found under the root: a directory that is not there is
    /// left out of the settings. The configuration files are YAML files and
    /// the application introduces itself when it starts.
    pub fn new(dir: &str, process_mode: ProcessMode, has_config: bool, has_env: bool) -> (settings:
        KernelSettings)
        ensures
            settings@ == (KernelSettingsView {
                directory: KernelSettingsDirectoryView {
                    project_root: dir@,
                    application_root: dir@,
                    config: if has_config {
                        Some(joined(dir@, "config"@))
                    } else {
                        None
                    },
                    env: if has_env {
                        Some(joined(dir@, "env"@))
                    } else {
                        None
                    },
                },
                loader_extension: LoaderExtension::YAML,
                process_mode,
                startup_info: true,
            }),
    {
        KernelSettings {
            directory: KernelSettingsDirectory::new(dir, has_config, has_env),
            loader_extension: LoaderExtension::YAML,
            process_mode,
            startup_info: true,
        }
    }

    /// The directories of the application.
    pub fn directory(&self) -> (directory: &KernelSettingsDirectory)
        ensures
            directory@ == self@.directory,
    {
        &self.directory
    }

    /// The format of the configuration files.
    pub fn loader_extension(&self) -> (extension: LoaderExtension)
        ensures
            extension == self@.loader_extension,
    {
        self.loader_extension
    }

    /// The mode the application runs in.
    pub fn process_mode(&self) -> (mode: ProcessMode)
        ensures
            mode == self@.process_mode,
    {
        self.process_mode
    }

    /// Whether the application introduces itself when it starts.
    pub fn startup_info(&self) -> (shown: bool)
        ensures
            shown == self@.startup_info,
    {
        self.startup_info
    }

    /// Replaces the root directory of the project: see
    /// [`KernelSettingsDirectory::set_project_directory`].
    pub fn set_project_directory(&mut self, dir: &str)
        ensures
            final(self)@ == old(self)@.with_project_directory(dir@),
    {
        self.directory.set_project_directory(dir);
    }

    /// Replaces the directory of the configuration files: see
    /// [`KernelSettingsDirectory::set_config_directory`].
    pub fn set_config_directory(&mut self, dir: &str)
        ensures
            final(self)@ == old(self)@.with_config_directory(dir@),
    {
        self.directory.set_config_directory(dir);
    }

    /// Replaces the directory of the environment files: see
    /// [`KernelSettingsDirectory::set_env_directory`].
    pub fn set_env_directory(&mut self, dir: &str)
        ensures
            final(self)@ == old(self)@.with_env_directory(dir@),
    {
        self.directory.set_env_directory(dir);
    }

    /// Replaces the format of the configuration files.
    pub fn set_loader_extension(&mut self, loader_extension: LoaderExtension)
        ensures
            final(self)@ == (KernelSettingsView { loader_extension, ..old(self)@ }),
    {
        self.loader_extension = loader_extension;
    }

    /// Says whether the application introduces itself when it starts.
    pub fn set_startup_info(&mut self, startup_info: bool)
        ensures
            final(self)@ == (KernelSettingsView { startup_info, ..old(self)@ }),
    {
        self.startup_info = startup_info;
    }
}

/// An absolute directory is stored as it is given, whatever the roots.
pub proof fn law_absolute_directory_kept(directory: KernelSettingsDirectoryView, dir: Seq<char>)
    requires
        is_absolute(dir),
    ensures
        directory.resolve(dir) == dir,
        directory.with_config_directory(dir).config == Some(dir),
        directory.with_env_directory(dir).env == Some(dir),
        directory.with_project_directory(dir).project_root == dir,
{
}

/// A directory that begins with `~/` is taken from the project root: what
/// follows the marker is adjoined to that root, and the application root
/// plays no part.
pub proof fn law_home_directory_from_project_root(
    directory: KernelSettingsDirectoryView,
    dir: Seq<char>,
)
    requires
        is_home_relative(dir),
    ensures
        directory.resolve(dir) == joined(directory.project_root, dir.subrange(2, dir.len() as int)),
        directory.with_config_directory(dir).config == Some(
            joined(directory.project_root, dir.subrange(2, dir.len() as int)),
        ),
{
}

/// Any other directory is taken from the application root: it is adjoined
/// to that root, and the project root plays no part.
pub proof fn law_relative_directory_from_application_root(
    directory: KernelSettingsDirectoryView,
    dir: Seq<char>,
)
    requires
        !is_absolute(dir),
        !is_home_relative(dir),
    ensures
        directory.resolve(dir) == joined(directory.application_root, dir),
        directory.with_config_directory(dir).config == Some(
            joined(directory.application_root, dir),
        ),
{
}

/// A directory that is redefined replaces the one that was defined before,
/// of which nothing is left.
pub proof fn law_directory_overwritten(
    directory: KernelSettingsDirectoryView,
    first: Seq<char>,
    second: Seq<char>,
)
    ensures
        directory.with_config_directory(first).with_config_directory(second)
            == directory.with_config_directory(second),
        directory.with_env_directory(first).with_env_directory(second)
            == directory.with_env_directory(second),
{
}

} // verus!
