//! The start of the application.

use vstd::prelude::*;

use crate::kernel::{Kernel, KernelView};
use crate::process::{mode_name, ProcessMode};
use crate::signal::texts;
use crate::style::{dressed, styled};

verus! {

/// The step that starts an application.
pub trait ApplicationStartupExtension: Sized {
    /// Starts the application.
    fn run(self);
}

/// The step that starts an application that needs something to start with.
pub trait ApplicationStartupCallableExtension: Sized {
    /// What the application starts with.
    type Callable;

    /// Starts the application.
    fn run(self, callable: Self::Callable);
}

/// What `std::fmt::Debug` writes for a `std::path::Path` of this text.
pub uninterp spec fn path_debug(path: Seq<char>) -> Seq<char>;

/// What `std::fmt::Debug` writes for an optional path.
pub open spec fn optional_path_debug(path: Option<Seq<char>>) -> Seq<char> {
    match path {
        Some(path) => "Some("@ + path_debug(path) + ")"@,
        None => "None"@,
    }
}

/// The first line of the introduction of an application.
pub open spec fn headline_of(name: Seq<char>, version: Seq<char>, mode: Seq<char>) -> Seq<char> {
    "Démarrage de l'application "@ + name + "@v"@ + version + " en mode "@ + mode + "."@
}

/// Whether `line` is the first line of the introduction of the application
/// of this name and version in `mode`, each of the three dressed for a
/// terminal.
pub open spec fn is_headline(
    line: Seq<char>,
    name: Seq<char>,
    version: Seq<char>,
    mode: ProcessMode,
) -> bool {
    exists|n: Seq<char>, v: Seq<char>, m: Seq<char>|
        dressed(n, name) && dressed(v, version) && dressed(m, mode_name(mode)) && line
            == #[trigger] headline_of(n, v, m)
}

/// Whether `lines` introduce the application of `kernel`: its name, its
/// version and its mode on the first line, and then its four directories,
/// between two empty lines.
pub open spec fn is_introduction<A, E, C>(lines: Seq<Seq<char>>, kernel: KernelView<A, E, C>) -> bool {
    &&& lines.len() == 7
    &&& is_headline(
        lines[0],
        kernel.application_name,
        kernel.application_version,
        kernel.settings.process_mode,
    )
    &&& lines[1] == Seq::<char>::empty()
    &&& lines[2] == "\tRépertoire racine du project: "@ + path_debug(
        kernel.settings.directory.project_root,
    )
    &&& lines[3] == "\tRépertoire racine de l'application: "@ + path_debug(
        kernel.settings.directory.application_root,
    )
    &&& lines[4] == "\tRépertoire de la configuration: "@ + optional_path_debug(
        kernel.settings.directory.config,
    )
    &&& lines[5] == "\tRépertoire des variables d'environnement: "@ + optional_path_debug(
        kernel.settings.directory.env,
    )
    &&& lines[6] == Seq::<char>::empty()
}

/// Formats `path` as a `std::path::Path` is formatted by `std::fmt::Debug`:
/// between double quotes, with what cannot be printed escaped.
#[verifier::external_body]
fn debug_path(path: &str) -> (text: String)
    ensures
        text@ == path_debug(path@),
{
    format!("{:?}", std::path::Path::new(path))
}

/// Formats an optional path as `std::fmt::Debug` does.
pub fn debug_optional_path(path: Option<&str>) -> (text: String)
    ensures
        text@ == optional_path_debug(
            match path {
                Some(path) => Some(path@),
                None => None,
            },
        ),
{
    match path {
        Some(path) => String::from_str("Some(").concat(debug_path(path).as_str()).concat(")"),
        None => String::from_str("None"),
    }
}

/// Writes the first line of the introduction of an application.
pub fn headline(name: &str, version: &str, mode: &str) -> (line: String)
    ensures
        line@ == headline_of(name@, version@, mode@),
{
    String::from_str("Démarrage de l'application ").concat(name).concat("@v").concat(
        version,
    ).concat(" en mode ").concat(mode).concat(".")
}

impl<A, E, C> Kernel<A, E, C> {
    /// The lines that introduce the application: its name in red, its
    /// version in red and underlined, its mode in white on cyan, and its
    /// directories.
    pub fn startup_information(&self) -> (lines: Vec<String>)
        ensures
            is_introduction(texts(lines@), self@),
    {
        let name = styled(self.application_name(), "red");
        let version = styled(self.application_version(), "red.underlined");
        let mode = styled(self.settings().process_mode().name(), "white.on_cyan");
        let directory = self.settings().directory();
        let mut lines: Vec<String> = Vec::new();
        lines.push(headline(name.as_str(), version.as_str(), mode.as_str()));
        lines.push(String::new());
        lines.push(
            String::from_str("\tRépertoire racine du project: ").concat(
                debug_path(directory.project_root()).as_str(),
            ),
        );
        lines.push(
            String::from_str("\tRépertoire racine de l'application: ").concat(
                debug_path(directory.application_root()).as_str(),
            ),
        );
        lines.push(
            String::from_str("\tRépertoire de la configuration: ").concat(
                debug_optional_path(directory.config()).as_str(),
            ),
        );
        lines.push(
            String::from_str("\tRépertoire des variables d'environnement: ").concat(
                debug_optional_path(directory.env()).as_str(),
            ),
        );
        lines.push(String::new());
        lines
    }

    /// Ends the assembly: gives the lines that introduce the application,
    /// if it is to introduce itself, and the adapter to start.
    pub fn startup(self) -> (start: (Option<Vec<String>>, A))
        ensures
            start.1 == self@.application_adapter,
            match start.0 {
                Some(lines) => self@.settings.startup_info && is_introduction(texts(lines@), self@),
                None => !self@.settings.startup_info,
            },
    {
        let introduction = if self.settings().startup_info() {
            Some(self.startup_information())
        } else {
            None
        };
        (introduction, self.into_adapter())
    }
}

} // verus!
