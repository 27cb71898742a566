//! The execution mode of a program.

use vstd::prelude::*;

verus! {

/// The modes a program can run in.
///
/// The mode selects the sub-directory configuration files are read from,
/// the default verbosity of the logger, and whatever else an application
/// wants to vary between a developer's machine and production.
#[derive(Debug, Clone, Copy, PartialEq, Eq, Hash, Structural)]
pub enum ProcessMode {
    /// The program runs on a developer's machine.
    LOCAL,
    /// The program runs in a development environment.
    DEVELOPMENT,
    /// The program runs in production.
    PRODUCTION,
    /// The program runs under test.
    TEST,
}

/// The name of a mode.
pub open spec fn mode_name(mode: ProcessMode) -> Seq<char> {
    match mode {
        ProcessMode::LOCAL => "LOCAL"@,
        ProcessMode::DEVELOPMENT => "DEVELOPMENT"@,
        ProcessMode::PRODUCTION => "PRODUCTION"@,
        ProcessMode::TEST => "TEST"@,
    }
}

impl ProcessMode {
    /// The name of the mode.
    pub fn name(&self) -> (name: &'static str)
        ensures
            name@ == mode_name(*self),
    {
        match self {
            ProcessMode::LOCAL => "LOCAL",
            ProcessMode::DEVELOPMENT => "DEVELOPMENT",
            ProcessMode::PRODUCTION => "PRODUCTION",
            ProcessMode::TEST => "TEST",
        }
    }

    /// Resolves the mode from the signals of the build: whether it is a test
    /// build, whether debug assertions are on, and whether the build was made
    /// for a container.
    ///
    /// A test build runs in `TEST`. Otherwise a build with debug assertions
    /// runs in `DEVELOPMENT` inside a container and in `LOCAL` outside of
    /// one, and a build without them runs in `PRODUCTION`.
    pub fn from_rustcfg(test: bool, debug_assertions: bool, docker: bool) -> (mode: ProcessMode)
        ensures
            test ==> mode == ProcessMode::TEST,
            !test && debug_assertions && docker ==> mode == ProcessMode::DEVELOPMENT,
            !test && debug_assertions && !docker ==> mode == ProcessMode::LOCAL,
            !test && !debug_assertions ==> mode == ProcessMode::PRODUCTION,
    {
        if test {
            ProcessMode::TEST
        } else if debug_assertions && docker {
            ProcessMode::DEVELOPMENT
        } else if debug_assertions {
            ProcessMode::LOCAL
        } else {
            ProcessMode::PRODUCTION
        }
    }
}

impl Default for ProcessMode {
    fn default() -> (mode: ProcessMode)
        ensures
            mode == ProcessMode::LOCAL,
    {
        ProcessMode::LOCAL
    }
}

} // verus!
