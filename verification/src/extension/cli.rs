//! The command-line arguments of the application.

use vstd::prelude::*;

use crate::interface::ApplicationCLIInterface;
use crate::kernel::{Kernel, KernelView};

verus! {

/// The step that reads the command-line arguments of the application.
pub trait ApplicationCLIExtension<UserCLI>: Sized where UserCLI: ApplicationCLIInterface {
    /// The arguments that are kept, once they were read.
    spec fn kept_cli_args(&self) -> Option<UserCLI>;

    /// The command-line arguments of the application. They have to be read
    /// first, with [`ApplicationCLIExtension::include_cli_args`].
    fn cli_args(&self) -> (cli_args: &UserCLI)
        requires
            self.kept_cli_args() is Some,
        ensures
            self.kept_cli_args() == Some(*cli_args),
    ;

    /// Reads the command-line arguments of the application, as
    /// [`ApplicationCLIInterface::arguments`] gives them, and keeps them in
    /// place of those that were kept before.
    fn include_cli_args(self) -> (next: Self)
        ensures
            next.kept_cli_args() matches Some(cli_args) && call_ensures(
                UserCLI::arguments,
                (),
                cli_args,
            ),
    ;

    /// Keeps `cli_args` as the command-line arguments of the application, in
    /// place of those that were kept before.
    fn with_cli_args(self, cli_args: UserCLI) -> (next: Self)
        ensures
            next.kept_cli_args() == Some(cli_args),
    ;
}

impl<A, E, UserCLI> ApplicationCLIExtension<UserCLI> for Kernel<A, E, UserCLI> where
    UserCLI: ApplicationCLIInterface,
 {
    open spec fn kept_cli_args(&self) -> Option<UserCLI> {
        self@.cli_args
    }

    fn cli_args(&self) -> (cli_args: &UserCLI) {
        self.cli_arguments().unwrap()
    }

    fn include_cli_args(self) -> (next: Self)
        ensures
            next@ == (KernelView { cli_args: next@.cli_args, ..self@ }),
    {
        let arguments = UserCLI::arguments();
        self.with_cli_args(arguments)
    }

    fn with_cli_args(self, cli_args: UserCLI) -> (next: Self)
        ensures
            next@ == (KernelView { cli_args: Some(cli_args), ..self@ }),
    {
        let mut next = self;
        next.set_cli_args(cli_args);
        next
    }
}

/// The command-line arguments that were kept are those that are given back,
/// unchanged, whatever was kept before.
pub proof fn law_cli_round_trip<K, UserCLI>(before: K, after: K, cli_args: UserCLI, read: &UserCLI) where
    K: ApplicationCLIExtension<UserCLI>,
    UserCLI: ApplicationCLIInterface,

    requires
        call_ensures(K::with_cli_args, (before, cli_args), after),
        call_ensures(K::cli_args, (&after,), read),
    ensures
        call_requires(K::cli_args, (&after,)),
        *read == cli_args,
{
}

} // verus!
