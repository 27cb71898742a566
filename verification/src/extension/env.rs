//! The environment variables of the application.

use vstd::pervasive::strictly_cloned;
use vstd::prelude::*;

use crate::error::KernelError;
use crate::interface::{
    ApplicationAdapterEnvInterface,
    ApplicationAdapterInterface,
    ApplicationEnvInterface,
};
use crate::kernel::{Kernel, KernelDraft, KernelView};
use crate::path::{join, joined};
use crate::settings::KernelSettings;
use crate::signal::LoggerSignalView;

verus! {

/// The warning about an environment file that could not be read.
pub open spec fn env_failure_text(env_filepath: Seq<char>, reason: Seq<char>) -> Seq<char> {
    "Erreur liée aux variables d'environnement « "@ + env_filepath + " » : "@ + reason
}

/// The path of the environment file of this name and suffix in the
/// directory of the environment files.
pub open spec fn env_file_path(env_directory: Seq<char>, filename: Seq<char>, suffix: Seq<char>) -> Seq<
    char,
> {
    joined(env_directory, filename + suffix)
}

/// Writes the warning about an environment file that could not be read.
pub fn env_failure(env_filepath: &str, reason: &str) -> (text: String)
    ensures
        text@ == env_failure_text(env_filepath@, reason@),
{
    String::from_str("Erreur liée aux variables d'environnement « ").concat(env_filepath).concat(
        " » : ",
    ).concat(reason)
}

/// Names the environment file of this name and suffix under `settings`,
/// which have to name the directory of the environment files.
pub fn env_file(settings: &KernelSettings, filename: &str, suffix: &str) -> (env_filepath: String)
    requires
        settings@.directory.env is Some,
    ensures
        env_filepath@ == env_file_path(settings@.directory.env->0, filename@, suffix@),
{
    let name = String::from_str(filename).concat(suffix);
    join(settings.directory().env_sudo(), name.as_str())
}

/// What the reading of the environment variables goes by and changes.
pub struct EnvState<UserEnv> {
    /// The environment variables that are kept, once they were read.
    pub env_vars: Option<UserEnv>,
    /// The directory of the environment files, if there is one.
    pub env_directory: Option<Seq<char>>,
    /// The warnings written to the diagnostic signal and not taken out yet.
    pub warnings: Seq<Seq<char>>,
}

/// What becomes of `before` once `outcome` is taken as the outcome of
/// reading the file `env_filepath`.
///
/// The environment variables that were read are kept, in place of those that
/// were kept before, and nothing is written to the diagnostic signal. A
/// failure leaves the environment variables as they were, and writes one
/// warning that names the file and the reason.
pub open spec fn env_read<UserEnv>(
    before: EnvState<UserEnv>,
    env_filepath: Seq<char>,
    outcome: Result<UserEnv, KernelError>,
) -> EnvState<UserEnv> {
    match outcome {
        Ok(env_vars) => EnvState { env_vars: Some(env_vars), ..before },
        Err(error) => EnvState {
            warnings: before.warnings.push(env_failure_text(env_filepath, error.text())),
            ..before
        },
    }
}

/// Whether `after` is what becomes of the kernel `before` once `outcome` is
/// taken as the outcome of reading the file `env_filepath`.
///
/// The environment variables that were read are kept in place of those that
/// were kept before; nothing else changes but the adapter, which is handed
/// them. A failure changes nothing but the diagnostic signal, to which one
/// warning is written that names the file and the reason: the adapter and
/// the environment variables are as they were.
pub open spec fn env_taken<A, UserEnv, C>(
    before: KernelView<A, UserEnv, C>,
    after: KernelView<A, UserEnv, C>,
    env_filepath: Seq<char>,
    outcome: Result<UserEnv, KernelError>,
) -> bool where UserEnv: ApplicationEnvInterface, A: ApplicationAdapterEnvInterface<Env = UserEnv> {
    match outcome {
        Ok(env_vars) => after == (KernelView {
            application_adapter: after.application_adapter,
            env_vars: Some(env_vars),
            ..before
        }),
        Err(error) => after == (KernelView {
            logger_signal: LoggerSignalView {
                warnings: before.logger_signal.warnings.push(
                    env_failure_text(env_filepath, error.text()),
                ),
                ..before.logger_signal
            },
            ..before
        }),
    }
}

/// The step that reads the environment variables of the application.
pub trait ApplicationEnvExtension<UserEnv>: Sized where UserEnv: ApplicationEnvInterface {
    /// What the reading of the environment variables goes by and changes.
    spec fn env_state(&self) -> EnvState<UserEnv>;

    /// Redefines the directory of the environment files.
    fn define_env_directory(self, dir: &str) -> (next: Self)
        ensures
            next.env_state().env_directory is Some,
            next.env_state() == (EnvState {
                env_directory: next.env_state().env_directory,
                ..self.env_state()
            }),
    ;

    /// The environment variables of the application. They have to be read
    /// first, with [`ApplicationEnvExtension::include_env_vars`] or
    /// [`ApplicationEnvExtension::with_env_vars`].
    fn env(&self) -> (env: &UserEnv)
        requires
            self.env_state().env_vars is Some,
        ensures
            self.env_state().env_vars == Some(*env),
    ;

    /// Reads the environment variables of the application from the
    /// environment file of the application, which lies in the directory of
    /// the environment files: there has to be one. The file has the name
    /// that the application gives it, followed by the suffix that the
    /// application gives it under the settings of the kernel.
    ///
    /// A file that cannot be read does not stop the assembly: see
    /// [`ApplicationEnvExtension::with_env_vars`].
    fn include_env_vars(self) -> (next: Self)
        requires
            self.env_state().env_directory is Some,
        ensures
            exists|suffix: Seq<char>, outcome: Result<UserEnv, KernelError>|
                next.env_state() == #[trigger] env_read(
                    self.env_state(),
                    env_file_path(self.env_state().env_directory->0, UserEnv::FILENAME@, suffix),
                    outcome,
                ),
    ;

    /// Reads the environment variables of the application from the file
    /// `env_filepath`, as [`ApplicationEnvInterface::fetch_from_file`] reads
    /// them.
    ///
    /// A file that cannot be read does not stop the assembly: one warning is
    /// written to the diagnostic signal, and the environment variables are
    /// left as they were.
    fn with_env_vars(self, env_filepath: &str) -> (next: Self)
        ensures
            exists|outcome: Result<UserEnv, KernelError>|
                call_ensures(UserEnv::fetch_from_file, (env_filepath,), outcome)
                    && next.env_state() == #[trigger] env_read(
                    self.env_state(),
                    env_filepath@,
                    outcome,
                ),
    ;

    /// Takes the outcome of reading the file `env_filepath`.
    ///
    /// The environment variables that were read are kept, in place of those
    /// that were kept before, and nothing is written to the diagnostic
    /// signal. A failure leaves the environment variables as they were, and
    /// writes one warning that names the file and the reason.
    fn env_vars_fetched(self, env_filepath: &str, outcome: Result<UserEnv, KernelError>) -> (next:
        Self)
        ensures
            next.env_state() == env_read(self.env_state(), env_filepath@, outcome),
    ;
}

impl<A, UserEnv, C> ApplicationEnvExtension<UserEnv> for Kernel<A, UserEnv, C> where
    UserEnv: ApplicationEnvInterface,
    A: ApplicationAdapterEnvInterface<Env = UserEnv>,
 {
    open spec fn env_state(&self) -> EnvState<UserEnv> {
        EnvState {
            env_vars: self@.env_vars,
            env_directory: self@.settings.directory.env,
            warnings: self@.logger_signal.warnings,
        }
    }

    fn define_env_directory(self, dir: &str) -> (next: Self)
        ensures
            next@ == (KernelView {
                settings: self@.settings.with_env_directory(dir@),
                ..self@
            }),
    {
        let mut next = self;
        next.settings_mut().set_env_directory(dir);
        next
    }

    fn env(&self) -> (env: &UserEnv) {
        self.env_vars().unwrap()
    }

    /// The file is the one that [`env_file`] names with the suffix that
    /// [`ApplicationEnvInterface::with_suffix`] gave under the settings of
    /// the kernel, and the rest is as in `with_env_vars`.
    fn include_env_vars(self) -> (next: Self)
        ensures
            exists|suffix: String, env_filepath: &str, outcome: Result<UserEnv, KernelError>|
                #![trigger
                    call_ensures(UserEnv::with_suffix, (&self.kernel_settings(),), suffix),
                    call_ensures(UserEnv::fetch_from_file, (env_filepath,), outcome),
                ]
                call_ensures(UserEnv::with_suffix, (&self.kernel_settings(),), suffix)
                    && env_filepath@ == env_file_path(
                    self@.settings.directory.env->0,
                    UserEnv::FILENAME@,
                    suffix@,
                ) && call_ensures(UserEnv::fetch_from_file, (env_filepath,), outcome) && env_taken(
                    self@,
                    next@,
                    env_filepath@,
                    outcome,
                ) && (outcome matches Ok(env_vars) ==> exists|handed: UserEnv, adapter: &mut A|
                        #![trigger strictly_cloned(env_vars, handed), call_ensures(A::set_env, (adapter, handed), ())]
                        strictly_cloned(env_vars, handed) && call_ensures(
                            A::set_env,
                            (adapter, handed),
                            (),
                        ) && *adapter == self@.application_adapter && *final(adapter)
                            == next@.application_adapter),
    {
        let suffix = UserEnv::with_suffix(self.settings());
        let file = env_file(self.settings(), UserEnv::FILENAME, suffix.as_str());
        self.with_env_vars(file.as_str())
    }

    /// The outcome is the one that
    /// [`ApplicationEnvInterface::fetch_from_file`] gave for the file, and
    /// the rest is as in `env_vars_fetched`.
    fn with_env_vars(self, env_filepath: &str) -> (next: Self)
        ensures
            exists|outcome: Result<UserEnv, KernelError>|
                call_ensures(UserEnv::fetch_from_file, (env_filepath,), outcome)
                    && #[trigger] env_taken(self@, next@, env_filepath@, outcome) && (outcome
                    matches Ok(env_vars) ==> exists|handed: UserEnv, adapter: &mut A|
                        #![trigger strictly_cloned(env_vars, handed), call_ensures(A::set_env, (adapter, handed), ())]
                        strictly_cloned(env_vars, handed) && call_ensures(
                            A::set_env,
                            (adapter, handed),
                            (),
                        ) && *adapter == self@.application_adapter && *final(adapter)
                            == next@.application_adapter),
    {
        let outcome = UserEnv::fetch_from_file(env_filepath);
        self.env_vars_fetched(env_filepath, outcome)
    }

    /// The kernel changes as [`env_taken`] says. Where environment variables
    /// were read, the adapter is what
    /// [`ApplicationAdapterEnvInterface::set_env`] made of the adapter that
    /// the kernel had when it was handed a clone of them.
    fn env_vars_fetched(self, env_filepath: &str, outcome: Result<UserEnv, KernelError>) -> (next:
        Self)
        ensures
            env_taken(self@, next@, env_filepath@, outcome),
            outcome matches Ok(env_vars) ==> exists|handed: UserEnv, adapter: &mut A|
                #![trigger strictly_cloned(env_vars, handed), call_ensures(A::set_env, (adapter, handed), ())]
                strictly_cloned(env_vars, handed) && call_ensures(
                    A::set_env,
                    (adapter, handed),
                    (),
                ) && *adapter == self@.application_adapter && *final(adapter)
                    == next@.application_adapter,
    {
        let mut next = self;
        match outcome {
            Ok(env_vars) => {
                let handed = env_vars.clone();
                next.application_adapter_mut().set_env(handed);
                next.set_env_vars(env_vars);
                proof {
                    assert(strictly_cloned(env_vars, handed));
                }
            },
            Err(error) => {
                let text = env_failure(env_filepath, error.reason());
                next.signal_mut().send_warning(text.as_str());
            },
        }
        next
    }
}

/// The environment variables that were read are those that are read back.
///
/// Whatever a kernel kept before: once a file was read with success, the
/// environment variables can be asked for, and those that are given are
/// those that were read, unchanged.
pub proof fn law_env_round_trip<K, UserEnv>(
    before: K,
    after: K,
    env_filepath: &str,
    env_vars: UserEnv,
    read: &UserEnv,
) where K: ApplicationEnvExtension<UserEnv>, UserEnv: ApplicationEnvInterface
    requires
        call_ensures(K::env_vars_fetched, (before, env_filepath, Ok(env_vars)), after),
        call_ensures(K::env, (&after,), read),
    ensures
        call_requires(K::env, (&after,)),
        *read == env_vars,
{
}

/// A file that cannot be read costs one warning and nothing else.
///
/// Whatever a kernel kept before: once a file could not be read, the kernel
/// keeps the environment variables it kept, and the warnings written to its
/// diagnostic signal are those that were written before and one more, which
/// names the file and the reason.
pub proof fn law_env_failure_is_one_warning<K, UserEnv>(
    before: K,
    after: K,
    env_filepath: &str,
    error: KernelError,
) where K: ApplicationEnvExtension<UserEnv>, UserEnv: ApplicationEnvInterface
    requires
        call_ensures(K::env_vars_fetched, (before, env_filepath, Err(error)), after),
    ensures
        after.env_state().env_vars == before.env_state().env_vars,
        after.env_state().warnings.len() == before.env_state().warnings.len() + 1,
        after.env_state().warnings.drop_last() == before.env_state().warnings,
        after.env_state().warnings.last() == env_failure_text(env_filepath@, error.text()),
{
    assert(after.env_state().warnings.drop_last() =~= before.env_state().warnings);
}

/// A file that cannot be read changes nothing of the kernel but its
/// diagnostic signal: the adapter, the settings, the environment variables
/// and the command-line arguments are as they were, and so are the errors
/// written to the signal.
pub proof fn law_env_failure_keeps_the_kernel<A, UserEnv, C>(
    before: KernelView<A, UserEnv, C>,
    after: KernelView<A, UserEnv, C>,
    env_filepath: Seq<char>,
    error: KernelError,
) where UserEnv: ApplicationEnvInterface, A: ApplicationAdapterEnvInterface<Env = UserEnv>
    requires
        env_taken(before, after, env_filepath, Err(error)),
    ensures
        after == (KernelView { logger_signal: after.logger_signal, ..before }),
        after.logger_signal.errors == before.logger_signal.errors,
        after.logger_signal.warnings == before.logger_signal.warnings.push(
            env_failure_text(env_filepath, error.text()),
        ),
{
}

/// Before anything was read there is nothing to ask for.
///
/// A kernel that was begun and completed keeps no environment variables:
/// what [`ApplicationEnvExtension::env`] requires does not hold of it, and
/// [`Kernel::env_vars`] gives nothing.
pub proof fn law_env_absent_before_read<A, UserEnv, C>(
    application_name: &str,
    application_version: &str,
    settings: KernelSettings,
    draft: KernelDraft<A, UserEnv, C>,
    loaded: Result<A::Settings, KernelError>,
    kernel: Kernel<A, UserEnv, C>,
) where
    UserEnv: ApplicationEnvInterface,
    A: ApplicationAdapterInterface + ApplicationAdapterEnvInterface<Env = UserEnv>,

    requires
        call_ensures(
            Kernel::<A, UserEnv, C>::new,
            (application_name, application_version, settings),
            draft,
        ),
        call_ensures(KernelDraft::<A, UserEnv, C>::complete, (draft, loaded), kernel),
    ensures
        kernel.env_state().env_vars is None,
        forall|read: Option<&UserEnv>| #[trigger]
            call_ensures(Kernel::<A, UserEnv, C>::env_vars, (&kernel,), read) ==> read is None,
{
}

} // verus!
