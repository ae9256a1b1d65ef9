//! The two-phase installation of a project: a virtual environment, then the
//! project's requirements, with the environment removed again when a phase fails.
//!
//! [`InstallStage::advance`] decides the order of the work and what each
//! failure becomes; the caller creates the output files, runs the two
//! processes and removes the environment directory as it is told, and reports
//! back what happened.

use crate::process::{CancellationError, ProcessKillAndWaitError, ProcessRunError};
use crate::project_check::ProjectCheckError;
use crate::text::texts;
use crate::status::{
    KilledTerminationStatus, Platform, Status, TerminationStatus, TerminationWithErrorStatus,
};
use std::io::Error as IoError;
use std::path::PathBuf;
use vstd::prelude::*;

verus! {

/// Attempts at removing the environment directory before giving up.
pub const CLEAN_UP_MAX_ATTEMPTS: u16 = 5;

/// Seconds to wait after a failed removal attempt.
pub const CLEAN_UP_DELAY_SECS: u64 = 2;

/// Capacity of each line channel between a phase and its output files.
pub const LINE_CHANNEL_CAPACITY: usize = 100;

/// The pip executable inside the environment's scripts directory.
pub const PIP_EXECUTABLE: &'static str = "pip3";

/// An output file could not be created.
#[derive(Debug)]
pub enum CreateFileError {
    CouldNotCreateFile(IoError, PathBuf),
}

/// Why a phase could not be started.
#[derive(Debug)]
pub enum SubStartInstallError {
    CreateFileError(CreateFileError),
}

/// Why a phase that ran did not succeed.
#[derive(Debug)]
pub enum SubInstallError {
    /// The process could not be run.
    RunError(ProcessRunError),
    /// The process was killed.
    Killed(KilledTerminationStatus),
    /// The process ended unsuccessfully by itself.
    TerminatedWithError(TerminationWithErrorStatus),
    /// The run returned a status that is not a termination.
    UnexpectedStatus(Status),
}

/// A phase failure; the environment directory is removed before it is reported.
#[derive(Debug)]
pub enum ErrorThatTriggersCleanUp {
    VenvInstallError(SubInstallError),
    RequirementsInstallError(SubInstallError),
}

/// Every removal attempt failed; the errors of all attempts, in order.
#[derive(Debug)]
pub struct MaxAttemptsExceeded(pub Vec<IoError>);

/// Why the environment directory could not be removed.
#[derive(Debug)]
pub enum DeleteEnvironmentDirError {
    CouldNotCheckIfDirExists(IoError),
    MaxAttemptsExceeded(MaxAttemptsExceeded),
}

/// Why clean-up failed.
#[derive(Debug)]
pub enum CleanUpError {
    CouldNotDeleteEnvironment(DeleteEnvironmentDirError),
}

/// Why an installation failed.
#[derive(Debug)]
pub enum InstallError {
    /// A path is not valid UTF-8.
    FailedToConvertPathBufToString(PathBuf),
    /// The environment phase could not be started.
    VenvStartError(SubStartInstallError),
    /// The requirements phase could not be started.
    RequirementsStartError(SubStartInstallError),
    /// A phase failed, and the environment directory was cleaned up.
    ErrorThatTriggersCleanUp(ErrorThatTriggersCleanUp),
    /// A phase failed, and cleaning up failed too.
    CleanUpError(ErrorThatTriggersCleanUp, CleanUpError),
}

/// Why a check-and-install failed.
#[derive(Debug)]
pub enum CheckAndInstallError {
    CheckError(ProjectCheckError),
    InstallError(InstallError),
}

/// A kill-and-wait failure of one of the two phases.
#[derive(Debug)]
pub enum InstallerKillAndWaitError {
    VenvKillAndWaitError(ProcessKillAndWaitError),
    ReqKillAndWaitError(ProcessKillAndWaitError),
}

/// Why neither phase could be cancelled.
#[derive(Debug)]
pub enum SendingCancellationSignalToInstallerError {
    VenvCancellationError(CancellationError),
    ReqCancellationError(CancellationError),
}

/// The two phases of an installation.
#[derive(Debug, Clone, Copy, PartialEq, Eq, Structural)]
pub enum Phase {
    /// `python3 -m venv <env_dir>`.
    Venv,
    /// `<pip> install -r requirements.txt`.
    Requirements,
}

/// The files, under the project directory, that receive the phases' output.
#[derive(Debug, Clone, Copy, PartialEq, Eq, Structural)]
pub enum OutputFile {
    VenvOut,
    VenvErr,
    ReqOut,
    ReqErr,
}

/// The file's name.
pub open spec fn output_file_name_spec(f: OutputFile) -> Seq<char> {
    match f {
        OutputFile::VenvOut => "venv_out.txt"@,
        OutputFile::VenvErr => "venv_err.txt"@,
        OutputFile::ReqOut => "req_out.txt"@,
        OutputFile::ReqErr => "req_err.txt"@,
    }
}

/// The phase whose output the file receives.
pub open spec fn output_file_phase(f: OutputFile) -> Phase {
    match f {
        OutputFile::VenvOut | OutputFile::VenvErr => Phase::Venv,
        OutputFile::ReqOut | OutputFile::ReqErr => Phase::Requirements,
    }
}

impl OutputFile {
    /// The file's name under the project directory.
    pub fn file_name(self) -> (r: &'static str)
        ensures
            r@ == output_file_name_spec(self),
    {
        match self {
            OutputFile::VenvOut => "venv_out.txt",
            OutputFile::VenvErr => "venv_err.txt",
            OutputFile::ReqOut => "req_out.txt",
            OutputFile::ReqErr => "req_err.txt",
        }
    }
}

/// The output files, in the order they are created.
pub fn output_files() -> (r: Vec<OutputFile>)
    ensures
        r@ == seq![OutputFile::VenvOut, OutputFile::VenvErr, OutputFile::ReqOut, OutputFile::ReqErr],
{
    let r = vec![OutputFile::VenvOut, OutputFile::VenvErr, OutputFile::ReqOut, OutputFile::ReqErr];
    assert(r@ =~= seq![OutputFile::VenvOut, OutputFile::VenvErr, OutputFile::ReqOut, OutputFile::ReqErr]);
    r
}

/// A failure to create an output file keeps the phase from starting.
pub open spec fn start_error_spec(file: OutputFile, e: CreateFileError) -> InstallError {
    match output_file_phase(file) {
        Phase::Venv => InstallError::VenvStartError(SubStartInstallError::CreateFileError(e)),
        Phase::Requirements => InstallError::RequirementsStartError(
            SubStartInstallError::CreateFileError(e),
        ),
    }
}

/// The error for an output file that could not be created.
pub fn start_error(file: OutputFile, e: CreateFileError) -> (r: InstallError)
    ensures
        r == start_error_spec(file, e),
{
    match file {
        OutputFile::VenvOut | OutputFile::VenvErr => InstallError::VenvStartError(
            SubStartInstallError::CreateFileError(e),
        ),
        OutputFile::ReqOut | OutputFile::ReqErr => InstallError::RequirementsStartError(
            SubStartInstallError::CreateFileError(e),
        ),
    }
}

/// The failure of `phase`, tagged with the phase.
pub open spec fn phase_error_spec(phase: Phase, e: SubInstallError) -> ErrorThatTriggersCleanUp {
    match phase {
        Phase::Venv => ErrorThatTriggersCleanUp::VenvInstallError(e),
        Phase::Requirements => ErrorThatTriggersCleanUp::RequirementsInstallError(e),
    }
}

/// What a phase's run means for the installation: only a successful
/// termination lets it go on.
pub open spec fn phase_outcome_spec(phase: Phase, result: Result<Status, ProcessRunError>) -> Result<
    (),
    ErrorThatTriggersCleanUp,
> {
    match result {
        Ok(Status::Terminated(TerminationStatus::TerminatedSuccessfully)) => Ok(()),
        Ok(Status::Terminated(TerminationStatus::Killed(k))) => Err(
            phase_error_spec(phase, SubInstallError::Killed(k)),
        ),
        Ok(Status::Terminated(TerminationStatus::TerminatedWithError(t))) => Err(
            phase_error_spec(phase, SubInstallError::TerminatedWithError(t)),
        ),
        Ok(st) => Err(phase_error_spec(phase, SubInstallError::UnexpectedStatus(st))),
        Err(e) => Err(phase_error_spec(phase, SubInstallError::RunError(e))),
    }
}

fn phase_error(phase: Phase, e: SubInstallError) -> (r: ErrorThatTriggersCleanUp)
    ensures
        r == phase_error_spec(phase, e),
{
    match phase {
        Phase::Venv => ErrorThatTriggersCleanUp::VenvInstallError(e),
        Phase::Requirements => ErrorThatTriggersCleanUp::RequirementsInstallError(e),
    }
}

/// Maps the result of a phase's run to the installation's view of it.
pub fn phase_outcome(phase: Phase, result: Result<Status, ProcessRunError>) -> (r: Result<
    (),
    ErrorThatTriggersCleanUp,
>)
    ensures
        r == phase_outcome_spec(phase, result),
{
    match result {
        Ok(status) => match status {
            Status::Terminated(term) => match term {
                TerminationStatus::TerminatedSuccessfully => Ok(()),
                TerminationStatus::Killed(k) => Err(phase_error(phase, SubInstallError::Killed(k))),
                TerminationStatus::TerminatedWithError(t) => Err(
                    phase_error(phase, SubInstallError::TerminatedWithError(t)),
                ),
            },
            _ => Err(phase_error(phase, SubInstallError::UnexpectedStatus(status))),
        },
        Err(e) => Err(phase_error(phase, SubInstallError::RunError(e))),
    }
}

/// A program to run, with its arguments and working directory.
#[derive(Debug, Clone)]
pub struct CommandSpec {
    pub program: String,
    pub args: Vec<String>,
    pub current_dir: String,
}

fn owned(s: &str) -> (r: String)
    ensures
        r@ == s@,
{
    s.to_owned()
}

/// `python3 -m venv <env_dir>`, run in the project directory.
pub fn venv_command(env_dir: &str, project_dir: &str) -> (r: CommandSpec)
    ensures
        r.program@ == "python3"@,
        texts(r.args@) == seq!["-m"@, "venv"@, env_dir@],
        r.current_dir@ == project_dir@,
{
    let args = vec![owned("-m"), owned("venv"), owned(env_dir)];
    assert(texts(args@) =~= seq!["-m"@, "venv"@, env_dir@]);
    CommandSpec { program: owned("python3"), args, current_dir: owned(project_dir) }
}

/// `<pip_path> install -r requirements.txt`, run in the project directory.
pub fn requirements_command(pip_path: &str, project_dir: &str) -> (r: CommandSpec)
    ensures
        r.program@ == pip_path@,
        texts(r.args@) == seq!["install"@, "-r"@, "requirements.txt"@],
        r.current_dir@ == project_dir@,
{
    let args = vec![owned("install"), owned("-r"), owned("requirements.txt")];
    assert(texts(args@) =~= seq!["install"@, "-r"@, "requirements.txt"@]);
    CommandSpec { program: owned(pip_path), args, current_dir: owned(project_dir) }
}

/// The directory of the environment that holds its executables.
pub fn scripts_dir_name(platform: Platform) -> (r: &'static str)
    ensures
        r@ == (match platform {
            Platform::Windows => "Scripts"@,
            Platform::Unix => "bin"@,
        }),
{
    match platform {
        Platform::Windows => "Scripts",
        Platform::Unix => "bin",
    }
}

/// The removal attempts of a directory, up to a budget.
#[derive(Debug)]
pub struct RemovalRetry {
    /// The most attempts that will be made.
    pub max_attempts: u16,
    /// The errors of the failed attempts so far, in order.
    pub errors: Vec<IoError>,
}

impl RemovalRetry {
    /// No attempt made yet.
    pub fn new(max_attempts: u16) -> (r: RemovalRetry)
        ensures
            r.max_attempts == max_attempts,
            r.errors@.len() == 0,
    {
        RemovalRetry { max_attempts, errors: Vec::new() }
    }

    /// Whether another attempt may be made.
    pub fn has_attempts_left(&self) -> (r: bool)
        ensures
            r == (self.errors@.len() < self.max_attempts),
    {
        self.errors.len() < self.max_attempts as usize
    }

    /// Records a failed attempt; the caller waits the delay before going on.
    pub fn record_failure(&mut self, e: IoError)
        requires
            old(self).errors@.len() < old(self).max_attempts,
        ensures
            final(self).max_attempts == old(self).max_attempts,
            final(self).errors@ == old(self).errors@.push(e),
    {
        self.errors.push(e);
    }

    /// An attempt succeeded: the errors of the attempts that failed before it.
    pub fn succeeded(self) -> (r: Vec<IoError>)
        ensures
            r@ == self.errors@,
    {
        self.errors
    }

    /// The attempts ran out: every error, in order.
    pub fn exceeded(self) -> (r: MaxAttemptsExceeded)
        ensures
            r.0@ == self.errors@,
    {
        MaxAttemptsExceeded(self.errors)
    }
}

/// What to do after checking whether the environment directory exists.
#[derive(Debug)]
pub enum EnvDirCleanUp {
    /// It exists: remove it, retrying per [`RemovalRetry`].
    Remove,
    /// Clean-up is over, with this result.
    Done(Result<(), CleanUpError>),
}

/// An existing environment directory is removed; a missing one needs nothing.
pub open spec fn env_dir_checked_spec(exists: Result<bool, IoError>) -> EnvDirCleanUp {
    match exists {
        Ok(true) => EnvDirCleanUp::Remove,
        Ok(false) => EnvDirCleanUp::Done(Ok(())),
        Err(e) => EnvDirCleanUp::Done(
            Err(
                CleanUpError::CouldNotDeleteEnvironment(
                    DeleteEnvironmentDirError::CouldNotCheckIfDirExists(e),
                ),
            ),
        ),
    }
}

/// The first step of clean-up, from whether the environment directory exists.
pub fn env_dir_checked(exists: Result<bool, IoError>) -> (r: EnvDirCleanUp)
    ensures
        r == env_dir_checked_spec(exists),
{
    match exists {
        Ok(true) => EnvDirCleanUp::Remove,
        Ok(false) => EnvDirCleanUp::Done(Ok(())),
        Err(e) => EnvDirCleanUp::Done(
            Err(
                CleanUpError::CouldNotDeleteEnvironment(
                    DeleteEnvironmentDirError::CouldNotCheckIfDirExists(e),
                ),
            ),
        ),
    }
}

/// The result of clean-up once the removal attempts ended.
pub open spec fn env_dir_removed_spec(removal: Result<(), MaxAttemptsExceeded>) -> Result<
    (),
    CleanUpError,
> {
    match removal {
        Ok(()) => Ok(()),
        Err(m) => Err(
            CleanUpError::CouldNotDeleteEnvironment(DeleteEnvironmentDirError::MaxAttemptsExceeded(m)),
        ),
    }
}

/// The result of clean-up once the removal attempts ended.
pub fn env_dir_removed(removal: Result<(), MaxAttemptsExceeded>) -> (r: Result<(), CleanUpError>)
    ensures
        r == env_dir_removed_spec(removal),
{
    match removal {
        Ok(()) => Ok(()),
        Err(m) => Err(
            CleanUpError::CouldNotDeleteEnvironment(DeleteEnvironmentDirError::MaxAttemptsExceeded(m)),
        ),
    }
}

/// A phase failure after clean-up: reported alone when clean-up succeeded, and
/// together with the clean-up failure otherwise.
pub open spec fn cleaned_up_error_spec(
    error: ErrorThatTriggersCleanUp,
    clean_up: Result<(), CleanUpError>,
) -> InstallError {
    match clean_up {
        Ok(()) => InstallError::ErrorThatTriggersCleanUp(error),
        Err(c) => InstallError::CleanUpError(error, c),
    }
}

/// Where an installation stands.
#[derive(Debug)]
pub enum InstallStage {
    /// Nothing done yet.
    NotStarted,
    /// The output files are being created.
    CreatingFiles,
    /// The environment phase runs.
    RunningVenv,
    /// The requirements phase runs.
    RunningRequirements,
    /// The environment directory is being removed after this failure.
    CleaningUp(ErrorThatTriggersCleanUp),
    /// The installation returned.
    Finished,
}

/// What happened since the last action.
#[derive(Debug)]
pub enum InstallEvent {
    /// The paths were turned into text, or this one could not be.
    Started(Result<(), PathBuf>),
    /// The output files were created in order, or this one could not be.
    FilesCreated(Result<(), (OutputFile, CreateFileError)>),
    /// The environment phase's run returned.
    VenvFinished(Result<Status, ProcessRunError>),
    /// The requirements phase's run returned.
    RequirementsFinished(Result<Status, ProcessRunError>),
    /// Clean-up ended.
    CleanedUp(Result<(), CleanUpError>),
}

/// What to do next.
#[derive(Debug)]
pub enum InstallAction {
    /// Create the output files in the order of [`output_files`].
    CreateFiles,
    /// Start relaying the environment phase's output, and run [`venv_command`].
    RunVenv,
    /// Start relaying the requirements phase's output, and run [`requirements_command`].
    RunRequirements,
    /// Remove the environment directory: [`env_dir_checked`], then [`RemovalRetry`].
    CleanUp,
    /// Return this from `install`.
    Done(Result<(), InstallError>),
}

/// The events that can arrive at a stage.
pub open spec fn install_accepts(s: InstallStage, e: InstallEvent) -> bool {
    match e {
        InstallEvent::Started(_) => s is NotStarted,
        InstallEvent::FilesCreated(_) => s is CreatingFiles,
        InstallEvent::VenvFinished(_) => s is RunningVenv,
        InstallEvent::RequirementsFinished(_) => s is RunningRequirements,
        InstallEvent::CleanedUp(_) => s is CleaningUp,
    }
}

/// After a phase's run: go on, or clean up after its failure.
pub open spec fn after_phase_spec(
    phase: Phase,
    result: Result<Status, ProcessRunError>,
    next: InstallAction,
) -> (InstallStage, InstallAction) {
    match phase_outcome_spec(phase, result) {
        Ok(()) => match next {
            InstallAction::RunRequirements => (InstallStage::RunningRequirements, next),
            _ => (InstallStage::Finished, next),
        },
        Err(e) => (InstallStage::CleaningUp(e), InstallAction::CleanUp),
    }
}

/// One step of an installation.
pub open spec fn install_next(s: InstallStage, e: InstallEvent) -> (InstallStage, InstallAction) {
    match e {
        InstallEvent::Started(Ok(())) => (InstallStage::CreatingFiles, InstallAction::CreateFiles),
        InstallEvent::Started(Err(p)) => (
            InstallStage::Finished,
            InstallAction::Done(Err(InstallError::FailedToConvertPathBufToString(p))),
        ),
        InstallEvent::FilesCreated(Ok(())) => (InstallStage::RunningVenv, InstallAction::RunVenv),
        InstallEvent::FilesCreated(Err((file, err))) => (
            InstallStage::Finished,
            InstallAction::Done(Err(start_error_spec(file, err))),
        ),
        InstallEvent::VenvFinished(r) => after_phase_spec(Phase::Venv, r, InstallAction::RunRequirements),
        InstallEvent::RequirementsFinished(r) => after_phase_spec(
            Phase::Requirements,
            r,
            InstallAction::Done(Ok(())),
        ),
        InstallEvent::CleanedUp(c) => (
            InstallStage::Finished,
            InstallAction::Done(Err(cleaned_up_error_spec(s->CleaningUp_0, c))),
        ),
    }
}

impl InstallStage {
    /// An installation that has not started.
    pub fn new() -> (r: InstallStage)
        ensures
            r is NotStarted,
    {
        InstallStage::NotStarted
    }

    /// Takes one step: the next stage, and the action to perform.
    pub fn advance(self, event: InstallEvent) -> (r: (InstallStage, InstallAction))
        requires
            install_accepts(self, event),
        ensures
            r == install_next(self, event),
    {
        match event {
            InstallEvent::Started(Ok(())) => (InstallStage::CreatingFiles, InstallAction::CreateFiles),
            InstallEvent::Started(Err(p)) => (
                InstallStage::Finished,
                InstallAction::Done(Err(InstallError::FailedToConvertPathBufToString(p))),
            ),
            InstallEvent::FilesCreated(Ok(())) => (InstallStage::RunningVenv, InstallAction::RunVenv),
            InstallEvent::FilesCreated(Err((file, err))) => (
                InstallStage::Finished,
                InstallAction::Done(Err(start_error(file, err))),
            ),
            InstallEvent::VenvFinished(r) => match phase_outcome(Phase::Venv, r) {
                Ok(()) => (InstallStage::RunningRequirements, InstallAction::RunRequirements),
                Err(e) => (InstallStage::CleaningUp(e), InstallAction::CleanUp),
            },
            InstallEvent::RequirementsFinished(r) => match phase_outcome(Phase::Requirements, r) {
                Ok(()) => (InstallStage::Finished, InstallAction::Done(Ok(()))),
                Err(e) => (InstallStage::CleaningUp(e), InstallAction::CleanUp),
            },
            InstallEvent::CleanedUp(c) => {
                let error = match self {
                    InstallStage::CleaningUp(error) => error,
                    _ => {
                        proof {
                            assert(false);
                        }
                        ErrorThatTriggersCleanUp::VenvInstallError(
                            SubInstallError::UnexpectedStatus(Status::Created),
                        )
                    },
                };
                let done = match c {
                    Ok(()) => InstallError::ErrorThatTriggersCleanUp(error),
                    Err(c) => InstallError::CleanUpError(error, c),
                };
                (InstallStage::Finished, InstallAction::Done(Err(done)))
            },
        }
    }
}

/// The composite cancellation after the environment phase was asked.
#[derive(Debug)]
pub enum InstallerCancelStep {
    /// The environment phase already terminated: ask the requirements phase.
    CancelRequirements,
    /// `cancel` returns this.
    Done(Result<Option<InstallerKillAndWaitError>, SendingCancellationSignalToInstallerError>),
}

/// The environment phase is tried first, since the requirements phase cannot
/// run while it does; when it already terminated, the requirements phase is next.
pub open spec fn after_venv_cancel_spec(r: Result<Option<ProcessKillAndWaitError>, CancellationError>) -> InstallerCancelStep {
    match r {
        Ok(Some(e)) => InstallerCancelStep::Done(
            Ok(Some(InstallerKillAndWaitError::VenvKillAndWaitError(e))),
        ),
        Ok(None) => InstallerCancelStep::Done(Ok(None)),
        Err(CancellationError::ProcessTerminated) => InstallerCancelStep::CancelRequirements,
        Err(c) => InstallerCancelStep::Done(
            Err(SendingCancellationSignalToInstallerError::VenvCancellationError(c)),
        ),
    }
}

/// The composite cancellation, once the environment phase answered.
pub fn after_venv_cancel(r: Result<Option<ProcessKillAndWaitError>, CancellationError>) -> (s:
    InstallerCancelStep)
    ensures
        s == after_venv_cancel_spec(r),
{
    match r {
        Ok(Some(e)) => InstallerCancelStep::Done(
            Ok(Some(InstallerKillAndWaitError::VenvKillAndWaitError(e))),
        ),
        Ok(None) => InstallerCancelStep::Done(Ok(None)),
        Err(CancellationError::ProcessTerminated) => InstallerCancelStep::CancelRequirements,
        Err(c) => InstallerCancelStep::Done(
            Err(SendingCancellationSignalToInstallerError::VenvCancellationError(c)),
        ),
    }
}

pub open spec fn after_requirements_cancel_spec(r: Result<Option<ProcessKillAndWaitError>, CancellationError>) -> Result<
    Option<InstallerKillAndWaitError>,
    SendingCancellationSignalToInstallerError,
> {
    match r {
        Ok(Some(e)) => Ok(Some(InstallerKillAndWaitError::ReqKillAndWaitError(e))),
        Ok(None) => Ok(None),
        Err(c) => Err(SendingCancellationSignalToInstallerError::ReqCancellationError(c)),
    }
}

/// The composite cancellation's result, once the requirements phase answered.
pub fn after_requirements_cancel(r: Result<Option<ProcessKillAndWaitError>, CancellationError>) -> (s:
    Result<Option<InstallerKillAndWaitError>, SendingCancellationSignalToInstallerError>)
    ensures
        s == after_requirements_cancel_spec(r),
{
    match r {
        Ok(Some(e)) => Ok(Some(InstallerKillAndWaitError::ReqKillAndWaitError(e))),
        Ok(None) => Ok(None),
        Err(c) => Err(SendingCancellationSignalToInstallerError::ReqCancellationError(c)),
    }
}

/// A phase that does not end in a successful termination sends the
/// installation to clean-up, and the failure is reported only after clean-up:
/// alone when the environment directory is gone, with the clean-up failure
/// otherwise. No phase failure is reported without clean-up.
pub proof fn lemma_failed_phase_is_cleaned_up(
    s: InstallStage,
    e: InstallEvent,
    clean_up: Result<(), CleanUpError>,
)
    requires
        install_accepts(s, e),
    ensures
        ({
            let (s1, a1) = install_next(s, e);
            &&& e matches InstallEvent::VenvFinished(r) ==> (phase_outcome_spec(Phase::Venv, r) is Err
                ==> a1 is CleanUp && s1 == InstallStage::CleaningUp(
                phase_outcome_spec(Phase::Venv, r)->Err_0,
            ))
            &&& e matches InstallEvent::RequirementsFinished(r) ==> (phase_outcome_spec(
                Phase::Requirements,
                r,
            ) is Err ==> a1 is CleanUp && s1 == InstallStage::CleaningUp(
                phase_outcome_spec(Phase::Requirements, r)->Err_0,
            ))
            &&& s1 matches InstallStage::CleaningUp(err) ==> install_next(
                s1,
                InstallEvent::CleanedUp(clean_up),
            ).1 == InstallAction::Done(Err(cleaned_up_error_spec(err, clean_up)))
            &&& a1 matches InstallAction::Done(Err(done)) ==> ((done is ErrorThatTriggersCleanUp
                || done is CleanUpError) ==> s is CleaningUp)
        }),
{
}

/// An environment directory that was found missing, or removed, leaves
/// clean-up successful; clean-up fails only when existence could not be
/// checked or every removal attempt failed.
pub proof fn lemma_clean_up_succeeds_only_without_env_dir(
    exists: Result<bool, IoError>,
    removal: Result<(), MaxAttemptsExceeded>,
)
    ensures
        env_dir_checked_spec(exists) matches EnvDirCleanUp::Done(Ok(())) <==> exists == Ok::<
            bool,
            IoError,
        >(false),
        env_dir_removed_spec(removal) is Ok <==> removal is Ok,
{
}

/// An installation creates its output files before any phase runs; it succeeds
/// when both phases terminate successfully; a requirements phase that ends with
/// an error, or an environment phase that is killed, is reported as that phase's
/// failure once clean-up succeeded.
pub proof fn lemma_installation_outcomes(t: TerminationWithErrorStatus, k: KilledTerminationStatus)
    ensures
        ({
            let ok = Ok::<Status, ProcessRunError>(
                Status::Terminated(TerminationStatus::TerminatedSuccessfully),
            );
            let (s1, a1) = install_next(InstallStage::NotStarted, InstallEvent::Started(Ok(())));
            let (s2, a2) = install_next(s1, InstallEvent::FilesCreated(Ok(())));
            let (s3, a3) = install_next(s2, InstallEvent::VenvFinished(ok));
            let (s4, a4) = install_next(s3, InstallEvent::RequirementsFinished(ok));
            let (f4, b4) = install_next(
                s3,
                InstallEvent::RequirementsFinished(
                    Ok(Status::Terminated(TerminationStatus::TerminatedWithError(t))),
                ),
            );
            let (f5, b5) = install_next(f4, InstallEvent::CleanedUp(Ok(())));
            let (g3, c3) = install_next(
                s2,
                InstallEvent::VenvFinished(Ok(Status::Terminated(TerminationStatus::Killed(k)))),
            );
            let (g4, c4) = install_next(g3, InstallEvent::CleanedUp(Ok(())));
            &&& a1 is CreateFiles
            &&& a2 is RunVenv
            &&& a3 is RunRequirements
            &&& a4 == InstallAction::Done(Ok(()))
            &&& b4 is CleanUp
            &&& b5 == InstallAction::Done(
                Err(
                    InstallError::ErrorThatTriggersCleanUp(
                        ErrorThatTriggersCleanUp::RequirementsInstallError(
                            SubInstallError::TerminatedWithError(t),
                        ),
                    ),
                ),
            )
            &&& c3 is CleanUp
            &&& c4 == InstallAction::Done(
                Err(
                    InstallError::ErrorThatTriggersCleanUp(
                        ErrorThatTriggersCleanUp::VenvInstallError(SubInstallError::Killed(k)),
                    ),
                ),
            )
        }),
{
}

} // verus!
