use ptaas::installer::{
    after_requirements_cancel, after_venv_cancel, env_dir_checked, env_dir_removed, output_files,
    phase_outcome, requirements_command, scripts_dir_name, start_error, venv_command,
    CleanUpError, CreateFileError, DeleteEnvironmentDirError, EnvDirCleanUp,
    ErrorThatTriggersCleanUp, InstallAction, InstallError, InstallEvent, InstallStage,
    InstallerCancelStep, InstallerKillAndWaitError, MaxAttemptsExceeded, OutputFile, Phase,
    RemovalRetry, SendingCancellationSignalToInstallerError, SubInstallError,
    SubStartInstallError, CLEAN_UP_MAX_ATTEMPTS, PIP_EXECUTABLE,
};
use ptaas::process::{CancellationError, ProcessKillAndWaitError, ProcessRunError};
use ptaas::status::{
    KilledTerminationStatus, Platform, Status, TerminationStatus, TerminationWithErrorStatus,
};
use std::io::{Error, ErrorKind};
use std::path::PathBuf;

fn success() -> Result<Status, ProcessRunError> {
    Ok(Status::Terminated(TerminationStatus::TerminatedSuccessfully))
}

fn exit_code(code: i32) -> Result<Status, ProcessRunError> {
    Ok(Status::Terminated(TerminationStatus::TerminatedWithError(
        TerminationWithErrorStatus::TerminatedWithErrorCode(code),
    )))
}

fn killed() -> Result<Status, ProcessRunError> {
    Ok(Status::Terminated(TerminationStatus::Killed(
        KilledTerminationStatus::KilledByCancellationSignal,
    )))
}

/// An installation whose files were created and whose environment phase runs.
fn venv_running() -> InstallStage {
    let (s, a) = InstallStage::new().advance(InstallEvent::Started(Ok(())));
    assert!(matches!(a, InstallAction::CreateFiles));
    let (s, a) = s.advance(InstallEvent::FilesCreated(Ok(())));
    assert!(matches!(a, InstallAction::RunVenv));
    s
}

#[test]
fn install_a_valid_project_and_expect_no_errors() {
    let (s, a) = venv_running().advance(InstallEvent::VenvFinished(success()));
    assert!(matches!(a, InstallAction::RunRequirements));
    let (s, a) = s.advance(InstallEvent::RequirementsFinished(success()));
    assert!(matches!(a, InstallAction::Done(Ok(()))));
    assert!(matches!(s, InstallStage::Finished));
}

#[test]
fn fail_on_invalid_requirements_with_exit_code_1() {
    let (s, _) = venv_running().advance(InstallEvent::VenvFinished(success()));
    let (s, a) = s.advance(InstallEvent::RequirementsFinished(exit_code(1)));
    assert!(matches!(a, InstallAction::CleanUp));
    let (_, a) = s.advance(InstallEvent::CleanedUp(Ok(())));
    match a {
        InstallAction::Done(Err(InstallError::ErrorThatTriggersCleanUp(
            ErrorThatTriggersCleanUp::RequirementsInstallError(SubInstallError::TerminatedWithError(
                TerminationWithErrorStatus::TerminatedWithErrorCode(code),
            )),
        ))) => assert_eq!(code, 1),
        other => panic!("Unexpected action: {:?}", other),
    }
}

#[test]
fn kill_installation_and_expect_killed() {
    let (s, a) = venv_running().advance(InstallEvent::VenvFinished(killed()));
    assert!(matches!(a, InstallAction::CleanUp));
    let (_, a) = s.advance(InstallEvent::CleanedUp(Ok(())));
    assert!(matches!(
        a,
        InstallAction::Done(Err(InstallError::ErrorThatTriggersCleanUp(
            ErrorThatTriggersCleanUp::VenvInstallError(SubInstallError::Killed(_))
        )))
    ));

    let (s, _) = venv_running().advance(InstallEvent::VenvFinished(success()));
    let (s, a) = s.advance(InstallEvent::RequirementsFinished(killed()));
    assert!(matches!(a, InstallAction::CleanUp));
    let (_, a) = s.advance(InstallEvent::CleanedUp(Ok(())));
    assert!(matches!(
        a,
        InstallAction::Done(Err(InstallError::ErrorThatTriggersCleanUp(
            ErrorThatTriggersCleanUp::RequirementsInstallError(SubInstallError::Killed(_))
        )))
    ));
}

#[test]
fn failed_clean_up_is_reported_with_the_phase_error() {
    let (s, _) = venv_running().advance(InstallEvent::VenvFinished(exit_code(2)));
    let clean_up = env_dir_removed(Err(MaxAttemptsExceeded(vec![Error::from(
        ErrorKind::PermissionDenied,
    )])));
    let (_, a) = s.advance(InstallEvent::CleanedUp(clean_up));
    match a {
        InstallAction::Done(Err(InstallError::CleanUpError(
            ErrorThatTriggersCleanUp::VenvInstallError(SubInstallError::TerminatedWithError(
                TerminationWithErrorStatus::TerminatedWithErrorCode(2),
            )),
            CleanUpError::CouldNotDeleteEnvironment(DeleteEnvironmentDirError::MaxAttemptsExceeded(
                MaxAttemptsExceeded(errors),
            )),
        ))) => assert_eq!(errors.len(), 1),
        other => panic!("Unexpected action: {:?}", other),
    }
}

#[test]
fn run_errors_and_unexpected_statuses_trigger_clean_up() {
    let (s, a) = venv_running().advance(InstallEvent::VenvFinished(Err(
        ProcessRunError::CouldNotSpawnOsProcess(Error::from(ErrorKind::NotFound)),
    )));
    assert!(matches!(a, InstallAction::CleanUp));
    assert!(matches!(
        s,
        InstallStage::CleaningUp(ErrorThatTriggersCleanUp::VenvInstallError(
            SubInstallError::RunError(ProcessRunError::CouldNotSpawnOsProcess(_))
        ))
    ));
    let (s, _) = venv_running().advance(InstallEvent::VenvFinished(success()));
    let (s, a) = s.advance(InstallEvent::RequirementsFinished(Ok(Status::Running)));
    assert!(matches!(a, InstallAction::CleanUp));
    assert!(matches!(
        s,
        InstallStage::CleaningUp(ErrorThatTriggersCleanUp::RequirementsInstallError(
            SubInstallError::UnexpectedStatus(Status::Running)
        ))
    ));
}

#[test]
fn start_errors_return_without_clean_up() {
    let (s, a) = InstallStage::new().advance(InstallEvent::Started(Err(PathBuf::from("p"))));
    assert!(matches!(s, InstallStage::Finished));
    assert!(matches!(
        a,
        InstallAction::Done(Err(InstallError::FailedToConvertPathBufToString(_)))
    ));

    let (s, _) = InstallStage::new().advance(InstallEvent::Started(Ok(())));
    let err = CreateFileError::CouldNotCreateFile(
        Error::from(ErrorKind::PermissionDenied),
        PathBuf::from("req_err.txt"),
    );
    let (s, a) = s.advance(InstallEvent::FilesCreated(Err((OutputFile::ReqErr, err))));
    assert!(matches!(s, InstallStage::Finished));
    assert!(matches!(
        a,
        InstallAction::Done(Err(InstallError::RequirementsStartError(
            SubStartInstallError::CreateFileError(CreateFileError::CouldNotCreateFile(_, _))
        )))
    ));
    let err = CreateFileError::CouldNotCreateFile(
        Error::from(ErrorKind::PermissionDenied),
        PathBuf::from("venv_out.txt"),
    );
    assert!(matches!(
        start_error(OutputFile::VenvOut, err),
        InstallError::VenvStartError(_)
    ));
}

#[test]
fn phase_outcomes() {
    assert!(phase_outcome(Phase::Venv, success()).is_ok());
    assert!(matches!(
        phase_outcome(Phase::Venv, exit_code(1)),
        Err(ErrorThatTriggersCleanUp::VenvInstallError(
            SubInstallError::TerminatedWithError(_)
        ))
    ));
    assert!(matches!(
        phase_outcome(Phase::Requirements, Ok(Status::Created)),
        Err(ErrorThatTriggersCleanUp::RequirementsInstallError(
            SubInstallError::UnexpectedStatus(Status::Created)
        ))
    ));
    assert!(matches!(
        phase_outcome(Phase::Requirements, Err(ProcessRunError::ControllerDropped)),
        Err(ErrorThatTriggersCleanUp::RequirementsInstallError(
            SubInstallError::RunError(ProcessRunError::ControllerDropped)
        ))
    ));
}

#[test]
fn clean_up_of_the_environment_directory() {
    assert!(matches!(env_dir_checked(Ok(true)), EnvDirCleanUp::Remove));
    assert!(matches!(env_dir_checked(Ok(false)), EnvDirCleanUp::Done(Ok(()))));
    assert!(matches!(
        env_dir_checked(Err(Error::from(ErrorKind::Other))),
        EnvDirCleanUp::Done(Err(CleanUpError::CouldNotDeleteEnvironment(
            DeleteEnvironmentDirError::CouldNotCheckIfDirExists(_)
        )))
    ));
    assert!(env_dir_removed(Ok(())).is_ok());
}

#[test]
fn removal_is_retried_up_to_the_budget() {
    let mut retry = RemovalRetry::new(CLEAN_UP_MAX_ATTEMPTS);
    let mut attempts = 0;
    while retry.has_attempts_left() {
        attempts += 1;
        retry.record_failure(Error::from(ErrorKind::DirectoryNotEmpty));
    }
    assert_eq!(attempts, 5);
    let MaxAttemptsExceeded(errors) = retry.exceeded();
    assert_eq!(errors.len(), 5);
    assert!(errors.iter().all(|e| e.kind() == ErrorKind::DirectoryNotEmpty));

    let retry = RemovalRetry::new(0);
    assert!(!retry.has_attempts_left());
    assert!(retry.exceeded().0.is_empty());
}

#[test]
fn phase_commands() {
    let venv = venv_command("/envs/p", "/uploads/p");
    assert_eq!(venv.program, "python3");
    assert_eq!(venv.args, vec!["-m", "venv", "/envs/p"]);
    assert_eq!(venv.current_dir, "/uploads/p");
    let req = requirements_command("/envs/p/bin/pip3", "/uploads/p");
    assert_eq!(req.program, "/envs/p/bin/pip3");
    assert_eq!(req.args, vec!["install", "-r", "requirements.txt"]);
    assert_eq!(req.current_dir, "/uploads/p");
    assert_eq!(scripts_dir_name(Platform::Windows), "Scripts");
    assert_eq!(scripts_dir_name(Platform::Unix), "bin");
    assert_eq!(PIP_EXECUTABLE, "pip3");
}

#[test]
fn output_file_names_and_order() {
    let names: Vec<&str> = output_files().into_iter().map(|f| f.file_name()).collect();
    assert_eq!(
        names,
        vec!["venv_out.txt", "venv_err.txt", "req_out.txt", "req_err.txt"]
    );
}

#[test]
fn installer_cancel_tries_venv_first() {
    assert!(matches!(after_venv_cancel(Ok(None)), InstallerCancelStep::Done(Ok(None))));
    assert!(matches!(
        after_venv_cancel(Ok(Some(ProcessKillAndWaitError::CouldNotKillProcess(
            Error::from(ErrorKind::Other)
        )))),
        InstallerCancelStep::Done(Ok(Some(InstallerKillAndWaitError::VenvKillAndWaitError(_))))
    ));
    assert!(matches!(
        after_venv_cancel(Err(CancellationError::ProcessTerminated)),
        InstallerCancelStep::CancelRequirements
    ));
    assert!(matches!(
        after_venv_cancel(Err(CancellationError::ProcessNotRunning)),
        InstallerCancelStep::Done(Err(
            SendingCancellationSignalToInstallerError::VenvCancellationError(
                CancellationError::ProcessNotRunning
            )
        ))
    ));
    assert!(matches!(after_requirements_cancel(Ok(None)), Ok(None)));
    assert!(matches!(
        after_requirements_cancel(Ok(Some(ProcessKillAndWaitError::CouldNotWaitForProcess(
            Error::from(ErrorKind::Other)
        )))),
        Ok(Some(InstallerKillAndWaitError::ReqKillAndWaitError(_)))
    ));
    assert!(matches!(
        after_requirements_cancel(Err(CancellationError::ProcessNotRunning)),
        Err(SendingCancellationSignalToInstallerError::ReqCancellationError(
            CancellationError::ProcessNotRunning
        ))
    ));
}

#[test]
fn removal_success_returns_earlier_failures() {
    let mut retry = RemovalRetry::new(CLEAN_UP_MAX_ATTEMPTS);
    retry.record_failure(Error::from(ErrorKind::PermissionDenied));
    let earlier = retry.succeeded();
    assert_eq!(earlier.len(), 1);
    assert_eq!(earlier[0].kind(), ErrorKind::PermissionDenied);
}
