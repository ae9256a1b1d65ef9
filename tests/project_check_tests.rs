use ptaas::project_check::{
    check, check_dir_exists_and_not_empty,
    check_locust_dir_exists_and_not_empty_and_contains_python_scripts,
    check_requirements_txt_exists_and_locust_in_requirements_txt, contains_python_file,
    is_python_file, DirExistsAndNotEmptyError, DirListing, DirProbe, LocustDirError,
    ProjectCheckError, ProjectDirError, RequirementsError, RequirementsProbe,
};
use std::io::{Error, ErrorKind};

fn listed(names: &[&str]) -> DirProbe {
    DirProbe::Listed(DirListing {
        names: names.iter().map(|n| n.to_string()).collect(),
        stopped_by: None,
    })
}

fn requirements(text: &str) -> RequirementsProbe {
    RequirementsProbe::Read(text.to_string())
}

fn valid_project_dir() -> DirProbe {
    listed(&["requirements.txt", "locust"])
}

fn valid_requirements() -> RequirementsProbe {
    requirements("locust==2.15.1\nrequests\n")
}

fn valid_locust_dir() -> DirProbe {
    listed(&["locustfile.py"])
}

#[test]
fn fail_on_project_dir_does_not_exist() {
    let r = check(DirProbe::Missing, valid_requirements(), valid_locust_dir());
    assert!(matches!(
        r,
        Err(ProjectCheckError::ProjectDir(ProjectDirError::ProjectDirDoesNotExist))
    ));
}

#[test]
fn fail_on_project_dir_is_empty() {
    let r = check(listed(&[]), valid_requirements(), valid_locust_dir());
    assert!(matches!(
        r,
        Err(ProjectCheckError::ProjectDir(ProjectDirError::ProjectDirIsEmpty))
    ));
}

#[test]
fn fail_on_requirements_does_not_exist() {
    let r = check(valid_project_dir(), RequirementsProbe::Missing, valid_locust_dir());
    assert!(matches!(
        r,
        Err(ProjectCheckError::Requirements(
            RequirementsError::RequirementsTxtDoesNotExist
        ))
    ));
}

#[test]
fn fail_on_requirements_does_not_contain_locust() {
    let r = check(valid_project_dir(), requirements("requests\nflask\n"), valid_locust_dir());
    assert!(matches!(
        r,
        Err(ProjectCheckError::Requirements(
            RequirementsError::LocustIsNotInRequirementsTxt
        ))
    ));
}

#[test]
fn fail_on_locust_dir_does_not_exist() {
    let r = check(valid_project_dir(), valid_requirements(), DirProbe::Missing);
    assert!(matches!(
        r,
        Err(ProjectCheckError::LocustDir(LocustDirError::LocustDirDoesNotExist))
    ));
}

#[test]
fn fail_on_locust_dir_is_empty() {
    let r = check(valid_project_dir(), valid_requirements(), listed(&[]));
    assert!(matches!(
        r,
        Err(ProjectCheckError::LocustDir(LocustDirError::LocustDirIsEmpty))
    ));
}

#[test]
fn fail_on_locust_dir_contains_no_python_files() {
    let r = check(
        valid_project_dir(),
        valid_requirements(),
        listed(&[".gitkeep", "data.csv", "py", ".py", "notes.pyc"]),
    );
    assert!(matches!(
        r,
        Err(ProjectCheckError::LocustDir(LocustDirError::NoPythonFilesInLocustDir))
    ));
}

#[test]
fn check_a_valid_project_and_expect_no_errors() {
    let r = check(valid_project_dir(), valid_requirements(), valid_locust_dir());
    assert!(r.is_ok());
}

#[test]
fn a_single_python_file_is_enough() {
    let r = check_locust_dir_exists_and_not_empty_and_contains_python_scripts(listed(&["a.py"]));
    assert!(r.is_ok());
}

#[test]
fn the_first_failing_check_decides() {
    let r = check(
        DirProbe::Missing,
        RequirementsProbe::Missing,
        DirProbe::Missing,
    );
    assert!(matches!(
        r,
        Err(ProjectCheckError::ProjectDir(ProjectDirError::ProjectDirDoesNotExist))
    ));
    let r = check(valid_project_dir(), RequirementsProbe::Missing, DirProbe::Missing);
    assert!(matches!(
        r,
        Err(ProjectCheckError::Requirements(
            RequirementsError::RequirementsTxtDoesNotExist
        ))
    ));
}

#[test]
fn io_failures_while_probing_directories() {
    let r = check_dir_exists_and_not_empty(DirProbe::ExistenceUnknown(Error::from(
        ErrorKind::PermissionDenied,
    )));
    assert!(matches!(
        r,
        Err(DirExistsAndNotEmptyError::CouldNotCheckIfDirExists(_))
    ));
    let r = check_dir_exists_and_not_empty(DirProbe::Unlistable(Error::from(ErrorKind::Other)));
    assert!(matches!(
        r,
        Err(DirExistsAndNotEmptyError::CouldNotCheckIfDirIsEmpty(_))
    ));
    let r = check_dir_exists_and_not_empty(DirProbe::Listed(DirListing {
        names: Vec::new(),
        stopped_by: Some(Error::from(ErrorKind::Other)),
    }));
    assert!(matches!(
        r,
        Err(DirExistsAndNotEmptyError::CouldNotCheckIfDirIsEmpty(_))
    ));
    let r = check(
        DirProbe::ExistenceUnknown(Error::from(ErrorKind::Other)),
        valid_requirements(),
        valid_locust_dir(),
    );
    assert!(matches!(
        r,
        Err(ProjectCheckError::ProjectDir(
            ProjectDirError::CouldNotCheckIfProjectDirExists(_)
        ))
    ));
}

#[test]
fn io_failures_in_the_locust_dir() {
    let r = check_locust_dir_exists_and_not_empty_and_contains_python_scripts(
        DirProbe::ExistenceUnknown(Error::from(ErrorKind::Other)),
    );
    assert!(matches!(
        r,
        Err(LocustDirError::CouldNotCheckIfLocustDirExists(_))
    ));
    let r = check_locust_dir_exists_and_not_empty_and_contains_python_scripts(DirProbe::Unlistable(
        Error::from(ErrorKind::Other),
    ));
    assert!(matches!(
        r,
        Err(LocustDirError::CouldNotCheckIfLocustDirIsEmpty(_))
    ));
    let r = check_locust_dir_exists_and_not_empty_and_contains_python_scripts(DirProbe::Listed(
        DirListing {
            names: vec!["readme.md".to_string()],
            stopped_by: Some(Error::from(ErrorKind::Other)),
        },
    ));
    assert!(matches!(
        r,
        Err(LocustDirError::CouldNotIterateOverLocustDir(_))
    ));
    let r = check_locust_dir_exists_and_not_empty_and_contains_python_scripts(DirProbe::Listed(
        DirListing {
            names: vec!["readme.md".to_string(), "load.py".to_string()],
            stopped_by: Some(Error::from(ErrorKind::Other)),
        },
    ));
    assert!(r.is_ok());
}

#[test]
fn io_failures_with_requirements() {
    let r = check_requirements_txt_exists_and_locust_in_requirements_txt(
        RequirementsProbe::ExistenceUnknown(Error::from(ErrorKind::Other)),
    );
    assert!(matches!(
        r,
        Err(RequirementsError::CouldNotCheckIfRequirementsTxtExists(_))
    ));
    let r = check_requirements_txt_exists_and_locust_in_requirements_txt(
        RequirementsProbe::Unreadable(Error::from(ErrorKind::InvalidData)),
    );
    assert!(matches!(
        r,
        Err(RequirementsError::CouldNotReadRequirementsTxt(_))
    ));
}

#[test]
fn the_framework_match_is_literal() {
    assert!(check_requirements_txt_exists_and_locust_in_requirements_txt(requirements(
        "pytest-locust-plugin"
    ))
    .is_ok());
    assert!(check_requirements_txt_exists_and_locust_in_requirements_txt(requirements(
        "Locust==2.0"
    ))
    .is_err());
    assert!(check_requirements_txt_exists_and_locust_in_requirements_txt(requirements("")).is_err());
    assert!(check_requirements_txt_exists_and_locust_in_requirements_txt(requirements(
        "locus"
    ))
    .is_err());
    assert!(check_requirements_txt_exists_and_locust_in_requirements_txt(requirements(
        "ünïcode\nlocust"
    ))
    .is_ok());
}

#[test]
fn python_file_names() {
    assert!(is_python_file("a.py"));
    assert!(is_python_file("load_test.py"));
    assert!(is_python_file("a.b.py"));
    assert!(is_python_file("..py"));
    assert!(!is_python_file(".py"));
    assert!(!is_python_file("py"));
    assert!(!is_python_file("a.pyc"));
    assert!(!is_python_file("a.py.bak"));
    assert!(!is_python_file(""));
    let listing = DirListing {
        names: vec![".gitkeep".to_string(), "x.py".to_string()],
        stopped_by: None,
    };
    assert!(contains_python_file(&listing));
}

#[test]
fn dir_errors_map_per_directory() {
    let p: ProjectDirError = DirExistsAndNotEmptyError::DirIsEmpty.into();
    assert!(matches!(p, ProjectDirError::ProjectDirIsEmpty));
    let p: ProjectDirError = DirExistsAndNotEmptyError::DirDoesNotExist.into();
    assert!(matches!(p, ProjectDirError::ProjectDirDoesNotExist));
    let l: LocustDirError = DirExistsAndNotEmptyError::DirIsEmpty.into();
    assert!(matches!(l, LocustDirError::LocustDirIsEmpty));
    let l: LocustDirError =
        DirExistsAndNotEmptyError::CouldNotCheckIfDirIsEmpty(Error::from(ErrorKind::Other)).into();
    assert!(matches!(l, LocustDirError::CouldNotCheckIfLocustDirIsEmpty(_)));
}
