//! Validation of an uploaded project's layout, before anything is spawned.
//!
//! The filesystem is probed by the caller; each probe records what the
//! filesystem answered, in the order the questions are asked (does it exist,
//! can it be listed or read, what does it hold). The verdicts here are taken
//! from those answers alone.

use crate::text::{contains, contains_text, ends_with, ends_with_text};
use std::io::Error as IoError;
use vstd::prelude::*;

verus! {

/// The required dependency framework, looked for literally in `requirements.txt`.
pub const REQUIRED_FRAMEWORK: &'static str = "locust";

/// The name of the dependency list inside a project.
pub const REQUIREMENTS_FILE_NAME: &'static str = "requirements.txt";

/// The name of the directory of load-test scripts inside a project.
pub const LOCUST_DIR_NAME: &'static str = "locust";

/// The extension, dot included, that marks a Python script.
pub const PYTHON_SUFFIX: &'static str = ".py";

/// The entries of a directory, as far as listing it went.
#[derive(Debug)]
pub struct DirListing {
    /// The names of the entries read, in the order they were read.
    pub names: Vec<String>,
    /// The error that stopped the listing early, if one did.
    pub stopped_by: Option<IoError>,
}

/// What probing a directory found.
#[derive(Debug)]
pub enum DirProbe {
    /// Whether the directory exists could not be determined.
    ExistenceUnknown(IoError),
    /// The directory does not exist.
    Missing,
    /// The directory exists but could not be opened for listing.
    Unlistable(IoError),
    /// The directory exists and was listed.
    Listed(DirListing),
}

/// What probing `requirements.txt` found.
#[derive(Debug)]
pub enum RequirementsProbe {
    /// Whether the file exists could not be determined.
    ExistenceUnknown(IoError),
    /// The file does not exist.
    Missing,
    /// The file exists but could not be read.
    Unreadable(IoError),
    /// The file's text.
    Read(String),
}

/// Why a directory is not an existing, non-empty directory.
#[derive(Debug)]
pub enum DirExistsAndNotEmptyError {
    CouldNotCheckIfDirExists(IoError),
    DirDoesNotExist,
    CouldNotCheckIfDirIsEmpty(IoError),
    DirIsEmpty,
}

/// Why the project directory is not valid.
#[derive(Debug)]
pub enum ProjectDirError {
    CouldNotCheckIfProjectDirExists(IoError),
    ProjectDirDoesNotExist,
    CouldNotCheckIfProjectDirIsEmpty(IoError),
    ProjectDirIsEmpty,
}

/// Why `requirements.txt` is not valid.
#[derive(Debug)]
pub enum RequirementsError {
    CouldNotCheckIfRequirementsTxtExists(IoError),
    RequirementsTxtDoesNotExist,
    CouldNotReadRequirementsTxt(IoError),
    LocustIsNotInRequirementsTxt,
}

/// Why the `locust` directory is not valid.
#[derive(Debug)]
pub enum LocustDirError {
    CouldNotCheckIfLocustDirExists(IoError),
    LocustDirDoesNotExist,
    CouldNotCheckIfLocustDirIsEmpty(IoError),
    LocustDirIsEmpty,
    CouldNotIterateOverLocustDir(IoError),
    NoPythonFilesInLocustDir,
}

/// Why a project is not valid; the first failing check decides.
#[derive(Debug)]
pub enum ProjectCheckError {
    ProjectDir(ProjectDirError),
    Requirements(RequirementsError),
    LocustDir(LocustDirError),
}

pub open spec fn project_dir_error_spec(e: DirExistsAndNotEmptyError) -> ProjectDirError {
    match e {
        DirExistsAndNotEmptyError::CouldNotCheckIfDirExists(io) => ProjectDirError::CouldNotCheckIfProjectDirExists(io),
        DirExistsAndNotEmptyError::DirDoesNotExist => ProjectDirError::ProjectDirDoesNotExist,
        DirExistsAndNotEmptyError::CouldNotCheckIfDirIsEmpty(io) => ProjectDirError::CouldNotCheckIfProjectDirIsEmpty(io),
        DirExistsAndNotEmptyError::DirIsEmpty => ProjectDirError::ProjectDirIsEmpty,
    }
}

pub open spec fn locust_dir_error_spec(e: DirExistsAndNotEmptyError) -> LocustDirError {
    match e {
        DirExistsAndNotEmptyError::CouldNotCheckIfDirExists(io) => LocustDirError::CouldNotCheckIfLocustDirExists(io),
        DirExistsAndNotEmptyError::DirDoesNotExist => LocustDirError::LocustDirDoesNotExist,
        DirExistsAndNotEmptyError::CouldNotCheckIfDirIsEmpty(io) => LocustDirError::CouldNotCheckIfLocustDirIsEmpty(io),
        DirExistsAndNotEmptyError::DirIsEmpty => LocustDirError::LocustDirIsEmpty,
    }
}

impl From<DirExistsAndNotEmptyError> for ProjectDirError {
    fn from(e: DirExistsAndNotEmptyError) -> (r: ProjectDirError)
        ensures
            r == project_dir_error_spec(e),
    {
        match e {
            DirExistsAndNotEmptyError::CouldNotCheckIfDirExists(io) => ProjectDirError::CouldNotCheckIfProjectDirExists(io),
            DirExistsAndNotEmptyError::DirDoesNotExist => ProjectDirError::ProjectDirDoesNotExist,
            DirExistsAndNotEmptyError::CouldNotCheckIfDirIsEmpty(io) => ProjectDirError::CouldNotCheckIfProjectDirIsEmpty(io),
            DirExistsAndNotEmptyError::DirIsEmpty => ProjectDirError::ProjectDirIsEmpty,
        }
    }
}

impl vstd::std_specs::convert::FromSpecImpl<DirExistsAndNotEmptyError> for ProjectDirError {
    open spec fn obeys_from_spec() -> bool {
        true
    }

    open spec fn from_spec(e: DirExistsAndNotEmptyError) -> ProjectDirError {
        project_dir_error_spec(e)
    }
}

impl From<DirExistsAndNotEmptyError> for LocustDirError {
    fn from(e: DirExistsAndNotEmptyError) -> (r: LocustDirError)
        ensures
            r == locust_dir_error_spec(e),
    {
        match e {
            DirExistsAndNotEmptyError::CouldNotCheckIfDirExists(io) => LocustDirError::CouldNotCheckIfLocustDirExists(io),
            DirExistsAndNotEmptyError::DirDoesNotExist => LocustDirError::LocustDirDoesNotExist,
            DirExistsAndNotEmptyError::CouldNotCheckIfDirIsEmpty(io) => LocustDirError::CouldNotCheckIfLocustDirIsEmpty(io),
            DirExistsAndNotEmptyError::DirIsEmpty => LocustDirError::LocustDirIsEmpty,
        }
    }
}

impl vstd::std_specs::convert::FromSpecImpl<DirExistsAndNotEmptyError> for LocustDirError {
    open spec fn obeys_from_spec() -> bool {
        true
    }

    open spec fn from_spec(e: DirExistsAndNotEmptyError) -> LocustDirError {
        locust_dir_error_spec(e)
    }
}

/// The directory exists and its listing yielded at least one entry; the
/// listing is handed on for further checks.
pub open spec fn dir_check_spec(p: DirProbe) -> Result<DirListing, DirExistsAndNotEmptyError> {
    match p {
        DirProbe::ExistenceUnknown(io) => Err(DirExistsAndNotEmptyError::CouldNotCheckIfDirExists(io)),
        DirProbe::Missing => Err(DirExistsAndNotEmptyError::DirDoesNotExist),
        DirProbe::Unlistable(io) => Err(DirExistsAndNotEmptyError::CouldNotCheckIfDirIsEmpty(io)),
        DirProbe::Listed(l) => if l.names@.len() > 0 {
            Ok(l)
        } else {
            match l.stopped_by {
                Some(io) => Err(DirExistsAndNotEmptyError::CouldNotCheckIfDirIsEmpty(io)),
                None => Err(DirExistsAndNotEmptyError::DirIsEmpty),
            }
        },
    }
}

/// A file name whose extension is `py`: it ends with `.py` after a non-empty stem.
pub open spec fn is_python_file_name(name: Seq<char>) -> bool {
    name.len() > PYTHON_SUFFIX@.len() && ends_with_text(name, PYTHON_SUFFIX@)
}

/// Some entry of the listing is a Python script.
pub open spec fn lists_python_file(l: DirListing) -> bool {
    exists|i: int| 0 <= i < l.names@.len() && is_python_file_name(#[trigger] l.names@[i]@)
}

pub open spec fn locust_dir_check_spec(p: DirProbe) -> Result<(), LocustDirError> {
    match dir_check_spec(p) {
        Err(e) => Err(locust_dir_error_spec(e)),
        Ok(l) => if lists_python_file(l) {
            Ok(())
        } else {
            match l.stopped_by {
                Some(io) => Err(LocustDirError::CouldNotIterateOverLocustDir(io)),
                None => Err(LocustDirError::NoPythonFilesInLocustDir),
            }
        },
    }
}

pub open spec fn requirements_check_spec(p: RequirementsProbe) -> Result<(), RequirementsError> {
    match p {
        RequirementsProbe::ExistenceUnknown(io) => Err(RequirementsError::CouldNotCheckIfRequirementsTxtExists(io)),
        RequirementsProbe::Missing => Err(RequirementsError::RequirementsTxtDoesNotExist),
        RequirementsProbe::Unreadable(io) => Err(RequirementsError::CouldNotReadRequirementsTxt(io)),
        RequirementsProbe::Read(text) => if contains_text(text@, REQUIRED_FRAMEWORK@) {
            Ok(())
        } else {
            Err(RequirementsError::LocustIsNotInRequirementsTxt)
        },
    }
}

/// The checks in order: project directory, then `requirements.txt`, then the
/// `locust` directory; the first failure is the answer.
pub open spec fn project_check_spec(
    project_dir: DirProbe,
    requirements: RequirementsProbe,
    locust_dir: DirProbe,
) -> Result<(), ProjectCheckError> {
    match dir_check_spec(project_dir) {
        Err(e) => Err(ProjectCheckError::ProjectDir(project_dir_error_spec(e))),
        Ok(_) => match requirements_check_spec(requirements) {
            Err(e) => Err(ProjectCheckError::Requirements(e)),
            Ok(()) => match locust_dir_check_spec(locust_dir) {
                Err(e) => Err(ProjectCheckError::LocustDir(e)),
                Ok(()) => Ok(()),
            },
        },
    }
}

/// Whether a directory exists and is not empty, from what probing it found.
pub fn check_dir_exists_and_not_empty(probe: DirProbe) -> (r: Result<
    DirListing,
    DirExistsAndNotEmptyError,
>)
    ensures
        r == dir_check_spec(probe),
{
    match probe {
        DirProbe::ExistenceUnknown(io) => Err(DirExistsAndNotEmptyError::CouldNotCheckIfDirExists(io)),
        DirProbe::Missing => Err(DirExistsAndNotEmptyError::DirDoesNotExist),
        DirProbe::Unlistable(io) => Err(DirExistsAndNotEmptyError::CouldNotCheckIfDirIsEmpty(io)),
        DirProbe::Listed(l) => {
            if l.names.len() > 0 {
                Ok(l)
            } else {
                match l.stopped_by {
                    Some(io) => Err(DirExistsAndNotEmptyError::CouldNotCheckIfDirIsEmpty(io)),
                    None => Err(DirExistsAndNotEmptyError::DirIsEmpty),
                }
            }
        },
    }
}

/// Whether `name` is the name of a Python script.
pub fn is_python_file(name: &str) -> (r: bool)
    ensures
        r == is_python_file_name(name@),
{
    let suffix_len: usize = 3;
    proof {
        reveal_strlit(".py");
    }
    name.unicode_len() > suffix_len && ends_with(name, PYTHON_SUFFIX)
}

/// Whether some listed entry is a Python script.
pub fn contains_python_file(listing: &DirListing) -> (r: bool)
    ensures
        r == lists_python_file(*listing),
{
    let mut i: usize = 0;
    while i < listing.names.len()
        invariant
            i <= listing.names@.len(),
            forall|k: int| 0 <= k < i ==> !is_python_file_name(#[trigger] listing.names@[k]@),
        decreases listing.names@.len() - i,
    {
        if is_python_file(listing.names[i].as_str()) {
            return true;
        }
        i = i + 1;
    }
    false
}

/// Checks the `locust` directory: it exists, is not empty, and lists a Python
/// script before any listing error.
pub fn check_locust_dir_exists_and_not_empty_and_contains_python_scripts(probe: DirProbe) -> (r:
    Result<(), LocustDirError>)
    ensures
        r == locust_dir_check_spec(probe),
{
    match check_dir_exists_and_not_empty(probe) {
        Err(e) => Err(LocustDirError::from(e)),
        Ok(listing) => {
            if contains_python_file(&listing) {
                Ok(())
            } else {
                match listing.stopped_by {
                    Some(io) => Err(LocustDirError::CouldNotIterateOverLocustDir(io)),
                    None => Err(LocustDirError::NoPythonFilesInLocustDir),
                }
            }
        },
    }
}

/// Checks `requirements.txt`: it exists, can be read, and names the framework.
pub fn check_requirements_txt_exists_and_locust_in_requirements_txt(probe: RequirementsProbe) -> (r:
    Result<(), RequirementsError>)
    ensures
        r == requirements_check_spec(probe),
{
    match probe {
        RequirementsProbe::ExistenceUnknown(io) => Err(RequirementsError::CouldNotCheckIfRequirementsTxtExists(io)),
        RequirementsProbe::Missing => Err(RequirementsError::RequirementsTxtDoesNotExist),
        RequirementsProbe::Unreadable(io) => Err(RequirementsError::CouldNotReadRequirementsTxt(io)),
        RequirementsProbe::Read(text) => {
            if contains(text.as_str(), REQUIRED_FRAMEWORK) {
                Ok(())
            } else {
                Err(RequirementsError::LocustIsNotInRequirementsTxt)
            }
        },
    }
}

/// Validates a project from the probes of its directory, its
/// `requirements.txt` and its `locust` directory.
pub fn check(project_dir: DirProbe, requirements: RequirementsProbe, locust_dir: DirProbe) -> (r:
    Result<(), ProjectCheckError>)
    ensures
        r == project_check_spec(project_dir, requirements, locust_dir),
{
    match check_dir_exists_and_not_empty(project_dir) {
        Err(e) => Err(ProjectCheckError::ProjectDir(ProjectDirError::from(e))),
        Ok(_) => match check_requirements_txt_exists_and_locust_in_requirements_txt(requirements) {
            Err(e) => Err(ProjectCheckError::Requirements(e)),
            Ok(()) => match check_locust_dir_exists_and_not_empty_and_contains_python_scripts(
                locust_dir,
            ) {
                Err(e) => Err(ProjectCheckError::LocustDir(e)),
                Ok(()) => Ok(()),
            },
        },
    }
}

} // verus!
