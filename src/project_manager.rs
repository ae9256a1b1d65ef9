//! The root directory that holds the projects: it is created when missing.

use std::io::Error as IoError;
use vstd::prelude::*;

verus! {

/// Why the root directory could not be made ready.
#[derive(Debug)]
pub enum LocalProjectManagerCreateError {
    CouldNotCheckIfRootDirExists(IoError),
    CouldNotCreateRootDir(IoError),
}

/// What to do after checking whether the root directory exists.
#[derive(Debug, Clone, Copy, PartialEq, Eq, Structural)]
pub enum RootDirStep {
    /// It is missing: create it, with its parents.
    Create,
    /// It exists.
    Ready,
}

pub open spec fn root_dir_checked_spec(exists: Result<bool, IoError>) -> Result<
    RootDirStep,
    LocalProjectManagerCreateError,
> {
    match exists {
        Ok(true) => Ok(RootDirStep::Ready),
        Ok(false) => Ok(RootDirStep::Create),
        Err(e) => Err(LocalProjectManagerCreateError::CouldNotCheckIfRootDirExists(e)),
    }
}

/// The step after checking whether the root directory exists.
pub fn root_dir_checked(exists: Result<bool, IoError>) -> (r: Result<
    RootDirStep,
    LocalProjectManagerCreateError,
>)
    ensures
        r == root_dir_checked_spec(exists),
{
    match exists {
        Ok(true) => Ok(RootDirStep::Ready),
        Ok(false) => Ok(RootDirStep::Create),
        Err(e) => Err(LocalProjectManagerCreateError::CouldNotCheckIfRootDirExists(e)),
    }
}

/// The outcome of creating the root directory.
pub fn root_dir_created(created: Result<(), IoError>) -> (r: Result<
    (),
    LocalProjectManagerCreateError,
>)
    ensures
        r == (match created {
            Ok(()) => Ok(()),
            Err(e) => Err(LocalProjectManagerCreateError::CouldNotCreateRootDir(e)),
        }),
{
    match created {
        Ok(()) => Ok(()),
        Err(e) => Err(LocalProjectManagerCreateError::CouldNotCreateRootDir(e)),
    }
}

} // verus!
