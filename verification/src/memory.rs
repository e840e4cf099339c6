//! The decision layer of the remote-memory accessor. The operating system
//! performs the actual cross-process transfers outside the library; what it
//! reports about each attempt is classified here, under the rule that a
//! transfer counts only when the process could be opened, the call was
//! accepted, and every requested byte moved.

use vstd::prelude::*;

use crate::enums::LoaderError;

verus! {

/// A byte region inside another process's address space: a transient lookup
/// key, never cached across calls and carrying no ownership.
#[derive(Debug, Clone, Copy, PartialEq, Eq, Structural)]
pub struct RemoteAddress {
    pub pid: u32,
    pub address: usize,
}

/// Classifies the report of one remote read. `opened` says whether a scoped
/// handle to the process could be acquired; `accepted` whether the OS took
/// the read call; `transferred` how many bytes it moved. A read that was
/// refused or partial is a `ReadFault`; a process that could not be opened
/// is `AccessDenied`.
pub fn read_outcome(opened: bool, accepted: bool, requested: usize, transferred: usize) -> (r:
    Result<(), LoaderError>)
    ensures
        !opened ==> r == Err::<(), LoaderError>(LoaderError::AccessDenied),
        opened && (!accepted || transferred != requested) ==> r == Err::<(), LoaderError>(
            LoaderError::ReadFault,
        ),
        opened && accepted && transferred == requested ==> r == Ok::<(), LoaderError>(()),
{
    if !opened {
        Err(LoaderError::AccessDenied)
    } else if !accepted || transferred != requested {
        Err(LoaderError::ReadFault)
    } else {
        Ok(())
    }
}

/// Classifies the report of one remote write, under the same rule as
/// `read_outcome`: refused or partial writes are a `WriteFault`.
pub fn write_outcome(opened: bool, accepted: bool, requested: usize, transferred: usize) -> (r:
    Result<(), LoaderError>)
    ensures
        !opened ==> r == Err::<(), LoaderError>(LoaderError::AccessDenied),
        opened && (!accepted || transferred != requested) ==> r == Err::<(), LoaderError>(
            LoaderError::WriteFault,
        ),
        opened && accepted && transferred == requested ==> r == Ok::<(), LoaderError>(()),
{
    if !opened {
        Err(LoaderError::AccessDenied)
    } else if !accepted || transferred != requested {
        Err(LoaderError::WriteFault)
    } else {
        Ok(())
    }
}

} // verus!
