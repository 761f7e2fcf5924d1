use vstd::prelude::*;

verus! {

/// A status code returned by the host audio subsystem; zero means success.
pub type OSStatus = i32;

/// The errors that the engine reports.
#[derive(Debug, Clone, Copy, PartialEq, Eq, Structural)]
pub enum Error {
    /// The caller's sample representation differs from the stream's format.
    FormatMismatch,
    /// A host call returned this non-success status.
    HostStatus(OSStatus),
}

/// What a host status means: success for zero, the status itself otherwise.
pub open spec fn status_result(status: OSStatus) -> Result<(), Error> {
    if status == 0 {
        Ok(())
    } else {
        Err(Error::HostStatus(status))
    }
}

impl Error {
    /// Translates a host status into a result.
    pub fn from_os_status(status: OSStatus) -> (r: Result<(), Error>)
        ensures
            r == status_result(status),
    {
        if status == 0 {
            Ok(())
        } else {
            Err(Error::HostStatus(status))
        }
    }
}

} // verus!
