//! The uniform error taxonomy of the system DNS configurator.

use vstd::prelude::*;
use vstd::string::StringExecFns;

verus! {

/// Why a configurator operation failed, uniform across platforms.
#[derive(Debug, Clone)]
pub enum SystemDNSError {
    /// The running platform offers no way to read or change the nameserver
    /// list.
    NotSupported,
    /// The caller lacks the privilege to touch the system configuration.
    PermissionDenied,
    /// An underlying file or storage fault, with its description.
    IOError(String),
    /// The external configuration utility failed; the payload carries its
    /// diagnostic output.
    CommandError(String),
}

impl SystemDNSError {
    /// A short label for the error kind.
    pub fn message(&self) -> (r: String)
        ensures
            self is NotSupported ==> r@ == "Not Supported"@,
            self is PermissionDenied ==> r@ == "Permission Denied"@,
            self is IOError ==> r@ == "IO Error"@,
            self is CommandError ==> r@ == "Command Error"@,
    {
        match self {
            SystemDNSError::NotSupported => String::from_str("Not Supported"),
            SystemDNSError::PermissionDenied => String::from_str("Permission Denied"),
            SystemDNSError::IOError(_) => String::from_str("IO Error"),
            SystemDNSError::CommandError(_) => String::from_str("Command Error"),
        }
    }
}

/// Maps a low-level I/O failure to the taxonomy: a permission fault becomes
/// `PermissionDenied`, anything else a generic `IOError` keeping the
/// description.
pub fn classify_io_failure(permission_denied: bool, detail: String) -> (r: SystemDNSError)
    ensures
        permission_denied ==> r is PermissionDenied,
        !permission_denied ==> (r matches SystemDNSError::IOError(d) && d == detail),
{
    if permission_denied {
        SystemDNSError::PermissionDenied
    } else {
        SystemDNSError::IOError(detail)
    }
}

} // verus!
