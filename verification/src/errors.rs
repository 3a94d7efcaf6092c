//! Error taxonomy of the configuration-loading collaborators.

use vstd::prelude::*;

verus! {

/// Failures while loading SDC configuration.
///
/// The fatal variant is converted into a process exit by the caller that
/// owns the process; the others are ordinary errors.
#[derive(Debug, PartialEq)]
pub enum SdcConfigError {
    /// A forked helper command exited unsuccessfully; carries the command's
    /// name.
    BadExitStatus(String),
    /// A file or a helper's output could not be read.
    IOError,
    /// A helper's output was not valid UTF-8.
    Utf8Error,
    /// The headnode configuration file could not be loaded: fatal.
    HeadnodeConfigMissing,
    /// The configuration line filter is not a valid regular expression.
    BadFilter,
}

} // verus!
