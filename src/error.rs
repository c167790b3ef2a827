use vstd::prelude::*;

verus! {

/// The closed set of failures that the backup engine distinguishes.
///
/// The first four abort a run before any work starts; an ambiguity aborts one
/// group; the others abort one device and let the run go on.
#[derive(Debug, Clone)]
pub enum BackupError {
    /// The configuration source is missing or malformed.
    Unreadable(String),
    /// Two backup groups name the same destination UUID.
    DuplicateUuid,
    /// A group, named by its UUID, lists one serial twice.
    DuplicateSerial(String),
    /// A device, named by its serial, asks to keep zero copies.
    ZeroCopies(String),
    /// More than one enumerated filesystem carries this UUID.
    AmbiguousUuid(String),
    /// More than one enumerated device carries this serial.
    AmbiguousSerial(String),
    /// The integrity check of the destination filesystem failed.
    FsckFailed,
    /// Today's backup file exists already.
    AlreadyPresent,
    /// The destination has no more free space than the device needs.
    InsufficientSpace,
    /// The filesystem, meant to be at this mount path, is not mounted.
    NotMounted(String),
    /// An external command failed, with its captured message.
    CommandFailed(String),
    /// An event came that the current stage does not wait for.
    OutOfOrder,
}

impl BackupError {
    /// Whether the failure belongs to the configuration and stops a run
    /// before any group is attempted.
    pub fn is_configuration_error(&self) -> (r: bool)
        ensures
            r <==> (self is Unreadable || self is DuplicateUuid || self is DuplicateSerial
                || self is ZeroCopies),
    {
        match self {
            BackupError::Unreadable(_) => true,
            BackupError::DuplicateUuid => true,
            BackupError::DuplicateSerial(_) => true,
            BackupError::ZeroCopies(_) => true,
            _ => false,
        }
    }
}

} // verus!
