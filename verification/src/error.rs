//! The failures that commands report.

use vstd::prelude::*;
use vstd::string::StringExecFns;

verus! {

/// Why a live target was not accepted by a validation.
#[derive(Clone, Copy, Debug, PartialEq, Eq, Structural)]
pub enum MismatchReason {
    /// The target is not running, or does not answer.
    NotBooted,
    /// The identity that the target reports is not the one recorded in the archive.
    IdentityDiffers,
    /// The image in the target's flash is not the archive's image.
    ImageDiffers,
}

/// Every way in which a command can fail.
#[derive(Clone, Copy, Debug, PartialEq, Eq, Structural)]
pub enum Error {
    /// No command is registered under the requested name.
    UnknownCommand,
    /// The command needs an archive or a dump, and neither was supplied.
    ArchiveMissing,
    /// The archive or dump that was supplied could not be loaded.
    ArchiveLoadFailed,
    /// The flash configuration embedded in the archive is malformed.
    ConfigParseError,
    /// No identification rule matched the flash configuration.
    ChipNotIdentified,
    /// No matching probe was found, or the transport rejected the chip.
    ProbeAttachFailure,
    /// The live target disagrees with what the validation asked for.
    ValidationMismatch(MismatchReason),
    /// The target already runs the archive, and re-flashing was not forced.
    AlreadyFlashed,
    /// The image could not be written out for the transport to load.
    ArtifactFailure,
    /// The transport failed while loading the image.
    FlashWriteFailure,
    /// The target did not finish the program in time.
    ExecutionTimeout,
    /// The target ran a call and answered with this error code.
    RemoteFailure(u32),
    /// A value or message is larger than its declared maximum.
    ProtocolSizeExceeded,
    /// Bytes that do not parse as a message of the expected kind and version.
    MalformedMessage,
    /// A command of that name is already registered.
    DuplicateCommand,
    /// Both a dump and an archive were named on the command line.
    ConflictingSources,
    /// Both a dump and an archive were set through the environment.
    AmbiguousEnvironment,
    /// A query was asked for without saying which operation to perform.
    NoOperation,
    /// The handler of the command failed for a reason of its own, which the
    /// caller reports.
    HandlerFailure,
}

impl Error {
    /// The text shown to the operator for this failure.
    pub open spec fn message_spec(self) -> Seq<char> {
        match self {
            Error::UnknownCommand => "command not found"@,
            Error::ArchiveMissing => "must provide a Hubris archive or dump"@,
            Error::ArchiveLoadFailed => "failed to load archive or dump"@,
            Error::ConfigParseError => "malformed flash configuration"@,
            Error::ChipNotIdentified => "failed to find chip from flash configuration"@,
            Error::ProbeAttachFailure => "failed to attach to probe"@,
            Error::ValidationMismatch(MismatchReason::NotBooted) => "target is not booted"@,
            Error::ValidationMismatch(MismatchReason::IdentityDiffers) =>
                "target does not match archive"@,
            Error::ValidationMismatch(MismatchReason::ImageDiffers) =>
                "flash image on target does not match archive"@,
            Error::AlreadyFlashed =>
                "archive appears to be already flashed on attached device; use -F (\"--force\") to force re-flash"@,
            Error::ArtifactFailure => "failed to write temporary image file"@,
            Error::FlashWriteFailure => "failed to load image onto target"@,
            Error::ExecutionTimeout => "operation timed out"@,
            Error::RemoteFailure(_) => "call failed on target"@,
            Error::ProtocolSizeExceeded => "value exceeds maximum size"@,
            Error::MalformedMessage => "malformed message"@,
            Error::DuplicateCommand => "command already registered"@,
            Error::ConflictingSources => "cannot specify both a dump and an archive"@,
            Error::AmbiguousEnvironment =>
                "both dump and archive have been set via environment variables; unset one of them, or use a command-line option to override"@,
            Error::NoOperation => "no operation given"@,
            Error::HandlerFailure => "command failed"@,
        }
    }

    /// Whether the operator can get past this failure by asking again with
    /// the force flag.
    pub open spec fn recoverable_by_force_spec(self) -> bool {
        self == Error::AlreadyFlashed
    }

    /// Whether the operator can get past this failure by asking again with
    /// the force flag. Only [`Error::AlreadyFlashed`] is such a failure.
    #[verifier::when_used_as_spec(recoverable_by_force_spec)]
    pub fn recoverable_by_force(self) -> (b: bool)
        ensures
            b == self.recoverable_by_force_spec(),
    {
        self == Error::AlreadyFlashed
    }

    /// The text shown to the operator for this failure.
    pub fn message(self) -> (text: String)
        ensures
            text@ == self.message_spec(),
    {
        match self {
            Error::UnknownCommand => String::from_str("command not found"),
            Error::ArchiveMissing => String::from_str("must provide a Hubris archive or dump"),
            Error::ArchiveLoadFailed => String::from_str("failed to load archive or dump"),
            Error::ConfigParseError => String::from_str("malformed flash configuration"),
            Error::ChipNotIdentified => String::from_str(
                "failed to find chip from flash configuration",
            ),
            Error::ProbeAttachFailure => String::from_str("failed to attach to probe"),
            Error::ValidationMismatch(MismatchReason::NotBooted) => String::from_str(
                "target is not booted",
            ),
            Error::ValidationMismatch(MismatchReason::IdentityDiffers) => String::from_str(
                "target does not match archive",
            ),
            Error::ValidationMismatch(MismatchReason::ImageDiffers) => String::from_str(
                "flash image on target does not match archive",
            ),
            Error::AlreadyFlashed => String::from_str(
                "archive appears to be already flashed on attached device; use -F (\"--force\") to force re-flash",
            ),
            Error::ArtifactFailure => String::from_str("failed to write temporary image file"),
            Error::FlashWriteFailure => String::from_str("failed to load image onto target"),
            Error::ExecutionTimeout => String::from_str("operation timed out"),
            Error::RemoteFailure(_) => String::from_str("call failed on target"),
            Error::ProtocolSizeExceeded => String::from_str("value exceeds maximum size"),
            Error::MalformedMessage => String::from_str("malformed message"),
            Error::DuplicateCommand => String::from_str("command already registered"),
            Error::ConflictingSources => String::from_str(
                "cannot specify both a dump and an archive",
            ),
            Error::AmbiguousEnvironment => String::from_str(
                "both dump and archive have been set via environment variables; unset one of them, or use a command-line option to override",
            ),
            Error::NoOperation => String::from_str("no operation given"),
            Error::HandlerFailure => String::from_str("command failed"),
        }
    }
}

} // verus!
