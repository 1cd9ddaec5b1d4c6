use vstd::prelude::*;

verus! {

/// Message carried by `InvalidVersionFormat` when a version is too long.
pub const VERSION_TOO_LONG: &'static str = "Version too long (max 50 characters)";

/// Message carried by `InvalidVersionFormat` when a version holds a forbidden character.
pub const VERSION_BAD_CHARS: &'static str = "Version contains invalid characters";

/// Message carried by `InvalidState` when the state plays an empty version.
pub const EMPTY_PLAYING_VERSION: &'static str = "Playing version cannot be empty";

/// Errors of the application state manager.
#[derive(Debug, Clone, PartialEq, Eq)]
pub enum CubicErr {
    /// The presence client refused an update or a disconnect; holds its message.
    DiscordRpcError(String),
    /// A version string was blank or whitespace only.
    EmptyVersionError,
    /// A version string is too long or holds a forbidden character.
    InvalidVersionFormat(String),
    /// Reserved for transitions that the manager forbids; no transition raises it today.
    InvalidStateTransition { from: String, to: String },
    /// The manager's own invariant was found broken.
    InvalidState(String),
}

/// Why a version string is refused.
#[derive(Debug, Clone, Copy, PartialEq, Eq)]
pub enum VersionFault {
    Empty,
    TooLong,
    BadChars,
}

/// `e` is the error that reports fault `f`.
pub open spec fn reports_fault(e: CubicErr, f: VersionFault) -> bool {
    match f {
        VersionFault::Empty => e == CubicErr::EmptyVersionError,
        VersionFault::TooLong => e matches CubicErr::InvalidVersionFormat(m) && m@ == VERSION_TOO_LONG@,
        VersionFault::BadChars => e matches CubicErr::InvalidVersionFormat(m) && m@
            == VERSION_BAD_CHARS@,
    }
}

/// The error for a fault of a version string.
pub fn fault_error(f: VersionFault) -> (e: CubicErr)
    ensures
        reports_fault(e, f),
{
    match f {
        VersionFault::Empty => CubicErr::EmptyVersionError,
        VersionFault::TooLong => CubicErr::InvalidVersionFormat(VERSION_TOO_LONG.to_owned()),
        VersionFault::BadChars => CubicErr::InvalidVersionFormat(VERSION_BAD_CHARS.to_owned()),
    }
}

/// Maps what the presence client answered to the manager's result: a refusal is
/// wrapped as `DiscordRpcError`, unchanged.
pub fn presence_result(outcome: Result<(), String>) -> (r: Result<(), CubicErr>)
    ensures
        outcome is Ok ==> r is Ok,
        outcome matches Err(m) ==> r == Err::<(), CubicErr>(CubicErr::DiscordRpcError(m)),
{
    match outcome {
        Ok(()) => Ok(()),
        Err(m) => Err(CubicErr::DiscordRpcError(m)),
    }
}

} // verus!
