use vstd::prelude::*;

verus! {

/// Failures that registry lookups and emission can report.
///
/// Every lookup against an id or name that the registry does not hold, and
/// every lookup against the `UNKNOWN` sentinel, reports `FileMissing` instead
/// of panicking.
#[derive(Clone, Copy, Debug, PartialEq, Eq, Structural)]
pub enum Error {
    /// The referenced file id or file name is not in the registry.
    FileMissing,
    /// A line index lay past the last line of the file.
    LineTooLarge,
    /// A column index lay past the end of its line.
    ColumnTooLarge,
    /// A byte index or span lay past the end of the file's content.
    IndexTooLarge,
    /// Writing rendered output to a sink failed.
    Io,
}

/// Sentinel value meaning "stop compilation now".
///
/// It is handed back by [`crate::DiagnosticsHandler::fatal`] and
/// [`crate::DiagnosticsHandler::abort_if_errors`] for the caller to raise
/// through whatever early-return mechanism the surrounding pipeline uses.
#[derive(Clone, Copy, Debug, PartialEq, Eq, Structural)]
pub struct FatalError;

} // verus!
