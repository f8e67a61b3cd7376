//! The single failure taxonomy of the adapter: every failure mode is fatal
//! for the scan in progress, and each variant records the context a caller
//! needs for a descriptive report.

use vstd::prelude::*;

verus! {

/// Mathematical image of an [`FdwError`]: strings become character sequences.
pub enum ErrView {
    MissingCredential,
    MissingSelector,
    UnsupportedObject(Seq<char>),
    TransportFailure(Seq<char>),
    HttpStatusFailure(u16),
    MalformedResponse,
}

/// A fatal scan failure. There is no recoverable-error channel: a scan
/// either completes its fetch fully or aborts before yielding any row.
#[derive(Debug, Clone, PartialEq, Eq)]
pub enum FdwError {
    /// Construction without a usable API key.
    MissingCredential,
    /// Scan start without an object-type option.
    MissingSelector,
    /// Object-type name outside the decoder's dispatch table; carries the name.
    UnsupportedObject(String),
    /// Network-level error surviving all retry attempts; carries the cause.
    TransportFailure(String),
    /// Non-2xx response surviving all retry attempts; carries the status.
    HttpStatusFailure(u16),
    /// JSON parse failure, or a required field missing or mistyped.
    MalformedResponse,
}

impl View for FdwError {
    type V = ErrView;

    open spec fn view(&self) -> ErrView {
        match self {
            FdwError::MissingCredential => ErrView::MissingCredential,
            FdwError::MissingSelector => ErrView::MissingSelector,
            FdwError::UnsupportedObject(s) => ErrView::UnsupportedObject(s@),
            FdwError::TransportFailure(s) => ErrView::TransportFailure(s@),
            FdwError::HttpStatusFailure(c) => ErrView::HttpStatusFailure(*c),
            FdwError::MalformedResponse => ErrView::MalformedResponse,
        }
    }
}

} // verus!
