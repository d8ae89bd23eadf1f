//! Failure taxonomy for one retrieval attempt.

use vstd::prelude::*;

verus! {

/// Why a single clipboard retrieval attempt failed.
///
/// Every variant is recoverable: the caller may simply start another
/// attempt. Connection-level transport failures are not represented here;
/// they are surfaced by the unverified driver that owns the connection.
#[derive(Clone, Copy, Debug, PartialEq, Eq, Structural)]
pub enum RetrievalError {
    /// The selection's owner vanished between the change notification and
    /// the owner query.
    SelectionOrphaned,
    /// The owner declined or could not perform the requested conversion:
    /// the conversion reply carried no property.
    ConversionFailed,
    /// The owner announced a chunked (incremental) transfer, which this
    /// system deliberately does not implement.
    IncrUnsupported,
    /// The delivered bytes are not valid UTF-8.
    DecodeFailed,
}

} // verus!
