//! Error kinds surfaced when shaping a query request.
//!
//! All of them are local, deterministic caller/data errors: none is a
//! transient condition worth retrying.

use vstd::prelude::*;

verus! {

/// The ways building or converting a query request can fail.
#[derive(Clone, Copy, Debug, PartialEq, Eq, Structural)]
pub enum RequestError {
    /// The height value cannot be represented in the transport's block
    /// height integer type.
    InvalidHeight,
    /// The height's decimal string form was rejected by the metadata
    /// encoder.
    InvalidMetadata,
    /// An event lacking a cross-chain query payload was used to build a
    /// cross-chain query request.
    InvalidTypeConversion,
}

} // verus!
