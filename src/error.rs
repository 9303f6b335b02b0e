//! The ways a row or a record's enrichment can fail.

use vstd::prelude::*;

verus! {

/// Why one input row could not become a record.
#[derive(Debug, Clone, Copy, PartialEq, Eq, Structural)]
pub enum RowError {
    /// The row itself could not be read (wrong number of fields, bad text).
    Malformed,
    /// The header has no column for a field that a record needs.
    MissingColumn,
}

/// Why the enrichment of one record failed.
#[derive(Debug, Clone, Copy, PartialEq, Eq, Structural)]
pub enum EnrichError {
    /// The geocoding provider returned no match.
    NotFound,
    /// A returned coordinate is not a decimal number.
    CoordinateParse,
    /// The synthesized audio could not be decoded into bytes.
    Decode,
}

/// A row that produced no output element, and why.
#[derive(Debug, Clone, Copy, PartialEq, Eq, Structural)]
pub enum Failure {
    /// A row that did not become a record.
    Row(RowError),
    /// The record with this id, whose enrichment failed.
    Record(u64, EnrichError),
}

} // verus!
