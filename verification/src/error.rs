//! The two-tier error taxonomy: structural violations abort a whole
//! document load, while per-record fallbacks and missing lookups are
//! handled leniently by the functions that meet them.

use vstd::prelude::*;

verus! {

/// A document-level structural violation. Any of these aborts the whole
/// load; there is no partial or degraded document.
#[derive(Clone, Copy, Debug, PartialEq, Eq, Structural)]
pub enum StructuralError {
    /// A textual numeric field did not parse as an unsigned integer.
    BadNumber,
    /// A table key was not numeric (and, for the node table, not the
    /// reserved key `root`).
    BadKey,
    /// A matched classifier branch's required payload failed to decode.
    BadRecord,
    /// A group lists a node id that is absent from the node table.
    MissingNode,
    /// The bounding box, the orbit tables, or a node's orbit placement
    /// violates the document invariant.
    BadBounds,
}

/// How one attempted decode of a payload failed. A `Shape` failure (a
/// missing field or a wrong field type) is the signal the classifier's
/// fallback branches react to; a `Coercion` failure (a textual numeric
/// field whose coercion failed) is always fatal, even inside a fallback
/// attempt.
#[derive(Clone, Copy, Debug, PartialEq, Eq, Structural)]
pub enum DecodeFailure {
    Shape,
    Coercion,
}

} // verus!
