//! Error taxonomy of the synchronization model.

use vstd::prelude::*;

verus! {

/// A failure while resolving a placeholder template against a fetched row.
/// Raised during projection, local to one row and one rule.
#[derive(Debug, Clone, Copy, PartialEq, Eq, Structural)]
pub enum TemplateError {
    /// A `{` marker that does not enclose a positive decimal integer.
    MalformedTemplate,
    /// A `{N}` reference whose index lies outside the supplied row.
    ColumnIndexOutOfRange,
}

/// A configuration that is schema-valid but semantically invalid.
/// Fatal at load time: no partially valid configuration is ever used.
#[derive(Debug, Clone, Copy, PartialEq, Eq, Structural)]
pub enum ConfigValidationError {
    /// `fetch_limit` is zero while polling is enabled.
    InvalidFetchLimit,
    /// A table defines no projection rule at all.
    EmptyProjectionRules,
    /// A projection rule whose target store name is empty.
    EmptyTargetName,
    /// A query template without the single `{id}` cursor placeholder.
    MissingIdPlaceholder,
    /// Two tables under the same name.
    DuplicateTableName,
}

/// A structured document that does not match the configuration schema.
/// Fatal at load time.
#[derive(Debug, Clone, Copy, PartialEq, Eq, Structural)]
pub enum ConfigParseError {
    /// A field is absent or holds a value of the wrong shape.
    SchemaMismatch,
    /// An object carries the same key twice.
    DuplicateKey,
}

} // verus!
