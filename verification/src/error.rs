use vstd::prelude::*;

verus! {

/// Every way an operation of the session layer can fail.
///
/// A failure always reaches the immediate caller of the operation that raised
/// it; none is turned into an absent value.
#[derive(Clone, Debug, PartialEq, Eq)]
pub enum SpiError {
    /// The host executor could not be entered, so no session was opened.
    ConnectionError,
    /// The host rejected or failed the statement; carries the host's message
    /// unchanged.
    ExecutionError(String),
    /// The number of bound parameters differs from the number of placeholders
    /// in the SQL text.
    ParameterCountMismatch,
    /// A value cannot be represented under the type tag it was declared with.
    EncodingError,
    /// A non-null value was requested as a type other than the one stored.
    TypeMismatch,
    /// A row was expected and the result set has none.
    EmptyResultSet,
    /// A single row was expected and the result set has more.
    TooManyRows,
    /// More leading columns were asked of a row than it has.
    TooManyColumns,
    /// A column key names no column of the row.
    NoSuchColumn,
    /// The session that owns the cursor is no longer open.
    UseAfterClose,
}

} // verus!
