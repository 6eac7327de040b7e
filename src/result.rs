//! Errors of the core.
use vstd::prelude::*;
use vstd::string::*;

verus! {

/// Kinds of database errors a caller may branch on.
#[derive(PartialEq, Eq, Structural, Clone, Copy, Debug)]
pub enum DatabaseErrorKind {
    UniqueViolation,
    ForeignKeyViolation,
    NotNullViolation,
    CheckViolation,
    Unknown,
}

/// Why a column value could not be decoded.
#[derive(PartialEq, Eq, Structural, Clone, Copy, Debug)]
pub enum DeserializeError {
    /// SQL NULL for a column that is not nullable.
    UnexpectedNull,
    /// Fewer bytes than the type's width.
    UnexpectedEof,
    /// Text that is not UTF-8.
    InvalidUtf8,
    /// Bytes that are not a JSON document.
    InvalidJson,
}

/// A failure of the core, with the backend's message where there is one.
#[derive(Debug)]
pub enum Error {
    DatabaseError(DatabaseErrorKind, String),
    SerializationError(String),
    DeserializationError(DeserializeError),
    /// A bind value does not fit the placeholder's type.
    TypeMismatch,
}

pub type QueryResult<T> = Result<T, Error>;

pub open spec fn unexpected_null_message() -> Seq<char> {
    "Unexpected null for non-null column"@
}

impl DeserializeError {
    /// The fixed message of this error.
    pub fn message(&self) -> (r: String)
        ensures
            *self == DeserializeError::UnexpectedNull ==> r@ == unexpected_null_message(),
            *self == DeserializeError::UnexpectedEof ==> r@ == "failed to fill whole buffer"@,
            *self == DeserializeError::InvalidUtf8 ==> r@ == "invalid utf-8 sequence"@,
            *self == DeserializeError::InvalidJson ==> r@ == "Invalid Json"@,
    {
        match self {
            DeserializeError::UnexpectedNull => String::from_str("Unexpected null for non-null column"),
            DeserializeError::UnexpectedEof => String::from_str("failed to fill whole buffer"),
            DeserializeError::InvalidUtf8 => String::from_str("invalid utf-8 sequence"),
            DeserializeError::InvalidJson => String::from_str("Invalid Json"),
        }
    }
}

/// The error for SQL NULL in a column that is not nullable.
pub fn unexpected_null<T>() -> (r: Result<T, DeserializeError>)
    ensures
        r == Err::<T, DeserializeError>(DeserializeError::UnexpectedNull),
{
    Err(DeserializeError::UnexpectedNull)
}

} // verus!
