use vstd::prelude::*;

verus! {

/// A failure of the persistent store.
#[derive(Debug, Clone, Copy, PartialEq, Eq, Structural)]
pub enum StorageError {
    /// The storage container could not be created.
    CreateFailed,
    /// The table could not be created or validated.
    SchemaFailed,
    /// Reading the records failed, or what was read breaks the table's rules.
    ReadFailed,
    /// Writing a record failed.
    WriteFailed,
}

/// Caller-supplied data breaks a rule.
#[derive(Debug, Clone, Copy, PartialEq, Eq, Structural)]
pub enum ValidationError {
    /// A description is empty or longer than the limit.
    InvalidDescription,
}

/// A referenced record does not exist.
#[derive(Debug, Clone, Copy, PartialEq, Eq, Structural)]
pub enum RepositoryError {
    NotFound,
}

/// Any failure of a command.
#[derive(Debug, Clone, Copy, PartialEq, Eq, Structural)]
pub enum TodoError {
    Storage(StorageError),
    Validation(ValidationError),
    Repository(RepositoryError),
}

} // verus!
