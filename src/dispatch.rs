use vstd::prelude::*;

use crate::error::{RepositoryError, StorageError, TodoError, ValidationError};
use crate::table::{add_model, has_id, mark_done_model, next_id, views_of, TodoTable};
use crate::todo::{valid_description, Todo};

verus! {

/// One invocation's request.
pub enum Command {
    /// Show all records.
    List,
    /// Add a record with this description.
    Add { description: String },
    /// Mark the record with this id done.
    Done { id: u64 },
}

/// What a command did, for the caller to persist and report.
pub enum Outcome {
    /// The records, in ascending id order.
    Listed(Vec<Todo>),
    /// A record was added under `id`.
    Added { id: u64, description: String },
    /// The record with `id` is now done.
    MarkedDone { id: u64 },
}

/// Runs one command against `table`.
pub fn execute(table: &mut TodoTable, cmd: Command) -> (r: Result<Outcome, TodoError>)
    requires
        old(table).wf(),
    ensures
        final(table).wf(),
        match cmd {
            Command::List => {
                &&& final(table)@ == old(table)@
                &&& (r matches Ok(Outcome::Listed(v)) && views_of(v@) == old(table)@)
            },
            Command::Add { description } => {
                &&& !valid_description(description@) ==> r == Err::<Outcome, TodoError>(
                    TodoError::Validation(ValidationError::InvalidDescription),
                ) && final(table)@ == old(table)@
                &&& valid_description(description@) && next_id(old(table)@) > u64::MAX ==> r
                    == Err::<Outcome, TodoError>(TodoError::Storage(StorageError::WriteFailed))
                    && final(table)@ == old(table)@
                &&& valid_description(description@) && next_id(old(table)@) <= u64::MAX ==> (
                r matches Ok(Outcome::Added { id, description: d }) && id == next_id(
                    old(table)@,
                ) && d@ == description@) && final(table)@ == add_model(
                    old(table)@,
                    description@,
                )
            },
            Command::Done { id } => {
                &&& final(table)@ == mark_done_model(old(table)@, id)
                &&& has_id(old(table)@, id) ==> (r matches Ok(Outcome::MarkedDone { id: j })
                    && j == id)
                &&& !has_id(old(table)@, id) ==> r == Err::<Outcome, TodoError>(
                    TodoError::Repository(RepositoryError::NotFound),
                )
            },
        },
{
    match cmd {
        Command::List => Ok(Outcome::Listed(table.list())),
        Command::Add { description } => {
            let d = description.clone();
            match table.add(description) {
                Ok(id) => Ok(Outcome::Added { id, description: d }),
                Err(e) => Err(e),
            }
        },
        Command::Done { id } => match table.mark_done(id) {
            Ok(()) => Ok(Outcome::MarkedDone { id }),
            Err(e) => Err(TodoError::Repository(e)),
        },
    }
}

} // verus!
