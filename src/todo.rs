use vstd::prelude::*;
use vstd::string::StrSliceExecFns;

verus! {

/// The most characters a description may hold.
pub const MAX_DESCRIPTION_CHARS: usize = 250;

/// A description is valid when it holds at least one and at most
/// `MAX_DESCRIPTION_CHARS` characters.
pub open spec fn valid_description(d: Seq<char>) -> bool {
    1 <= d.len() <= MAX_DESCRIPTION_CHARS
}

/// A todo as the contracts see it.
pub struct TodoView {
    pub id: u64,
    pub description: Seq<char>,
    pub done: bool,
}

/// A todo record.
#[derive(Debug, Clone)]
pub struct Todo {
    pub id: u64,
    pub description: String,
    pub done: bool,
}

impl View for Todo {
    type V = TodoView;

    open spec fn view(&self) -> TodoView {
        TodoView { id: self.id, description: self.description@, done: self.done }
    }
}

impl Todo {
    /// A copy of this record.
    pub fn duplicate(&self) -> (r: Todo)
        ensures
            r@ == self@,
    {
        Todo { id: self.id, description: self.description.clone(), done: self.done }
    }
}

/// Whether `d` is a valid description, counted in characters.
pub fn is_valid_description(d: &str) -> (r: bool)
    ensures
        r == valid_description(d@),
{
    let n: usize = d.unicode_len();
    1 <= n && n <= MAX_DESCRIPTION_CHARS
}

} // verus!
