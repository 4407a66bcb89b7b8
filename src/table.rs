use vstd::prelude::*;

use crate::error::{RepositoryError, StorageError, TodoError, ValidationError};
use crate::todo::{is_valid_description, valid_description, Todo, TodoView};

verus! {

/// The views of a sequence of records.
pub open spec fn views_of(v: Seq<Todo>) -> Seq<TodoView> {
    v.map_values(|t: Todo| t@)
}

/// Ids strictly ascend along `s`, so that each id names at most one record.
pub open spec fn ids_ascending(s: Seq<TodoView>) -> bool {
    forall|i: int, j: int| 0 <= i < j < s.len() ==> s[i].id < s[j].id
}

/// The rules every stored table obeys: ids are positive and ascend, and
/// every description is valid.
pub open spec fn valid_rows(s: Seq<TodoView>) -> bool {
    &&& ids_ascending(s)
    &&& forall|i: int| 0 <= i < s.len() ==> s[i].id >= 1
    &&& forall|i: int| 0 <= i < s.len() ==> valid_description(#[trigger] s[i].description)
}

/// The id the next added record receives: one past the largest, or 1 when
/// the table is empty.
pub open spec fn next_id(s: Seq<TodoView>) -> int {
    if s.len() == 0 {
        1
    } else {
        s.last().id + 1
    }
}

/// Whether some record of `s` has id `id`.
pub open spec fn has_id(s: Seq<TodoView>, id: u64) -> bool {
    exists|i: int| 0 <= i < s.len() && s[i].id == id
}

/// The table after adding a record with description `d`.
pub open spec fn add_model(s: Seq<TodoView>, d: Seq<char>) -> Seq<TodoView> {
    s.push(TodoView { id: next_id(s) as u64, description: d, done: false })
}

/// The table after marking the record with id `id` done; every other record
/// is kept as it was.
pub open spec fn mark_done_model(s: Seq<TodoView>, id: u64) -> Seq<TodoView> {
    s.map_values(
        |t: TodoView|
            if t.id == id {
                TodoView { id: t.id, description: t.description, done: true }
            } else {
                t
            },
    )
}

/// The todo table: records in ascending id order.
pub struct TodoTable {
    rows: Vec<Todo>,
}

impl View for TodoTable {
    type V = Seq<TodoView>;

    closed spec fn view(&self) -> Seq<TodoView> {
        views_of(self.rows@)
    }
}

impl TodoTable {
    /// The table obeys the rules of a stored table.
    pub open spec fn wf(&self) -> bool {
        valid_rows(self@)
    }

    /// An empty table.
    pub fn new() -> (r: TodoTable)
        ensures
            r@ == Seq::<TodoView>::empty(),
            r.wf(),
    {
        let r = TodoTable { rows: Vec::new() };
        assert(r@ =~= Seq::<TodoView>::empty());
        r
    }

    /// A table holding `rows` as read from storage, in the order given.
    /// Rows that break the table's rules are refused with `ReadFailed`.
    pub fn from_rows(rows: Vec<Todo>) -> (r: Result<TodoTable, StorageError>)
        ensures
            valid_rows(views_of(rows@)) ==> (r matches Ok(t) && t@ == views_of(rows@) && t.wf()),
            !valid_rows(views_of(rows@)) ==> r == Err::<TodoTable, StorageError>(
                StorageError::ReadFailed,
            ),
    {
        let n: usize = rows.len();
        let mut i: usize = 0;
        while i < n
            invariant
                n == rows@.len(),
                i <= n,
                valid_rows(views_of(rows@).take(i as int)),
            decreases n - i,
        {
            let ghost s = views_of(rows@);
            let row = &rows[i];
            if row.id == 0 {
                assert(s[i as int].id == 0);
                return Err(StorageError::ReadFailed);
            }
            if !is_valid_description(row.description.as_str()) {
                assert(!valid_description(s[i as int].description));
                return Err(StorageError::ReadFailed);
            }
            if i > 0 && rows[i - 1].id >= row.id {
                assert(!valid_rows(s)) by {
                    assert(s[i - 1] == rows@[i - 1]@);
                    assert(s[i as int] == row@);
                }
                return Err(StorageError::ReadFailed);
            }
            proof {
                let t = s.take(i as int);
                let t2 = s.take(i + 1);
                assert forall|a: int, b: int| 0 <= a < b < t2.len() implies t2[a].id < t2[b].id by {
                    if b < i {
                        assert(t[a] == t2[a] && t[b] == t2[b]);
                    } else if a < i - 1 {
                        assert(t[a] == t2[a]);
                        assert(t[i - 1] == t2[i - 1]);
                    }
                }
                assert forall|a: int| 0 <= a < t2.len() implies t2[a].id >= 1 && valid_description(
                    #[trigger] t2[a].description,
                ) by {
                    if a < i {
                        assert(t[a] == t2[a]);
                    }
                }
            }
            i += 1;
        }
        assert(views_of(rows@).take(n as int) =~= views_of(rows@));
        Ok(TodoTable { rows })
    }

    /// All records, in ascending id order.
    pub fn list(&self) -> (r: Vec<Todo>)
        ensures
            views_of(r@) == self@,
    {
        let mut out: Vec<Todo> = Vec::new();
        let n: usize = self.rows.len();
        let mut i: usize = 0;
        while i < n
            invariant
                n == self.rows@.len(),
                i <= n,
                views_of(out@) =~= self@.take(i as int),
            decreases n - i,
        {
            let ghost before = out@;
            out.push(self.rows[i].duplicate());
            assert(views_of(out@) =~= views_of(before).push(self@[i as int]));
            i += 1;
        }
        assert(self@.take(n as int) =~= self@);
        out
    }

    /// Adds a record with a fresh id, description `description` and not done,
    /// and returns its id. An invalid description is refused before anything
    /// changes; so is an add when the id space is used up.
    pub fn add(&mut self, description: String) -> (r: Result<u64, TodoError>)
        requires
            old(self).wf(),
        ensures
            final(self).wf(),
            !valid_description(description@) ==> r == Err::<u64, TodoError>(
                TodoError::Validation(ValidationError::InvalidDescription),
            ) && final(self)@ == old(self)@,
            valid_description(description@) && next_id(old(self)@) > u64::MAX ==> r == Err::<
                u64,
                TodoError,
            >(TodoError::Storage(StorageError::WriteFailed)) && final(self)@ == old(self)@,
            valid_description(description@) && next_id(old(self)@) <= u64::MAX ==> r == Ok::<
                u64,
                TodoError,
            >(next_id(old(self)@) as u64) && final(self)@ == add_model(
                old(self)@,
                description@,
            ),
    {
        if !is_valid_description(description.as_str()) {
            return Err(TodoError::Validation(ValidationError::InvalidDescription));
        }
        let n: usize = self.rows.len();
        let id: u64 = if n == 0 {
            1
        } else {
            let last: u64 = self.rows[n - 1].id;
            if last == u64::MAX {
                return Err(TodoError::Storage(StorageError::WriteFailed));
            }
            last + 1
        };
        let ghost s = self@;
        self.rows.push(Todo { id, description, done: false });
        assert(self@ =~= add_model(s, description@));
        Ok(id)
    }

    /// Marks the record with id `id` done; marking a done record again
    /// changes nothing. An unknown id is refused with `NotFound`.
    pub fn mark_done(&mut self, id: u64) -> (r: Result<(), RepositoryError>)
        requires
            old(self).wf(),
        ensures
            final(self).wf(),
            final(self)@ == mark_done_model(old(self)@, id),
            r is Ok <==> has_id(old(self)@, id),
            r is Err ==> r == Err::<(), RepositoryError>(RepositoryError::NotFound),
    {
        let n: usize = self.rows.len();
        let mut i: usize = 0;
        while i < n
            invariant
                n == self.rows@.len(),
                i <= n,
                self.rows@ == old(self).rows@,
                self.wf(),
                forall|k: int| 0 <= k < i ==> self@[k].id != id,
            decreases n - i,
        {
            if self.rows[i].id == id {
                let ghost s = self@;
                self.rows[i].done = true;
                proof {
                    let m = mark_done_model(s, id);
                    assert forall|k: int| 0 <= k < s.len() && k != i implies s[k].id != id by {
                        if k < i {
                        } else {
                            assert(s[i as int].id < s[k].id);
                        }
                    }
                    assert(self@ =~= m);
                }
                return Ok(());
            }
            i += 1;
        }
        assert(self@ =~= mark_done_model(self@, id));
        Err(RepositoryError::NotFound)
    }
}

} // verus!
