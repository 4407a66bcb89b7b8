//! Facts about the table's operations, stated over the models that the
//! operations' contracts use.

use vstd::prelude::*;

use crate::table::{add_model, has_id, mark_done_model, next_id, valid_rows};
use crate::todo::{valid_description, TodoView, MAX_DESCRIPTION_CHARS};

verus! {

/// After adding a valid description `d` to a table that has no open record
/// with that description, exactly one record of the table is open and has
/// description `d`: the new last one, under the next id. The table still
/// obeys its rules.
pub proof fn lemma_add_then_list(s: Seq<TodoView>, d: Seq<char>)
    requires
        valid_rows(s),
        valid_description(d),
        next_id(s) <= u64::MAX,
        forall|k: int| 0 <= k < s.len() ==> !(#[trigger] s[k].description == d && !s[k].done),
    ensures
        valid_rows(add_model(s, d)),
        ({
            let t = add_model(s, d);
            &&& t.len() == s.len() + 1
            &&& t.last().id == next_id(s)
            &&& t.last().description == d
            &&& !t.last().done
            &&& forall|k: int|
                0 <= k < t.len() && #[trigger] t[k].description == d && !t[k].done ==> k == s.len()
        }),
{
    let t = add_model(s, d);
    assert forall|a: int, b: int| 0 <= a < b < t.len() implies t[a].id < t[b].id by {
        if b == s.len() {
            assert(s[a].id <= s.last().id);
        }
    }
    assert forall|k: int| 0 <= k < t.len() implies t[k].id >= 1 && valid_description(
        #[trigger] t[k].description,
    ) by {
        if k < s.len() {
            assert(t[k] == s[k]);
        }
    }
    assert forall|k: int|
        0 <= k < t.len() && #[trigger] t[k].description == d && !t[k].done implies k
        == s.len() by {
        if k < s.len() {
            assert(t[k] == s[k]);
        }
    }
}

/// After marking an existing id `i` done, the record with id `i` is done,
/// and every record keeps its id and description; every record with another
/// id keeps its flag. The table still obeys its rules.
pub proof fn lemma_mark_done_then_list(s: Seq<TodoView>, i: u64)
    requires
        valid_rows(s),
        has_id(s, i),
    ensures
        valid_rows(mark_done_model(s, i)),
        ({
            let t = mark_done_model(s, i);
            &&& t.len() == s.len()
            &&& exists|k: int| 0 <= k < t.len() && #[trigger] t[k].id == i && t[k].done
            &&& forall|k: int|
                0 <= k < t.len() ==> {
                    &&& #[trigger] t[k].id == s[k].id
                    &&& t[k].description == s[k].description
                    &&& t[k].done == (s[k].done || s[k].id == i)
                }
        }),
{
    let t = mark_done_model(s, i);
    let k0 = choose|k: int| 0 <= k < s.len() && s[k].id == i;
    assert(t[k0].id == i && t[k0].done);
    assert forall|a: int, b: int| 0 <= a < b < t.len() implies t[a].id < t[b].id by {
        assert(t[a].id == s[a].id && t[b].id == s[b].id);
    }
    assert forall|k: int| 0 <= k < t.len() implies t[k].id >= 1 && valid_description(
        #[trigger] t[k].description,
    ) by {
        assert(t[k].description == s[k].description);
    }
}

/// Marking the same id done twice leaves the table as marking it once, and
/// the second call succeeds exactly when the first did.
pub proof fn lemma_mark_done_idempotent(s: Seq<TodoView>, i: u64)
    ensures
        mark_done_model(mark_done_model(s, i), i) == mark_done_model(s, i),
        has_id(mark_done_model(s, i), i) == has_id(s, i),
{
    let t = mark_done_model(s, i);
    assert(mark_done_model(t, i) =~= t);
    if has_id(s, i) {
        let k = choose|k: int| 0 <= k < s.len() && s[k].id == i;
        assert(t[k].id == i);
    }
    if has_id(t, i) {
        let k = choose|k: int| 0 <= k < t.len() && t[k].id == i;
        assert(s[k].id == i);
    }
}

/// Marking done an id that no record has leaves the table unchanged.
pub proof fn lemma_mark_done_missing(s: Seq<TodoView>, i: u64)
    requires
        !has_id(s, i),
    ensures
        mark_done_model(s, i) == s,
{
    assert forall|k: int| 0 <= k < s.len() implies s[k].id != i by {}
    assert(mark_done_model(s, i) =~= s);
}

/// An empty description, and one longer than the limit, is invalid, so
/// adding it is refused and leaves the table unchanged.
pub proof fn lemma_invalid_descriptions(d: Seq<char>)
    requires
        d.len() == 0 || d.len() > MAX_DESCRIPTION_CHARS,
    ensures
        !valid_description(d),
{
}

/// An empty table obeys the table's rules, so reading no rows gives an empty
/// table, and listing it gives no records.
pub proof fn lemma_empty_table_valid()
    ensures
        valid_rows(Seq::<TodoView>::empty()),
{
}

} // verus!
