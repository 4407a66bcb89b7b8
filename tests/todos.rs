use todos::dispatch::{execute, Command, Outcome};
use todos::error::{RepositoryError, StorageError, TodoError, ValidationError};
use todos::table::TodoTable;
use todos::todo::{is_valid_description, Todo, MAX_DESCRIPTION_CHARS};

fn triples(t: &TodoTable) -> Vec<(u64, String, bool)> {
    t.list().into_iter().map(|r| (r.id, r.description, r.done)).collect()
}

fn row(id: u64, description: &str, done: bool) -> Todo {
    Todo { id, description: description.to_string(), done }
}

#[test]
fn scenario_add_two_then_mark_first_done() {
    let mut t = TodoTable::new();
    assert_eq!(t.add("buy milk".to_string()), Ok(1));
    assert_eq!(t.add("walk dog".to_string()), Ok(2));
    assert_eq!(
        triples(&t),
        vec![(1, "buy milk".to_string(), false), (2, "walk dog".to_string(), false)]
    );
    assert_eq!(t.mark_done(1), Ok(()));
    assert_eq!(
        triples(&t),
        vec![(1, "buy milk".to_string(), true), (2, "walk dog".to_string(), false)]
    );
}

#[test]
fn add_then_list_has_exactly_one_open_match() {
    let mut t = TodoTable::from_rows(vec![row(1, "read", true), row(2, "write", false)]).unwrap();
    assert_eq!(t.add("read".to_string()), Ok(3));
    let open: Vec<_> = triples(&t).into_iter().filter(|r| r.1 == "read" && !r.2).collect();
    assert_eq!(open, vec![(3, "read".to_string(), false)]);
}

#[test]
fn mark_done_changes_only_that_record() {
    let mut t = TodoTable::from_rows(vec![
        row(1, "a", false),
        row(4, "b", true),
        row(9, "c", false),
    ])
    .unwrap();
    assert_eq!(t.mark_done(9), Ok(()));
    assert_eq!(
        triples(&t),
        vec![(1, "a".to_string(), false), (4, "b".to_string(), true), (9, "c".to_string(), true)]
    );
}

#[test]
fn mark_done_twice_equals_once() {
    let mut once = TodoTable::new();
    once.add("x".to_string()).unwrap();
    once.add("y".to_string()).unwrap();
    let mut twice = TodoTable::from_rows(once.list()).unwrap();
    assert_eq!(once.mark_done(2), Ok(()));
    assert_eq!(twice.mark_done(2), Ok(()));
    assert_eq!(twice.mark_done(2), Ok(()));
    assert_eq!(triples(&once), triples(&twice));
}

#[test]
fn mark_done_unknown_id_is_not_found() {
    let mut t = TodoTable::new();
    t.add("only".to_string()).unwrap();
    let before = triples(&t);
    assert_eq!(t.mark_done(2), Err(RepositoryError::NotFound));
    assert_eq!(t.mark_done(0), Err(RepositoryError::NotFound));
    assert_eq!(triples(&t), before);
}

#[test]
fn add_rejects_empty_and_oversized_descriptions() {
    let mut t = TodoTable::new();
    let invalid = Err(TodoError::Validation(ValidationError::InvalidDescription));
    assert_eq!(t.add(String::new()), invalid);
    assert_eq!(t.add("a".repeat(MAX_DESCRIPTION_CHARS + 1)), invalid);
    assert!(triples(&t).is_empty());
    assert_eq!(t.add("a".repeat(MAX_DESCRIPTION_CHARS)), Ok(1));
}

#[test]
fn description_length_counts_characters() {
    assert_eq!(MAX_DESCRIPTION_CHARS, 250);
    assert!(is_valid_description(&"é".repeat(250)));
    assert!(!is_valid_description(&"é".repeat(251)));
    assert!(is_valid_description("x"));
    assert!(!is_valid_description(""));
}

#[test]
fn list_of_empty_table_is_empty() {
    assert!(TodoTable::new().list().is_empty());
    assert!(TodoTable::from_rows(Vec::new()).unwrap().list().is_empty());
}

#[test]
fn from_rows_refuses_broken_rows() {
    let read_failed = Some(StorageError::ReadFailed);
    assert_eq!(TodoTable::from_rows(vec![row(0, "a", false)]).err(), read_failed);
    assert_eq!(TodoTable::from_rows(vec![row(2, "a", false), row(2, "b", false)]).err(), read_failed);
    assert_eq!(TodoTable::from_rows(vec![row(3, "a", false), row(1, "b", false)]).err(), read_failed);
    assert_eq!(TodoTable::from_rows(vec![row(1, "", false)]).err(), read_failed);
    let t = TodoTable::from_rows(vec![row(2, "a", true), row(5, "b", false)]).unwrap();
    assert_eq!(triples(&t), vec![(2, "a".to_string(), true), (5, "b".to_string(), false)]);
}

#[test]
fn add_continues_after_largest_id() {
    let mut t = TodoTable::from_rows(vec![row(7, "a", false)]).unwrap();
    assert_eq!(t.add("b".to_string()), Ok(8));
}

#[test]
fn add_fails_when_ids_are_used_up() {
    let mut t = TodoTable::from_rows(vec![row(u64::MAX, "last", false)]).unwrap();
    assert_eq!(t.add("more".to_string()), Err(TodoError::Storage(StorageError::WriteFailed)));
    assert_eq!(triples(&t), vec![(u64::MAX, "last".to_string(), false)]);
}

#[test]
fn duplicate_copies_every_field() {
    let r = row(3, "copy me", true);
    let c = r.duplicate();
    assert_eq!((c.id, c.description, c.done), (3, "copy me".to_string(), true));
}

#[test]
fn execute_runs_each_command() {
    let mut t = TodoTable::new();
    match execute(&mut t, Command::Add { description: "buy milk".to_string() }) {
        Ok(Outcome::Added { id, description }) => {
            assert_eq!(id, 1);
            assert_eq!(description, "buy milk");
        }
        _ => panic!("add failed"),
    }
    assert!(matches!(execute(&mut t, Command::Done { id: 1 }), Ok(Outcome::MarkedDone { id: 1 })));
    match execute(&mut t, Command::List) {
        Ok(Outcome::Listed(v)) => {
            assert_eq!(v.len(), 1);
            assert_eq!((v[0].id, v[0].description.as_str(), v[0].done), (1, "buy milk", true));
        }
        _ => panic!("list failed"),
    }
}

#[test]
fn execute_reports_errors() {
    let mut t = TodoTable::new();
    assert!(matches!(
        execute(&mut t, Command::Add { description: String::new() }),
        Err(TodoError::Validation(ValidationError::InvalidDescription))
    ));
    assert!(matches!(
        execute(&mut t, Command::Done { id: 5 }),
        Err(TodoError::Repository(RepositoryError::NotFound))
    ));
    assert!(triples(&t).is_empty());
}
