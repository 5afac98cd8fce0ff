use users_backend::statement::Statement;
use users_backend::table::{Table, MAX_ID};
use users_backend::user::User;

fn insert(name: &str, email: &str) -> Statement {
    Statement::InsertUser { name: name.to_string(), email: email.to_string() }
}

fn stored(id: i32, name: &str, email: &str) -> User {
    User { id: Some(id), name: name.to_string(), email: email.to_string() }
}

#[test]
fn a_new_table_is_empty() {
    let mut table = Table::new();
    assert_eq!(table.list(), vec![]);
    assert_eq!(table.query(Statement::SelectUsers).unwrap(), vec![]);
    assert_eq!(table.execute(Statement::SelectUsers).unwrap(), 0);
}

#[test]
fn creating_the_table_again_changes_nothing() {
    let mut table = Table::new();
    assert_eq!(table.execute(Statement::CreateTable).unwrap(), 0);
    table.execute(insert("a", "a@x.com")).unwrap();
    assert_eq!(table.execute(Statement::CreateTable).unwrap(), 0);
    assert_eq!(table.execute(Statement::CreateTable).unwrap(), 0);
    assert_eq!(table.list(), vec![stored(1, "a", "a@x.com")]);
}

#[test]
fn execute_reports_the_rows_affected() {
    let mut table = Table::new();
    assert_eq!(table.execute(insert("a", "a@x.com")).unwrap(), 1);
    assert_eq!(table.execute(insert("b", "b@x.com")).unwrap(), 1);
    assert_eq!(table.execute(Statement::SelectUsers).unwrap(), 2);

    let hit = Statement::UpdateUser { id: 2, name: "B".to_string(), email: "B@x.com".to_string() };
    let miss = Statement::UpdateUser { id: 3, name: "C".to_string(), email: "C@x.com".to_string() };
    assert_eq!(table.execute(hit).unwrap(), 1);
    assert_eq!(table.execute(miss).unwrap(), 0);
    assert_eq!(table.list(), vec![stored(1, "a", "a@x.com"), stored(2, "B", "B@x.com")]);

    assert_eq!(table.execute(Statement::DeleteUser { id: 7 }).unwrap(), 0);
    assert_eq!(table.execute(Statement::DeleteUser { id: 1 }).unwrap(), 1);
    assert_eq!(table.execute(Statement::DeleteUser { id: 1 }).unwrap(), 0);
    assert_eq!(table.list(), vec![stored(2, "B", "B@x.com")]);
}

#[test]
fn query_returns_rows_only_for_a_read() {
    let mut table = Table::new();
    assert_eq!(table.query(insert("a", "a@x.com")).unwrap(), vec![]);
    assert_eq!(table.query(Statement::CreateTable).unwrap(), vec![]);
    assert_eq!(table.query(Statement::SelectUsers).unwrap(), vec![stored(1, "a", "a@x.com")]);
    assert_eq!(table.query(Statement::DeleteUser { id: 1 }).unwrap(), vec![]);
    assert_eq!(table.query(Statement::SelectUsers).unwrap(), vec![]);
}

#[test]
fn deleting_the_first_middle_and_last_row_keeps_the_others_in_order() {
    let mut table = Table::new();
    for name in ["a", "b", "c", "d", "e"] {
        table.execute(insert(name, "x")).unwrap();
    }
    table.execute(Statement::DeleteUser { id: 3 }).unwrap();
    table.execute(Statement::DeleteUser { id: 1 }).unwrap();
    table.execute(Statement::DeleteUser { id: 5 }).unwrap();
    assert_eq!(table.list(), vec![stored(2, "b", "x"), stored(4, "d", "x")]);
}

#[test]
fn an_insert_is_refused_when_no_id_is_left() {
    let mut table = Table::new();
    table.skip_ids(MAX_ID as u32);
    let refused = table.execute(insert("a", "a@x.com")).unwrap_err();
    assert_eq!(
        refused.message,
        "nextval: reached maximum value of sequence \"users_id_seq\" (2147483647)"
    );
    let refused = table.query(insert("a", "a@x.com")).unwrap_err();
    assert_eq!(
        refused.message,
        "nextval: reached maximum value of sequence \"users_id_seq\" (2147483647)"
    );
    assert_eq!(table.list(), vec![]);
}

#[test]
fn skipping_stops_one_past_the_last_id() {
    let mut table = Table::new();
    table.skip_ids(u32::MAX);
    table.skip_ids(u32::MAX);
    assert!(table.execute(insert("a", "a@x.com")).is_err());

    let mut other = Table::new();
    other.skip_ids(MAX_ID as u32 - 1);
    assert_eq!(other.execute(insert("a", "a@x.com")).unwrap(), 1);
    assert_eq!(other.list(), vec![stored(MAX_ID, "a", "a@x.com")]);
}
