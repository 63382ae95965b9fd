use progress::{RowError, SqlValue, Task};

fn row() -> Vec<SqlValue> {
    vec![
        SqlValue::Integer(12),
        SqlValue::Text("Groceries".to_string()),
        SqlValue::Integer(2),
        SqlValue::Integer(1),
        SqlValue::Integer(0),
        SqlValue::Integer(3),
        SqlValue::Integer(0),
        SqlValue::Integer(0),
        SqlValue::Text(String::new()),
        SqlValue::Integer(1_650_000_000),
    ]
}

#[test]
fn row_decodes_in_column_order() {
    let t = Task::try_from(&row()).unwrap();
    assert_eq!(t.id, 12);
    assert_eq!(t.name, "Groceries");
    assert!(t.done);
    assert_eq!(t.project, 1);
    assert_eq!(t.section, 0);
    assert_eq!(t.position, 3);
    assert!(!t.suspended);
    assert_eq!(t.parent, 0);
    assert_eq!(t.description, "");
    assert_eq!(t.date, 1_650_000_000);
}

#[test]
fn row_with_missing_column_fails() {
    let mut r = row();
    r.truncate(9);
    assert_eq!(Task::try_from(&r).err(), Some(RowError::InvalidColumnIndex(9)));
    assert_eq!(Task::try_from(&vec![]).err(), Some(RowError::InvalidColumnIndex(0)));
}

#[test]
fn row_with_wrong_type_fails_at_first_bad_column() {
    let mut r = row();
    r[3] = SqlValue::Text("x".to_string());
    r[8] = SqlValue::Null;
    assert_eq!(Task::try_from(&r).err(), Some(RowError::InvalidColumnType(3)));
    let mut r = row();
    r[1] = SqlValue::Integer(5);
    assert_eq!(Task::try_from(&r).err(), Some(RowError::InvalidColumnType(1)));
    let mut r = row();
    r[9] = SqlValue::Real;
    assert_eq!(Task::try_from(&r).err(), Some(RowError::InvalidColumnType(9)));
}

#[test]
fn row_with_position_out_of_range_fails() {
    let mut r = row();
    r[5] = SqlValue::Integer(1 << 40);
    assert_eq!(Task::try_from(&r).err(), Some(RowError::IntegralValueOutOfRange(5, 1 << 40)));
}
