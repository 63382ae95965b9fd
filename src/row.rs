use vstd::prelude::*;

use crate::task::{Task, TaskView};

verus! {

/// The value of one column of a stored row, by storage class.
pub enum SqlValue {
    Null,
    Integer(i64),
    /// A floating-point value; no task column accepts one.
    Real,
    Text(String),
    Blob(Vec<u8>),
}

/// Why a stored row could not be read as a task.
#[derive(Clone, Copy, PartialEq, Eq, Structural, Debug)]
pub enum RowError {
    /// The row has no column at this index.
    InvalidColumnIndex(usize),
    /// The column at this index does not hold the type its field needs.
    InvalidColumnType(usize),
    /// The integer at this index does not fit the 32-bit field it is read into.
    IntegralValueOutOfRange(usize, i64),
}

/// The storage a task field needs from its column.
pub enum ColumnKind {
    /// A 64-bit integer.
    Int64,
    /// A 32-bit integer, stored as an integer.
    Int32,
    /// A boolean, stored as an integer (nonzero is true).
    Bool,
    /// A string, stored as text.
    Text,
}

/// The kind of column `i` of a task row: id, name, done, project, section,
/// position, suspended, parent, description, date.
pub open spec fn column_kind(i: int) -> ColumnKind {
    if i == 1 || i == 8 {
        ColumnKind::Text
    } else if i == 2 || i == 6 {
        ColumnKind::Bool
    } else if i == 5 {
        ColumnKind::Int32
    } else {
        ColumnKind::Int64
    }
}

/// The error that reading column `i` of `cols` as its field gives, if any.
pub open spec fn column_error(cols: Seq<SqlValue>, i: int) -> Option<RowError> {
    if i >= cols.len() {
        Some(RowError::InvalidColumnIndex(i as usize))
    } else {
        match (column_kind(i), cols[i]) {
            (ColumnKind::Int64, SqlValue::Integer(_)) => None,
            (ColumnKind::Bool, SqlValue::Integer(_)) => None,
            (ColumnKind::Int32, SqlValue::Integer(x)) => if i32::MIN <= x <= i32::MAX {
                None
            } else {
                Some(RowError::IntegralValueOutOfRange(i as usize, x))
            },
            (ColumnKind::Text, SqlValue::Text(_)) => None,
            _ => Some(RowError::InvalidColumnType(i as usize)),
        }
    }
}

/// Whether every column of a task row reads as its field.
pub open spec fn row_fits(cols: Seq<SqlValue>) -> bool {
    forall|i: int| 0 <= i < 10 ==> column_error(cols, i) is None
}

/// Whether `e` is the error of the first column of a task row that does not read.
pub open spec fn first_row_error(cols: Seq<SqlValue>, e: RowError) -> bool {
    exists|i: int|
        0 <= i < 10 && column_error(cols, i) == Some(e) && forall|j: int|
            0 <= j < i ==> column_error(cols, j) is None
}

/// The task that the ten columns of `cols` describe.
pub open spec fn task_of_columns(cols: Seq<SqlValue>) -> TaskView {
    TaskView {
        id: cols[0]->Integer_0,
        name: cols[1]->Text_0@,
        done: cols[2]->Integer_0 != 0,
        project: cols[3]->Integer_0,
        section: cols[4]->Integer_0,
        position: cols[5]->Integer_0 as i32,
        suspended: cols[6]->Integer_0 != 0,
        parent: cols[7]->Integer_0,
        description: cols[8]->Text_0@,
        date: cols[9]->Integer_0,
    }
}

fn get_int(cols: &Vec<SqlValue>, i: usize) -> (r: Result<i64, RowError>)
    ensures
        i >= cols@.len() ==> r == Err::<i64, RowError>(RowError::InvalidColumnIndex(i)),
        i < cols@.len() && cols@[i as int] is Integer ==> r == Ok::<i64, RowError>(
            cols@[i as int]->Integer_0,
        ),
        i < cols@.len() && !(cols@[i as int] is Integer) ==> r == Err::<i64, RowError>(
            RowError::InvalidColumnType(i),
        ),
{
    if i >= cols.len() {
        return Err(RowError::InvalidColumnIndex(i));
    }
    match &cols[i] {
        SqlValue::Integer(x) => Ok(*x),
        _ => Err(RowError::InvalidColumnType(i)),
    }
}

fn get_i32(cols: &Vec<SqlValue>, i: usize) -> (r: Result<i32, RowError>)
    ensures
        i >= cols@.len() ==> r == Err::<i32, RowError>(RowError::InvalidColumnIndex(i)),
        i < cols@.len() && cols@[i as int] is Integer ==> {
            let x = cols@[i as int]->Integer_0;
            &&& i32::MIN <= x <= i32::MAX ==> r == Ok::<i32, RowError>(x as i32)
            &&& !(i32::MIN <= x <= i32::MAX) ==> r == Err::<i32, RowError>(
                RowError::IntegralValueOutOfRange(i, x),
            )
        },
        i < cols@.len() && !(cols@[i as int] is Integer) ==> r == Err::<i32, RowError>(
            RowError::InvalidColumnType(i),
        ),
{
    match get_int(cols, i) {
        Ok(x) => if i32::MIN as i64 <= x && x <= i32::MAX as i64 {
            Ok(x as i32)
        } else {
            Err(RowError::IntegralValueOutOfRange(i, x))
        },
        Err(e) => Err(e),
    }
}

fn get_text(cols: &Vec<SqlValue>, i: usize) -> (r: Result<String, RowError>)
    ensures
        i >= cols@.len() ==> r is Err && r->Err_0 == RowError::InvalidColumnIndex(i),
        i < cols@.len() && cols@[i as int] is Text ==> r is Ok && r->Ok_0@ == cols@[i as int]->Text_0@,
        i < cols@.len() && !(cols@[i as int] is Text) ==> r is Err && r->Err_0
            == RowError::InvalidColumnType(i),
{
    if i >= cols.len() {
        return Err(RowError::InvalidColumnIndex(i));
    }
    match &cols[i] {
        SqlValue::Text(s) => Ok(s.clone()),
        _ => Err(RowError::InvalidColumnType(i)),
    }
}

impl Task {
    /// The task stored in a row whose columns are, in order: id, name, done,
    /// project, section, position, suspended, parent, description, date.
    /// Fails with the error of the first column that is missing or does not
    /// hold what its field needs; extra columns are not read.
    pub fn try_from(cols: &Vec<SqlValue>) -> (r: Result<Task, RowError>)
        ensures
            r is Ok <==> row_fits(cols@),
            r is Ok ==> r->Ok_0@ == task_of_columns(cols@),
            r is Err ==> first_row_error(cols@, r->Err_0),
    {
        let id = match get_int(cols, 0) {
            Ok(x) => x,
            Err(e) => {
                assert(column_error(cols@, 0) == Some(e));
                return Err(e);
            },
        };
        assert(column_error(cols@, 0) is None);
        let name = match get_text(cols, 1) {
            Ok(x) => x,
            Err(e) => {
                assert(column_error(cols@, 1) == Some(e));
                return Err(e);
            },
        };
        assert(column_error(cols@, 1) is None);
        let done = match get_int(cols, 2) {
            Ok(x) => x != 0,
            Err(e) => {
                assert(column_error(cols@, 2) == Some(e));
                return Err(e);
            },
        };
        assert(column_error(cols@, 2) is None);
        let project = match get_int(cols, 3) {
            Ok(x) => x,
            Err(e) => {
                assert(column_error(cols@, 3) == Some(e));
                return Err(e);
            },
        };
        assert(column_error(cols@, 3) is None);
        let section = match get_int(cols, 4) {
            Ok(x) => x,
            Err(e) => {
                assert(column_error(cols@, 4) == Some(e));
                return Err(e);
            },
        };
        assert(column_error(cols@, 4) is None);
        let position = match get_i32(cols, 5) {
            Ok(x) => x,
            Err(e) => {
                assert(column_error(cols@, 5) == Some(e));
                return Err(e);
            },
        };
        assert(column_error(cols@, 5) is None);
        let suspended = match get_int(cols, 6) {
            Ok(x) => x != 0,
            Err(e) => {
                assert(column_error(cols@, 6) == Some(e));
                return Err(e);
            },
        };
        assert(column_error(cols@, 6) is None);
        let parent = match get_int(cols, 7) {
            Ok(x) => x,
            Err(e) => {
                assert(column_error(cols@, 7) == Some(e));
                return Err(e);
            },
        };
        assert(column_error(cols@, 7) is None);
        let description = match get_text(cols, 8) {
            Ok(x) => x,
            Err(e) => {
                assert(column_error(cols@, 8) == Some(e));
                return Err(e);
            },
        };
        assert(column_error(cols@, 8) is None);
        let date = match get_int(cols, 9) {
            Ok(x) => x,
            Err(e) => {
                assert(column_error(cols@, 9) == Some(e));
                return Err(e);
            },
        };
        assert(column_error(cols@, 9) is None);
        Ok(Task { id, name, done, project, section, position, suspended, parent, description, date })
    }
}

} // verus!
