//! The table that the socket test server keeps, and the rows it starts with.
use vstd::prelude::*;
use vstd::string::StringExecFns;
use crate::create_table::{default_col, id_column, is_id_column, is_plain_column, ColumnDef, ColumnType};
use crate::data_structures::{ColumnValue, GetDataIn, SelectArgument};
use crate::table_row::Col;

verus! {

pub const FILEPATH: &'static str = "test_db.sqlite";

pub const TABLE_NAME: &'static str = "socket_testing_table";

pub const COLUMN_NAME: &'static str = "happy_col_name";

/// The columns of the table: the id column, then a text column.
pub fn column_definitions() -> (columns: Vec<ColumnDef>)
    ensures
        columns@.len() == 2,
        is_id_column(columns@[0]),
        is_plain_column(columns@[1], ColumnType::Text, COLUMN_NAME@, Seq::empty()),
{
    let mut columns = Vec::new();
    columns.push(id_column());
    columns.push(default_col(ColumnType::Text, COLUMN_NAME));
    columns
}

/// A text value for the table's text column.
pub open spec fn text_value(v: ColumnValue, text: Seq<char>) -> bool {
    &&& v.column_name@ == COLUMN_NAME@
    &&& v.value matches Col::Text(t) && t@ == text
}

fn text_cell(text: &str) -> (v: ColumnValue)
    ensures
        text_value(v, text@),
{
    ColumnValue { column_name: String::from_str(COLUMN_NAME), value: Col::Text(String::from_str(text)) }
}

/// The rows to insert, one value each: none when the table already has rows,
/// otherwise `text1`, `text2` and `text3`, in that order.
pub fn values_to_seed(any_rows_exist: bool) -> (values: Vec<ColumnValue>)
    ensures
        any_rows_exist ==> values@.len() == 0,
        !any_rows_exist ==> {
            &&& values@.len() == 3
            &&& text_value(values@[0], "text1"@)
            &&& text_value(values@[1], "text2"@)
            &&& text_value(values@[2], "text3"@)
        },
{
    let mut values = Vec::new();
    if !any_rows_exist {
        values.push(text_cell("text1"));
        values.push(text_cell("text2"));
        values.push(text_cell("text3"));
    }
    values
}

/// The read that tells whether the table has any rows: all columns, no condition.
pub fn all_rows_request() -> (request: GetDataIn)
    ensures
        request.table_name@ == TABLE_NAME@,
        request.arguments@.len() == 1,
        request.arguments@[0] matches SelectArgument::All,
        request.columns_to_read@.len() == 0,
{
    let mut arguments = Vec::new();
    arguments.push(SelectArgument::All);
    GetDataIn { table_name: String::from_str(TABLE_NAME), arguments, columns_to_read: Vec::new() }
}

} // verus!
