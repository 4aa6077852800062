//! The request and reply records that travel between the client and the
//! database server, and the WHERE conditions a client can ask for.
use vstd::prelude::*;
use crate::create_table::ColumnDef;
use crate::db_error::DbError;
use crate::sql_statements::{quote_value, quoted_value};
use crate::table_row::{Col, Row};
use crate::text::{
    double_char, double_quote_char, join, join_strings, lemma_double_char_inverse, quotes_paired, undouble_char,
    views,
};

verus! {

#[derive(Debug)]
pub struct CreateTableIn {
    pub table_name: String,
    pub columns: Vec<ColumnDef>,
}

/// `None` when the table was created.
#[derive(Debug)]
pub struct CreateTableOut {
    pub result: Option<DbError>,
}

#[derive(Debug, Clone)]
pub struct ListTablesOut {
    pub table_names: Vec<String>,
}

/// One condition of a SELECT: column `x` compared with the value `y`.
#[derive(Debug, Clone)]
pub enum SelectArgument {
    XEqualY { x: String, y: String },
    XNotEqualY { x: String, y: String },
    XGreaterThanY { x: String, y: String },
    XLessThanY { x: String, y: String },
    XGreaterThanOrEqualY { x: String, y: String },
    XLessThanOrEqualY { x: String, y: String },
    XLikeY { x: String, y: String },
    XInY { x: String, y: Vec<String> },
    All,
}

#[derive(Debug, Clone)]
pub struct GetDataIn {
    pub table_name: String,
    pub arguments: Vec<SelectArgument>,
    pub columns_to_read: Vec<String>,
}

#[derive(Debug, Clone)]
pub struct GetDataOut {
    pub rows: Vec<Row>,
}

#[derive(Debug, Clone)]
pub struct GetDataOrderedIn {
    pub table_name: String,
    pub arguments: Vec<SelectArgument>,
    pub columns_to_read: Vec<String>,
    pub order_by: String,
}

#[derive(Debug, Clone)]
pub struct ColumnValue {
    pub column_name: String,
    pub value: Col,
}

#[derive(Debug, Clone)]
pub struct InsertDataIn {
    pub table_name: String,
    pub values: Vec<ColumnValue>,
}

/// `None` when the row was inserted.
#[derive(Debug)]
pub struct InsertDataOut {
    pub result: Option<DbError>,
}

#[derive(Debug, Clone)]
pub struct DropTableIn {
    pub table_name: String,
}

#[derive(Debug, Clone)]
pub struct EditColInRowIn {
    pub table_name: String,
    pub row_id: String,
    pub column: String,
    pub new_value: Col,
}

#[derive(Debug, Clone)]
pub struct CheckTableIn {
    pub table_name: String,
}

#[derive(Debug, Clone)]
pub struct TableColumnInfo {
    pub cid: i64,
    pub name: String,
    /// the column's declared SQL type
    pub declared_type: String,
    pub not_null: bool,
    pub default_value: Option<String>,
    pub primary_key: bool,
}

#[derive(Debug, Clone)]
pub struct CheckTableOut {
    pub columns: Vec<TableColumnInfo>,
}

#[derive(Debug, Clone)]
pub struct DeleteRowIn {
    pub table_name: String,
    pub row_id: String,
}

#[derive(Debug, Clone)]
pub struct SwapColumnsIn {
    pub table_name: String,
    pub row_id_1: String,
    pub row_id_2: String,
    pub column: String,
}

#[derive(Debug, Clone)]
pub struct CreateIndexIn {
    pub table_name: String,
    pub column_name: String,
}

#[derive(Debug, Clone)]
pub struct CheckIndexIn {
    pub table_name: String,
    pub column_name: String,
}

#[derive(Debug, Clone)]
pub struct CheckIndexOut {
    pub is_indexed: bool,
}

#[derive(Debug, Clone)]
pub struct AddColumnIn {
    pub table_name: String,
    pub column: ColumnDef,
}

#[derive(Debug, Clone)]
pub struct ExportDatabaseIn {}

#[derive(Debug, Clone)]
pub struct ExportDatabaseOut {
    pub data: Vec<u8>,
}

#[derive(Debug, Clone)]
pub struct RemoveColumnIn {
    pub table_name: String,
    pub column_name: String,
}

#[derive(Debug, Clone)]
pub struct ExportTablesIn {
    pub table_names: Vec<String>,
}

#[derive(Debug, Clone)]
pub struct TableExport {
    pub table_name: String,
    pub columns: Vec<TableColumnInfo>,
    pub rows: Vec<Row>,
}

#[derive(Debug, Clone)]
pub struct ExportTablesOut {
    pub tables: Vec<TableExport>,
}

#[derive(Debug, Clone)]
pub struct CreateTableFromExportIn {
    pub table_name: String,
    pub table: TableExport,
}

#[derive(Debug, Clone)]
pub struct CopyTableIn {
    pub source_table_name: String,
    pub new_table_name: String,
}

/// A column name between double quotes, each double quote inside it doubled.
pub open spec fn quoted_ident(ident: Seq<char>) -> Seq<char> {
    "\""@ + double_char(ident, '"') + "\""@
}

/// `x`, the operator, then `y`, with `x` quoted as a name and `y` as a value.
pub open spec fn comparison(x: Seq<char>, op: Seq<char>, y: Seq<char>) -> Seq<char> {
    quoted_ident(x) + op + quoted_value(y)
}

/// The SQL condition that a select argument stands for; `All` stands for none.
pub open spec fn sql_condition(arg: SelectArgument) -> Seq<char> {
    match arg {
        SelectArgument::XEqualY { x, y } => comparison(x@, " = "@, y@),
        SelectArgument::XNotEqualY { x, y } => comparison(x@, " != "@, y@),
        SelectArgument::XGreaterThanY { x, y } => comparison(x@, " > "@, y@),
        SelectArgument::XLessThanY { x, y } => comparison(x@, " < "@, y@),
        SelectArgument::XGreaterThanOrEqualY { x, y } => comparison(x@, " >= "@, y@),
        SelectArgument::XLessThanOrEqualY { x, y } => comparison(x@, " <= "@, y@),
        SelectArgument::XLikeY { x, y } => comparison(x@, " LIKE "@, y@),
        SelectArgument::XInY { x, y } => quoted_ident(x@) + " IN ("@
            + join(y@.map_values(|v: String| quoted_value(v@)), ", "@) + ")"@,
        SelectArgument::All => Seq::empty(),
    }
}

fn quote_ident(ident: &str) -> (out: String)
    ensures
        out@ == quoted_ident(ident@),
{
    let mut out = String::new();
    out.append("\"");
    let escaped = double_quote_char(ident, '"');
    out.append(escaped.as_str());
    out.append("\"");
    assert(out@ =~= quoted_ident(ident@));
    out
}

fn compare(x: &String, op: &str, y: &String) -> (out: String)
    ensures
        out@ == comparison(x@, op@, y@),
{
    let mut out = quote_ident(x.as_str());
    out.append(op);
    let v = quote_value(y.as_str());
    out.append(v.as_str());
    assert(out@ =~= comparison(x@, op@, y@));
    out
}

impl SelectArgument {
    /// The condition as SQL text, for a WHERE clause.
    pub fn to_sql_condition(&self) -> (sql: String)
        ensures
            sql@ == sql_condition(*self),
    {
        match self {
            SelectArgument::XEqualY { x, y } => compare(x, " = ", y),
            SelectArgument::XNotEqualY { x, y } => compare(x, " != ", y),
            SelectArgument::XGreaterThanY { x, y } => compare(x, " > ", y),
            SelectArgument::XLessThanY { x, y } => compare(x, " < ", y),
            SelectArgument::XGreaterThanOrEqualY { x, y } => compare(x, " >= ", y),
            SelectArgument::XLessThanOrEqualY { x, y } => compare(x, " <= ", y),
            SelectArgument::XLikeY { x, y } => compare(x, " LIKE ", y),
            SelectArgument::XInY { x, y } => {
                let mut quoted_values: Vec<String> = Vec::new();
                let n = y.len();
                let mut i: usize = 0;
                while i < n
                    invariant
                        n == y@.len(),
                        i <= n,
                        views(quoted_values@) =~= y@.take(i as int).map_values(
                            |v: String| quoted_value(v@),
                        ),
                    decreases n - i,
                {
                    let q = quote_value(y[i].as_str());
                    let ghost before = quoted_values@;
                    quoted_values.push(q);
                    assert(views(quoted_values@) =~= views(before).push(quoted_value(y@[i as int]@)));
                    assert(y@.take(i + 1) =~= y@.take(i as int).push(y@[i as int]));
                    i = i + 1;
                }
                assert(y@.take(n as int) =~= y@);
                let mut out = quote_ident(x.as_str());
                out.append(" IN (");
                let joined = join_strings(&quoted_values, ", ");
                out.append(joined.as_str());
                out.append(")");
                assert(out@ =~= sql_condition(*self));
                out
            },
            SelectArgument::All => String::new(),
        }
    }
}

/// Quoting a column name is lossless: every double quote inside the quotes
/// belongs to a doubled pair, and reading the pairs back gives the name.
pub proof fn law_quote_ident_lossless(ident: Seq<char>)
    ensures
        quotes_paired(double_char(ident, '"'), '"'),
        undouble_char(double_char(ident, '"'), '"') == ident,
{
    lemma_double_char_inverse(ident, '"');
}

/// A name, an operator and a value as SQL: the name between double quotes,
/// the operator, then the value between single quotes with each single quote
/// inside it doubled.
pub open spec fn quoted_comparison(x: Seq<char>, op: Seq<char>, y: Seq<char>) -> Seq<char> {
    "\""@ + double_char(x, '"') + "\""@ + op + "'"@ + double_char(y, '\'') + "'"@
}

/// Every comparison condition is the quoted name, its operator, and the value
/// between single quotes with each single quote inside it doubled, the same for
/// every operator; inside those quotes every single quote is paired, and
/// reading the pairs back gives the value, so the literal stands for `y`.
pub proof fn law_condition_quotes_value(x: String, y: String)
    ensures
        sql_condition(SelectArgument::XEqualY { x, y }) == quoted_comparison(x@, " = "@, y@),
        sql_condition(SelectArgument::XNotEqualY { x, y }) == quoted_comparison(x@, " != "@, y@),
        sql_condition(SelectArgument::XGreaterThanY { x, y }) == quoted_comparison(x@, " > "@, y@),
        sql_condition(SelectArgument::XLessThanY { x, y }) == quoted_comparison(x@, " < "@, y@),
        sql_condition(SelectArgument::XGreaterThanOrEqualY { x, y }) == quoted_comparison(x@, " >= "@, y@),
        sql_condition(SelectArgument::XLessThanOrEqualY { x, y }) == quoted_comparison(x@, " <= "@, y@),
        sql_condition(SelectArgument::XLikeY { x, y }) == quoted_comparison(x@, " LIKE "@, y@),
        quotes_paired(double_char(y@, '\''), '\''),
        undouble_char(double_char(y@, '\''), '\'') == y@,
{
    lemma_double_char_inverse(y@, '\'');
    assert(sql_condition(SelectArgument::XEqualY { x, y }) =~= quoted_comparison(x@, " = "@, y@));
    assert(sql_condition(SelectArgument::XNotEqualY { x, y }) =~= quoted_comparison(x@, " != "@, y@));
    assert(sql_condition(SelectArgument::XGreaterThanY { x, y }) =~= quoted_comparison(x@, " > "@, y@));
    assert(sql_condition(SelectArgument::XLessThanY { x, y }) =~= quoted_comparison(x@, " < "@, y@));
    assert(sql_condition(SelectArgument::XGreaterThanOrEqualY { x, y }) =~= quoted_comparison(x@, " >= "@, y@));
    assert(sql_condition(SelectArgument::XLessThanOrEqualY { x, y }) =~= quoted_comparison(x@, " <= "@, y@));
    assert(sql_condition(SelectArgument::XLikeY { x, y }) =~= quoted_comparison(x@, " LIKE "@, y@));
}

} // verus!
