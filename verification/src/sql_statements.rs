//! SQL text for the browser-side SQLite store: creating tables, inserting,
//! updating, swapping, deleting and reading rows.
use vstd::prelude::*;
use vstd::string::StringExecFns;
use crate::text::{
    bool_text, bool_to_text, decimal, double_char, double_quote_char, i64_to_decimal, join, join_strings,
    lemma_double_char_inverse, quotes_paired, signed_decimal, u64_to_decimal, undouble_char, views,
};

verus! {

/// A column of a table to be created, as the page hands it over.
pub struct ColumnDef(
    /// name
    pub String,
    /// column type
    pub String,
    /// primary key
    pub bool,
    /// not null
    pub bool,
    /// unique
    pub bool,
    /// default value, empty when there is none
    pub String,
    /// autoincrement
    pub bool,
    /// indexed (handled by CREATE INDEX, not by CREATE TABLE)
    pub bool,
);

/// `text` when `flag` is set, nothing otherwise.
pub open spec fn when(flag: bool, text: Seq<char>) -> Seq<char> {
    if flag { text } else { Seq::empty() }
}

/// The definition of one column inside CREATE TABLE: name, type, then the
/// constraints in the order PRIMARY KEY, AUTOINCREMENT, NOT NULL, UNIQUE, DEFAULT.
pub open spec fn column_def_sql(c: ColumnDef) -> Seq<char> {
    c.0@ + " "@ + c.1@
        + when(c.2, " PRIMARY KEY"@)
        + when(c.6, " AUTOINCREMENT"@)
        + when(c.3, " NOT NULL"@)
        + when(c.4, " UNIQUE"@)
        + when(c.5@.len() > 0, " DEFAULT "@ + c.5@)
}

pub open spec fn create_table_sql(table_name: Seq<char>, columns: Seq<ColumnDef>) -> Seq<char> {
    "CREATE TABLE IF NOT EXISTS "@ + table_name + " ("@
        + join(columns.map_values(|c: ColumnDef| column_def_sql(c)), ", "@) + ");"@
}

/// A value between single quotes, each single quote inside it doubled.
pub open spec fn quoted_value(v: Seq<char>) -> Seq<char> {
    "'"@ + double_char(v, '\'') + "'"@
}

pub open spec fn insert_sql(table_name: Seq<char>, values: Seq<(String, String)>) -> Seq<char> {
    "INSERT INTO "@ + table_name + " ("@
        + join(values.map_values(|p: (String, String)| p.0@), ", "@)
        + ") VALUES ("@
        + join(values.map_values(|p: (String, String)| quoted_value(p.1@)), ", "@)
        + ");"@
}

pub open spec fn swap_two_values_sql(id1: nat, id2: nat, table: Seq<char>, column: Seq<char>) -> Seq<char> {
    "\n    UPDATE "@ + table
        + "\n    SET "@ + column + " = CASE"@
        + "\n        WHEN id = "@ + decimal(id1) + " THEN (SELECT "@ + column + " FROM "@ + table
        + " WHERE id = "@ + decimal(id2) + ")"@
        + "\n        WHEN id = "@ + decimal(id2) + " THEN (SELECT "@ + column + " FROM "@ + table
        + " WHERE id = "@ + decimal(id1) + ")"@
        + "\n    END\n    WHERE id IN ("@ + decimal(id1) + ", "@ + decimal(id2) + ");\n    "@
}

pub open spec fn delete_sql(table: Seq<char>, id: Seq<char>) -> Seq<char> {
    "DELETE FROM "@ + table + " WHERE id = "@ + id + ";"@
}

pub open spec fn update_sql(table: Seq<char>, id: nat, column: Seq<char>, value: Seq<char>) -> Seq<char> {
    "UPDATE "@ + table + " SET "@ + column + " = "@ + quoted_value(value) + " WHERE id = "@
        + decimal(id) + ";"@
}

/// The entries that are not the empty string, in their order.
pub open spec fn non_empty(entries: Seq<Seq<char>>) -> Seq<Seq<char>> {
    entries.filter(|e: Seq<char>| e.len() > 0)
}

pub open spec fn read_from_table_sql(
    table: Seq<char>,
    arguments: Seq<Seq<char>>,
    columns: Seq<Seq<char>>,
) -> Seq<char> {
    let cols = non_empty(columns);
    let conds = non_empty(arguments);
    "SELECT "@ + (if cols.len() == 0 { "*"@ } else { join(cols, ", "@) }) + " FROM "@ + table
        + (if conds.len() == 0 { Seq::empty() } else { " WHERE "@ + join(conds, " AND "@) })
        + ";"@
}

/// The views of a slice of string slices.
pub open spec fn str_views(v: Seq<&str>) -> Seq<Seq<char>> {
    v.map_values(|s: &str| s@)
}

/// Escapes a value for use between single quotes in SQL: each `'` becomes `''`.
pub fn sanitize(input: &str) -> (out: String)
    ensures
        out@ == double_char(input@, '\''),
{
    double_quote_char(input, '\'')
}

fn column_definition(col: &ColumnDef) -> (def: String)
    ensures
        def@ == column_def_sql(*col),
{
    let mut def = String::new();
    def.append(col.0.as_str());
    def.append(" ");
    def.append(col.1.as_str());
    if col.2 {
        def.append(" PRIMARY KEY");
    }
    if col.6 {
        def.append(" AUTOINCREMENT");
    }
    if col.3 {
        def.append(" NOT NULL");
    }
    if col.4 {
        def.append(" UNIQUE");
    }
    if !col.5.as_str().is_empty() {
        def.append(" DEFAULT ");
        def.append(col.5.as_str());
    }
    assert(def@ =~= column_def_sql(*col));
    def
}

/// Builds CREATE TABLE SQL from a caller-supplied column list.
pub fn generate_create_table_sql(table_name: &str, columns: &[ColumnDef]) -> (sql: String)
    ensures
        sql@ == create_table_sql(table_name@, columns@),
{
    let mut col_defs: Vec<String> = Vec::new();
    let n = columns.len();
    let mut i: usize = 0;
    while i < n
        invariant
            n == columns@.len(),
            i <= n,
            views(col_defs@) =~= columns@.take(i as int).map_values(|c: ColumnDef| column_def_sql(c)),
        decreases n - i,
    {
        let def = column_definition(&columns[i]);
        let ghost before = col_defs@;
        col_defs.push(def);
        assert(views(col_defs@) =~= views(before).push(column_def_sql(columns@[i as int])));
        assert(columns@.take(i + 1) =~= columns@.take(i as int).push(columns@[i as int]));
        i = i + 1;
    }
    assert(columns@.take(n as int) =~= columns@);
    let mut sql = String::new();
    sql.append("CREATE TABLE IF NOT EXISTS ");
    sql.append(table_name);
    sql.append(" (");
    let joined = join_strings(&col_defs, ", ");
    sql.append(joined.as_str());
    sql.append(");");
    assert(sql@ =~= create_table_sql(table_name@, columns@));
    sql
}

/// The value between single quotes, each single quote inside it doubled.
pub(crate) fn quote_value(v: &str) -> (out: String)
    ensures
        out@ == quoted_value(v@),
{
    let mut out = String::new();
    out.append("'");
    let escaped = sanitize(v);
    out.append(escaped.as_str());
    out.append("'");
    assert(out@ =~= quoted_value(v@));
    out
}

/// Builds INSERT SQL from (column, value) pairs; columns and values keep the
/// order of the pairs, and each value is quoted and escaped.
pub fn generate_insert_sql(table_name: &str, values: Vec<(String, String)>) -> (sql: String)
    ensures
        sql@ == insert_sql(table_name@, values@),
{
    let mut columns: Vec<String> = Vec::new();
    let mut quoted: Vec<String> = Vec::new();
    let n = values.len();
    let mut i: usize = 0;
    while i < n
        invariant
            n == values@.len(),
            i <= n,
            views(columns@) =~= values@.take(i as int).map_values(|p: (String, String)| p.0@),
            views(quoted@) =~= values@.take(i as int).map_values(
                |p: (String, String)| quoted_value(p.1@),
            ),
        decreases n - i,
    {
        let name = values[i].0.clone();
        let value = quote_value(values[i].1.as_str());
        let ghost before_c = columns@;
        let ghost before_q = quoted@;
        columns.push(name);
        quoted.push(value);
        assert(views(columns@) =~= views(before_c).push(values@[i as int].0@));
        assert(views(quoted@) =~= views(before_q).push(quoted_value(values@[i as int].1@)));
        assert(values@.take(i + 1) =~= values@.take(i as int).push(values@[i as int]));
        i = i + 1;
    }
    assert(values@.take(n as int) =~= values@);
    let mut sql = String::new();
    sql.append("INSERT INTO ");
    sql.append(table_name);
    sql.append(" (");
    let cols = join_strings(&columns, ", ");
    sql.append(cols.as_str());
    sql.append(") VALUES (");
    let vals = join_strings(&quoted, ", ");
    sql.append(vals.as_str());
    sql.append(");");
    assert(sql@ =~= insert_sql(table_name@, values@));
    sql
}

/// Builds an UPDATE that exchanges the values of `column_name` between the rows
/// with ids `id1` and `id2`.
pub fn generate_swap_two_values_sql(
    id1: usize,
    id2: usize,
    table_name: String,
    column_name: String,
) -> (sql: String)
    ensures
        sql@ == swap_two_values_sql(id1 as nat, id2 as nat, table_name@, column_name@),
{
    let a = u64_to_decimal(id1 as u64);
    let b = u64_to_decimal(id2 as u64);
    let table = table_name.as_str();
    let column = column_name.as_str();
    let mut sql = String::new();
    sql.append("\n    UPDATE ");
    sql.append(table);
    sql.append("\n    SET ");
    sql.append(column);
    sql.append(" = CASE");
    sql.append("\n        WHEN id = ");
    sql.append(a.as_str());
    sql.append(" THEN (SELECT ");
    sql.append(column);
    sql.append(" FROM ");
    sql.append(table);
    sql.append(" WHERE id = ");
    sql.append(b.as_str());
    sql.append(")");
    sql.append("\n        WHEN id = ");
    sql.append(b.as_str());
    sql.append(" THEN (SELECT ");
    sql.append(column);
    sql.append(" FROM ");
    sql.append(table);
    sql.append(" WHERE id = ");
    sql.append(a.as_str());
    sql.append(")");
    sql.append("\n    END\n    WHERE id IN (");
    sql.append(a.as_str());
    sql.append(", ");
    sql.append(b.as_str());
    sql.append(");\n    ");
    assert(sql@ =~= swap_two_values_sql(id1 as nat, id2 as nat, table_name@, column_name@));
    sql
}

/// Builds a DELETE of the row whose id is `id`.
pub fn generate_delete_sql(table_name: &str, id: &str) -> (sql: String)
    ensures
        sql@ == delete_sql(table_name@, id@),
{
    let mut sql = String::new();
    sql.append("DELETE FROM ");
    sql.append(table_name);
    sql.append(" WHERE id = ");
    sql.append(id);
    sql.append(";");
    assert(sql@ =~= delete_sql(table_name@, id@));
    sql
}

/// Builds an UPDATE that sets one column of the row whose id is `id`; the new
/// value is quoted and escaped.
pub fn generate_update_sql(table_name: &str, id: usize, column_and_new_value: &(&str, &str)) -> (sql: String)
    ensures
        sql@ == update_sql(table_name@, id as nat, column_and_new_value.0@, column_and_new_value.1@),
{
    let (column, value) = *column_and_new_value;
    let mut col_and_val = String::new();
    col_and_val.append(column);
    col_and_val.append(" = ");
    let quoted = quote_value(value);
    col_and_val.append(quoted.as_str());
    let id_text = u64_to_decimal(id as u64);
    let mut sql = String::new();
    sql.append("UPDATE ");
    sql.append(table_name);
    sql.append(" SET ");
    sql.append(col_and_val.as_str());
    sql.append(" WHERE id = ");
    sql.append(id_text.as_str());
    sql.append(";");
    assert(sql@ =~= update_sql(table_name@, id as nat, column@, value@));
    sql
}

/// Collects the entries that are not empty, in their order.
fn non_empty_entries(entries: &[&str]) -> (out: Vec<String>)
    ensures
        views(out@) == non_empty(str_views(entries@)),
{
    let mut out: Vec<String> = Vec::new();
    let n = entries.len();
    let mut i: usize = 0;
    while i < n
        invariant
            n == entries@.len(),
            i <= n,
            views(out@) =~= non_empty(str_views(entries@.take(i as int))),
        decreases n - i,
    {
        let e: &str = entries[i];
        let ghost before = out@;
        assert(str_views(entries@.take(i + 1)).drop_last() =~= str_views(entries@.take(i as int)));
        assert(str_views(entries@.take(i + 1)).last() == e@);
        reveal_with_fuel(Seq::filter, 1);
        if !e.is_empty() {
            out.push(String::from_str(e));
            assert(views(out@) =~= views(before).push(e@));
        }
        i = i + 1;
    }
    assert(entries@.take(n as int) =~= entries@);
    out
}

/// Builds a SELECT: the non-empty entries of `columns_to_read` (all columns
/// when there are none) from `table_name`, with the non-empty entries of
/// `arguments` joined by AND as the WHERE clause (no WHERE when there are none).
pub fn generate_read_from_table_sql(
    table_name: &str,
    arguments: &[&str],
    columns_to_read: &[&str],
) -> (sql: String)
    ensures
        sql@ == read_from_table_sql(table_name@, str_views(arguments@), str_views(columns_to_read@)),
{
    let valid_columns = non_empty_entries(columns_to_read);
    let columns = if valid_columns.len() == 0 {
        String::from_str("*")
    } else {
        join_strings(&valid_columns, ", ")
    };
    let valid_conditions = non_empty_entries(arguments);
    let mut where_clause = String::new();
    if valid_conditions.len() != 0 {
        where_clause.append(" WHERE ");
        let conds = join_strings(&valid_conditions, " AND ");
        where_clause.append(conds.as_str());
    }
    let mut sql = String::new();
    sql.append("SELECT ");
    sql.append(columns.as_str());
    sql.append(" FROM ");
    sql.append(table_name);
    sql.append(where_clause.as_str());
    sql.append(";");
    assert(sql@ =~= read_from_table_sql(table_name@, str_views(arguments@), str_views(columns_to_read@)));
    sql
}

pub open spec fn drop_table_sql(table: Seq<char>) -> Seq<char> {
    "DROP TABLE IF EXISTS "@ + table + ";"@
}

/// The statement that drops a table, if it exists.
pub fn generate_drop_table_sql(table_name: &str) -> (sql: String)
    ensures
        sql@ == drop_table_sql(table_name@),
{
    let mut sql = String::from_str("DROP TABLE IF EXISTS ");
    sql.append(table_name);
    sql.append(";");
    sql
}

pub open spec fn table_info_sql(table: Seq<char>) -> Seq<char> {
    "PRAGMA table_info("@ + table + ");"@
}

/// The statement that lists a table's columns.
pub fn generate_table_info_sql(table_name: &str) -> (sql: String)
    ensures
        sql@ == table_info_sql(table_name@),
{
    let mut sql = String::from_str("PRAGMA table_info(");
    sql.append(table_name);
    sql.append(");");
    sql
}

/// One line of a table's shape: column id, name, type and the two flags.
pub open spec fn table_info_line_text(
    cid: int,
    name: Seq<char>,
    col_type: Seq<char>,
    not_null: bool,
    primary_key: bool,
) -> Seq<char> {
    "info"@ + signed_decimal(cid) + ": name="@ + name + ", type="@ + col_type + ", not_null="@
        + bool_text(not_null) + ", primary_key="@ + bool_text(primary_key)
}

pub fn table_info_line(cid: i32, name: &str, col_type: &str, not_null: bool, primary_key: bool) -> (line: String)
    ensures
        line@ == table_info_line_text(cid as int, name@, col_type@, not_null, primary_key),
{
    let mut line = String::from_str("info");
    let id = i64_to_decimal(cid as i64);
    line.append(id.as_str());
    line.append(": name=");
    line.append(name);
    line.append(", type=");
    line.append(col_type);
    line.append(", not_null=");
    let nn = bool_to_text(not_null);
    line.append(nn.as_str());
    line.append(", primary_key=");
    let pk = bool_to_text(primary_key);
    line.append(pk.as_str());
    assert(line@ =~= table_info_line_text(cid as int, name@, col_type@, not_null, primary_key));
    line
}

/// The statement that sets `column` of the row whose `pk_col` is the second
/// parameter to the first parameter.
pub open spec fn update_cell_sql(table: Seq<char>, pk_col: Seq<char>, column: Seq<char>) -> Seq<char> {
    "UPDATE "@ + table + " SET "@ + column + " = ?1 WHERE "@ + pk_col + " = ?2;"@
}

pub fn generate_update_cell_sql(table_name: &str, pk_col: &str, column: &str) -> (sql: String)
    ensures
        sql@ == update_cell_sql(table_name@, pk_col@, column@),
{
    let mut sql = String::from_str("UPDATE ");
    sql.append(table_name);
    sql.append(" SET ");
    sql.append(column);
    sql.append(" = ?1 WHERE ");
    sql.append(pk_col);
    sql.append(" = ?2;");
    assert(sql@ =~= update_cell_sql(table_name@, pk_col@, column@));
    sql
}

/// The statement that deletes the row whose `pk_col` is the parameter.
pub open spec fn delete_row_sql(table: Seq<char>, pk_col: Seq<char>) -> Seq<char> {
    "DELETE FROM "@ + table + " WHERE "@ + pk_col + " = ?1;"@
}

pub fn generate_delete_row_sql(table_name: &str, pk_col: &str) -> (sql: String)
    ensures
        sql@ == delete_row_sql(table_name@, pk_col@),
{
    let mut sql = String::from_str("DELETE FROM ");
    sql.append(table_name);
    sql.append(" WHERE ");
    sql.append(pk_col);
    sql.append(" = ?1;");
    assert(sql@ =~= delete_row_sql(table_name@, pk_col@));
    sql
}

/// Escaping is safe and lossless: in the escaped text every single quote
/// belongs to a doubled pair, and reading the pairs back gives the input.
pub proof fn law_sanitize_lossless(input: Seq<char>)
    ensures
        quotes_paired(double_char(input, '\''), '\''),
        undouble_char(double_char(input, '\''), '\'') == input,
{
    lemma_double_char_inverse(input, '\'');
}

/// The indexed flag is handled by CREATE INDEX: two column lists that differ
/// only in it give the same CREATE TABLE text.
pub proof fn law_indexed_flag_has_no_effect(table_name: Seq<char>, a: Seq<ColumnDef>, b: Seq<ColumnDef>)
    requires
        a.len() == b.len(),
        forall|i: int|
            0 <= i < a.len() ==> {
                &&& #[trigger] a[i].0 == b[i].0
                &&& a[i].1 == b[i].1
                &&& a[i].2 == b[i].2
                &&& a[i].3 == b[i].3
                &&& a[i].4 == b[i].4
                &&& a[i].5 == b[i].5
                &&& a[i].6 == b[i].6
            },
    ensures
        create_table_sql(table_name, a) == create_table_sql(table_name, b),
{
    assert(a.map_values(|c: ColumnDef| column_def_sql(c)) =~= b.map_values(|c: ColumnDef| column_def_sql(c)));
}

/// In `prefix + x + suffix`, the middle part is determined by the whole.
proof fn lemma_middle_determined(prefix: Seq<char>, x: Seq<char>, y: Seq<char>, suffix: Seq<char>)
    requires
        prefix + x + suffix == prefix + y + suffix,
    ensures
        x == y,
{
    let l = prefix + x + suffix;
    let r = prefix + y + suffix;
    assert(l.len() == r.len());
    assert(x =~= l.subrange(prefix.len() as int, (prefix.len() + x.len()) as int));
    assert(y =~= r.subrange(prefix.len() as int, (prefix.len() + y.len()) as int));
}

/// The table name is taken from the argument: the same columns under two
/// different table names give two different CREATE TABLE texts.
pub proof fn law_create_table_names_its_table(t1: Seq<char>, t2: Seq<char>, columns: Seq<ColumnDef>)
    requires
        t1 != t2,
    ensures
        create_table_sql(t1, columns) != create_table_sql(t2, columns),
{
    let p = "CREATE TABLE IF NOT EXISTS "@;
    let s = " ("@ + join(columns.map_values(|c: ColumnDef| column_def_sql(c)), ", "@) + ");"@;
    assert(create_table_sql(t1, columns) =~= p + t1 + s);
    assert(create_table_sql(t2, columns) =~= p + t2 + s);
    if create_table_sql(t1, columns) == create_table_sql(t2, columns) {
        lemma_middle_determined(p, t1, t2, s);
    }
}

/// The same pairs inserted into two different tables give two different INSERT texts.
pub proof fn law_insert_names_its_table(t1: Seq<char>, t2: Seq<char>, values: Seq<(String, String)>)
    requires
        t1 != t2,
    ensures
        insert_sql(t1, values) != insert_sql(t2, values),
{
    let p = "INSERT INTO "@;
    let s = " ("@ + join(values.map_values(|p: (String, String)| p.0@), ", "@) + ") VALUES ("@
        + join(values.map_values(|p: (String, String)| quoted_value(p.1@)), ", "@) + ");"@;
    assert(insert_sql(t1, values) =~= p + t1 + s);
    assert(insert_sql(t2, values) =~= p + t2 + s);
    if insert_sql(t1, values) == insert_sql(t2, values) {
        lemma_middle_determined(p, t1, t2, s);
    }
}

proof fn lemma_non_empty_idempotent(entries: Seq<Seq<char>>)
    ensures
        non_empty(non_empty(entries)) == non_empty(entries),
    decreases entries.len(),
{
    reveal_with_fuel(Seq::filter, 1);
    if entries.len() > 0 {
        lemma_non_empty_idempotent(entries.drop_last());
        let rest = non_empty(entries.drop_last());
        if entries.last().len() > 0 {
            assert(non_empty(entries) == rest.push(entries.last()));
            assert(rest.push(entries.last()).drop_last() =~= rest);
        }
    }
}

/// Empty column names and empty conditions are ignored: dropping them
/// beforehand gives the same SELECT text.
pub proof fn law_read_ignores_empty_entries(
    table: Seq<char>,
    arguments: Seq<Seq<char>>,
    columns: Seq<Seq<char>>,
)
    ensures
        read_from_table_sql(table, arguments, columns)
            == read_from_table_sql(table, non_empty(arguments), non_empty(columns)),
{
    lemma_non_empty_idempotent(arguments);
    lemma_non_empty_idempotent(columns);
}

/// `on` is `off` with `text` put in at one place.
pub open spec fn inserted(on: Seq<char>, off: Seq<char>, text: Seq<char>) -> bool {
    exists|p: int| 0 <= p <= off.len() && #[trigger] off.take(p) + text + off.skip(p) == on
}

proof fn lemma_inserted(a: Seq<char>, text: Seq<char>, b: Seq<char>)
    ensures
        inserted(a + text + b, a + b, text),
{
    let off = a + b;
    let p = a.len() as int;
    assert(off.take(p) =~= a);
    assert(off.skip(p) =~= b);
    assert(off.take(p) + text + off.skip(p) =~= a + text + b);
}

proof fn lemma_primary_key_flag(c: ColumnDef)
    ensures
        inserted(
            column_def_sql(ColumnDef(c.0, c.1, true, c.3, c.4, c.5, c.6, c.7)),
            column_def_sql(ColumnDef(c.0, c.1, false, c.3, c.4, c.5, c.6, c.7)),
            " PRIMARY KEY"@,
        ),
{
    let head = c.0@ + " "@ + c.1@;
    let rest = when(c.6, " AUTOINCREMENT"@) + when(c.3, " NOT NULL"@) + when(c.4, " UNIQUE"@) + when(
        c.5@.len() > 0,
        " DEFAULT "@ + c.5@,
    );
    lemma_inserted(head, " PRIMARY KEY"@, rest);
    assert(column_def_sql(ColumnDef(c.0, c.1, true, c.3, c.4, c.5, c.6, c.7)) =~= head + " PRIMARY KEY"@ + rest);
    assert(column_def_sql(ColumnDef(c.0, c.1, false, c.3, c.4, c.5, c.6, c.7)) =~= head + rest);
}

proof fn lemma_autoincrement_flag(c: ColumnDef)
    ensures
        inserted(
            column_def_sql(ColumnDef(c.0, c.1, c.2, c.3, c.4, c.5, true, c.7)),
            column_def_sql(ColumnDef(c.0, c.1, c.2, c.3, c.4, c.5, false, c.7)),
            " AUTOINCREMENT"@,
        ),
{
    let head = c.0@ + " "@ + c.1@ + when(c.2, " PRIMARY KEY"@);
    let rest = when(c.3, " NOT NULL"@) + when(c.4, " UNIQUE"@) + when(c.5@.len() > 0, " DEFAULT "@ + c.5@);
    lemma_inserted(head, " AUTOINCREMENT"@, rest);
    assert(column_def_sql(ColumnDef(c.0, c.1, c.2, c.3, c.4, c.5, true, c.7)) =~= head + " AUTOINCREMENT"@ + rest);
    assert(column_def_sql(ColumnDef(c.0, c.1, c.2, c.3, c.4, c.5, false, c.7)) =~= head + rest);
}

proof fn lemma_not_null_flag(c: ColumnDef)
    ensures
        inserted(
            column_def_sql(ColumnDef(c.0, c.1, c.2, true, c.4, c.5, c.6, c.7)),
            column_def_sql(ColumnDef(c.0, c.1, c.2, false, c.4, c.5, c.6, c.7)),
            " NOT NULL"@,
        ),
{
    let head = c.0@ + " "@ + c.1@ + when(c.2, " PRIMARY KEY"@) + when(c.6, " AUTOINCREMENT"@);
    let rest = when(c.4, " UNIQUE"@) + when(c.5@.len() > 0, " DEFAULT "@ + c.5@);
    lemma_inserted(head, " NOT NULL"@, rest);
    assert(column_def_sql(ColumnDef(c.0, c.1, c.2, true, c.4, c.5, c.6, c.7)) =~= head + " NOT NULL"@ + rest);
    assert(column_def_sql(ColumnDef(c.0, c.1, c.2, false, c.4, c.5, c.6, c.7)) =~= head + rest);
}

proof fn lemma_unique_flag(c: ColumnDef)
    ensures
        inserted(
            column_def_sql(ColumnDef(c.0, c.1, c.2, c.3, true, c.5, c.6, c.7)),
            column_def_sql(ColumnDef(c.0, c.1, c.2, c.3, false, c.5, c.6, c.7)),
            " UNIQUE"@,
        ),
{
    let head = c.0@ + " "@ + c.1@ + when(c.2, " PRIMARY KEY"@) + when(c.6, " AUTOINCREMENT"@) + when(
        c.3,
        " NOT NULL"@,
    );
    let rest = when(c.5@.len() > 0, " DEFAULT "@ + c.5@);
    lemma_inserted(head, " UNIQUE"@, rest);
    assert(column_def_sql(ColumnDef(c.0, c.1, c.2, c.3, true, c.5, c.6, c.7)) =~= head + " UNIQUE"@ + rest);
    assert(column_def_sql(ColumnDef(c.0, c.1, c.2, c.3, false, c.5, c.6, c.7)) =~= head + rest);
}

proof fn lemma_default_flag(c: ColumnDef)
    ensures
        forall|empty: String| #![trigger empty@.len()] empty@.len() == 0 && c.5@.len() > 0 ==> column_def_sql(c)
            == column_def_sql(ColumnDef(c.0, c.1, c.2, c.3, c.4, empty, c.6, c.7)) + " DEFAULT "@ + c.5@,
{
    let front = c.0@ + " "@ + c.1@ + when(c.2, " PRIMARY KEY"@) + when(c.6, " AUTOINCREMENT"@) + when(
        c.3,
        " NOT NULL"@,
    ) + when(c.4, " UNIQUE"@);
    assert forall|empty: String| #![trigger empty@.len()] empty@.len() == 0 && c.5@.len() > 0 implies column_def_sql(c)
        == column_def_sql(ColumnDef(c.0, c.1, c.2, c.3, c.4, empty, c.6, c.7)) + " DEFAULT "@ + c.5@ by {
        assert(column_def_sql(ColumnDef(c.0, c.1, c.2, c.3, c.4, empty, c.6, c.7)) =~= front);
        assert(column_def_sql(c) =~= front + " DEFAULT "@ + c.5@);
    }
}

proof fn lemma_head(c: ColumnDef)
    ensures
        column_def_sql(c).take((c.0@.len() + 1 + c.1@.len()) as int) == c.0@ + " "@ + c.1@,
{
    let head = c.0@ + " "@ + c.1@;
    let rest = when(c.2, " PRIMARY KEY"@) + when(c.6, " AUTOINCREMENT"@) + when(c.3, " NOT NULL"@) + when(
        c.4,
        " UNIQUE"@,
    ) + when(c.5@.len() > 0, " DEFAULT "@ + c.5@);
    reveal_strlit(" ");
    assert(head.len() == c.0@.len() + 1 + c.1@.len());
    assert(column_def_sql(c) =~= head + rest);
    assert((head + rest).take(head.len() as int) =~= head);
}

/// Each constraint flag of a column is written on its own, whatever the other
/// flags are: turning a flag on puts its constraint into the column's
/// definition and changes nothing else, and a non-empty default adds
/// ` DEFAULT ` and the value at the end. The definition starts with the name,
/// a space and the type.
pub proof fn law_each_flag_adds_its_constraint(c: ColumnDef)
    ensures
        inserted(
            column_def_sql(ColumnDef(c.0, c.1, true, c.3, c.4, c.5, c.6, c.7)),
            column_def_sql(ColumnDef(c.0, c.1, false, c.3, c.4, c.5, c.6, c.7)),
            " PRIMARY KEY"@,
        ),
        inserted(
            column_def_sql(ColumnDef(c.0, c.1, c.2, true, c.4, c.5, c.6, c.7)),
            column_def_sql(ColumnDef(c.0, c.1, c.2, false, c.4, c.5, c.6, c.7)),
            " NOT NULL"@,
        ),
        inserted(
            column_def_sql(ColumnDef(c.0, c.1, c.2, c.3, true, c.5, c.6, c.7)),
            column_def_sql(ColumnDef(c.0, c.1, c.2, c.3, false, c.5, c.6, c.7)),
            " UNIQUE"@,
        ),
        inserted(
            column_def_sql(ColumnDef(c.0, c.1, c.2, c.3, c.4, c.5, true, c.7)),
            column_def_sql(ColumnDef(c.0, c.1, c.2, c.3, c.4, c.5, false, c.7)),
            " AUTOINCREMENT"@,
        ),
        forall|empty: String| #![trigger empty@.len()] empty@.len() == 0 && c.5@.len() > 0 ==> column_def_sql(c)
            == column_def_sql(ColumnDef(c.0, c.1, c.2, c.3, c.4, empty, c.6, c.7)) + " DEFAULT "@ + c.5@,
        column_def_sql(c).take((c.0@.len() + 1 + c.1@.len()) as int) == c.0@ + " "@ + c.1@,
{
    lemma_primary_key_flag(c);
    lemma_not_null_flag(c);
    lemma_unique_flag(c);
    lemma_autoincrement_flag(c);
    lemma_default_flag(c);
    lemma_head(c);
}

} // verus!
