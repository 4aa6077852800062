//! Column definitions for CREATE TABLE, and the builders that fill them in.
use vstd::prelude::*;
use vstd::string::StringExecFns;

verus! {

/// A column as the server receives it.
#[derive(Debug, Clone)]
pub struct ColumnDef(
    /// name
    pub String,
    /// column type
    pub String,
    /// primary key
    pub bool,
    /// not null
    pub bool,
    /// unique
    pub bool,
    /// default value, empty when there is none
    pub String,
    /// autoincrement
    pub bool,
);

/// A column with its type still an enum.
pub struct ColumnDefBuilder(
    /// name
    pub String,
    /// column type
    pub ColumnType,
    /// primary key
    pub bool,
    /// not null
    pub bool,
    /// unique
    pub bool,
    /// default value, empty when there is none
    pub String,
    /// autoincrement
    pub bool,
);

/// The storage classes of SQLite.
#[derive(Debug, Clone, Copy)]
pub enum ColumnType {
    Integer,
    Text,
    Real,
    Blob,
}

/// The SQL name of a column type.
pub open spec fn column_type_name(t: ColumnType) -> Seq<char> {
    match t {
        ColumnType::Integer => "INTEGER"@,
        ColumnType::Text => "TEXT"@,
        ColumnType::Real => "REAL"@,
        ColumnType::Blob => "BLOB"@,
    }
}

/// The column definition that a builder describes.
pub open spec fn built(b: ColumnDefBuilder, c: ColumnDef) -> bool {
    &&& c.0@ == b.0@
    &&& c.1@ == column_type_name(b.1)
    &&& c.2 == b.2
    &&& c.3 == b.3
    &&& c.4 == b.4
    &&& c.5@ == b.5@
    &&& c.6 == b.6
}

/// The `id` column: INTEGER, primary key, not null, unique, autoincrement, no default.
pub open spec fn is_id_column(c: ColumnDef) -> bool {
    &&& c.0@ == "id"@
    &&& c.1@ == column_type_name(ColumnType::Integer)
    &&& c.2 && c.3 && c.4 && c.6
    &&& c.5@.len() == 0
}

/// A column named `name` of type `t` with no constraint and the given default.
pub open spec fn is_plain_column(c: ColumnDef, t: ColumnType, name: Seq<char>, default: Seq<char>) -> bool {
    &&& c.0@ == name
    &&& c.1@ == column_type_name(t)
    &&& !c.2 && !c.3 && !c.4 && !c.6
    &&& c.5@ == default
}

/// Turns the builder's type into its SQL name; every other field is kept.
pub fn builder_to_column_def(builder: ColumnDefBuilder) -> (c: ColumnDef)
    ensures
        built(builder, c),
{
    let column_type = match builder.1 {
        ColumnType::Integer => String::from_str("INTEGER"),
        ColumnType::Text => String::from_str("TEXT"),
        ColumnType::Real => String::from_str("REAL"),
        ColumnType::Blob => String::from_str("BLOB"),
    };
    ColumnDef(builder.0, column_type, builder.2, builder.3, builder.4, builder.5, builder.6)
}

/// The `id` column.
pub fn id_column() -> (c: ColumnDef)
    ensures
        is_id_column(c),
{
    builder_to_column_def(ColumnDefBuilder(
        String::from_str("id"),
        ColumnType::Integer,
        true,
        true,
        true,
        String::new(),
        true,
    ))
}

/// A plain column of the given type: no constraint and no default.
pub fn default_col(column_type: ColumnType, column_name: &str) -> (c: ColumnDef)
    ensures
        is_plain_column(c, column_type, column_name@, Seq::empty()),
{
    builder_to_column_def(ColumnDefBuilder(
        String::from_str(column_name),
        column_type,
        false,
        false,
        false,
        String::new(),
        false,
    ))
}

/// A column of the given type with a default value and no constraint.
pub fn col_with_default_value(
    column_type: ColumnType,
    default_value: String,
    column_name: &str,
) -> (c: ColumnDef)
    ensures
        is_plain_column(c, column_type, column_name@, default_value@),
{
    builder_to_column_def(ColumnDefBuilder(
        String::from_str(column_name),
        column_type,
        false,
        false,
        false,
        default_value,
        false,
    ))
}

} // verus!
