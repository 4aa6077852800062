use db_socket::sql_statements::{
    generate_delete_row_sql, generate_drop_table_sql, generate_table_info_sql, generate_update_cell_sql,
    table_info_line,
    generate_create_table_sql, generate_delete_sql, generate_insert_sql, generate_read_from_table_sql,
    generate_swap_two_values_sql, generate_update_sql, sanitize, ColumnDef,
};

fn col(
    name: &str,
    col_type: &str,
    pk: bool,
    not_null: bool,
    unique: bool,
    default: &str,
    autoinc: bool,
    indexed: bool,
) -> ColumnDef {
    ColumnDef(
        name.to_string(),
        col_type.to_string(),
        pk,
        not_null,
        unique,
        default.to_string(),
        autoinc,
        indexed,
    )
}

#[test]
fn plain_column_no_constraints() {
    let columns = vec![col("name", "TEXT", false, false, false, "", false, false)];
    let sql = generate_create_table_sql("users", &columns);
    assert_eq!(sql, "CREATE TABLE IF NOT EXISTS users (name TEXT);");
}

#[test]
fn primary_key_alone_without_autoincrement() {
    let columns = vec![col("id", "INTEGER", true, false, false, "", false, false)];
    let sql = generate_create_table_sql("users", &columns);
    assert_eq!(sql, "CREATE TABLE IF NOT EXISTS users (id INTEGER PRIMARY KEY);");
}

#[test]
fn primary_key_with_autoincrement() {
    let columns = vec![col("id", "INTEGER", true, false, false, "", true, false)];
    let sql = generate_create_table_sql("users", &columns);
    assert_eq!(
        sql,
        "CREATE TABLE IF NOT EXISTS users (id INTEGER PRIMARY KEY AUTOINCREMENT);"
    );
}

#[test]
fn autoincrement_without_primary_key_does_not_appear() {
    let columns = vec![col("id", "INTEGER", false, false, false, "", true, false)];
    let sql = generate_create_table_sql("users", &columns);
    assert_eq!(sql, "CREATE TABLE IF NOT EXISTS users (id INTEGER AUTOINCREMENT);");
}

#[test]
fn not_null_flag() {
    let columns = vec![col("email", "TEXT", false, true, false, "", false, false)];
    let sql = generate_create_table_sql("users", &columns);
    assert_eq!(sql, "CREATE TABLE IF NOT EXISTS users (email TEXT NOT NULL);");
}

#[test]
fn unique_flag() {
    let columns = vec![col("email", "TEXT", false, false, true, "", false, false)];
    let sql = generate_create_table_sql("users", &columns);
    assert_eq!(sql, "CREATE TABLE IF NOT EXISTS users (email TEXT UNIQUE);");
}

#[test]
fn default_value_present() {
    let columns = vec![col("status", "TEXT", false, false, false, "active", false, false)];
    let sql = generate_create_table_sql("users", &columns);
    assert_eq!(sql, "CREATE TABLE IF NOT EXISTS users (status TEXT DEFAULT active);");
}

#[test]
fn empty_default_string_omits_default_clause() {
    let columns = vec![col("status", "TEXT", false, false, false, "", false, false)];
    let sql = generate_create_table_sql("users", &columns);
    assert!(!sql.contains("DEFAULT"));
}

#[test]
fn indexed_flag_has_no_effect_on_create_table_sql() {
    let indexed_col = col("email", "TEXT", false, false, false, "", false, true);
    let not_indexed_col = col("email", "TEXT", false, false, false, "", false, false);
    let sql_a = generate_create_table_sql("users", &[indexed_col]);
    let sql_b = generate_create_table_sql("users", &[not_indexed_col]);
    assert_eq!(sql_a, sql_b);
}

#[test]
fn all_constraints_combined_in_correct_order() {
    let columns = vec![col("id", "INTEGER", true, true, true, "1", true, false)];
    let sql = generate_create_table_sql("users", &columns);
    assert_eq!(
        sql,
        "CREATE TABLE IF NOT EXISTS users (id INTEGER PRIMARY KEY AUTOINCREMENT NOT NULL UNIQUE DEFAULT 1);"
    );
}

#[test]
fn multiple_columns_joined_with_commas() {
    let columns = vec![
        col("id", "INTEGER", true, false, false, "", true, false),
        col("name", "TEXT", false, true, false, "", false, false),
        col("age", "INTEGER", false, false, false, "0", false, false),
    ];
    let sql = generate_create_table_sql("people", &columns);
    assert_eq!(
        sql,
        "CREATE TABLE IF NOT EXISTS people (id INTEGER PRIMARY KEY AUTOINCREMENT, name TEXT NOT NULL, age INTEGER DEFAULT 0);"
    );
}

#[test]
fn table_name_is_not_hardcoded() {
    let columns = vec![col("x", "TEXT", false, false, false, "", false, false)];
    let sql_a = generate_create_table_sql("alpha", &columns);
    let sql_b = generate_create_table_sql("beta", &columns);
    assert!(sql_a.contains("alpha"));
    assert!(sql_b.contains("beta"));
    assert_ne!(sql_a, sql_b);
}

#[test]
fn empty_column_list_produces_empty_parens() {
    let sql = generate_create_table_sql("empty_table", &[]);
    assert_eq!(sql, "CREATE TABLE IF NOT EXISTS empty_table ();");
}

#[test]
fn test_generate_insert_sql() {
    let values = vec![
        ("product_id".to_string(), "100".to_string()),
        ("product_name".to_string(), "Laptop".to_string()),
    ];
    let sql = generate_insert_sql("products", values);
    let expected = "INSERT INTO products (product_id, product_name) VALUES ('100', 'Laptop');";
    assert_eq!(sql, expected);
}

#[test]
fn test_generate_insert_sql_escapes_quotes() {
    let values = vec![("name".to_string(), "O'Reilly".to_string())];
    let sql = generate_insert_sql("authors", values);
    let expected = "INSERT INTO authors (name) VALUES ('O''Reilly');";
    assert_eq!(sql, expected);
}

#[test]
fn test_generate_insert_sql_table_name_is_not_hardcoded() {
    let values = vec![("x".to_string(), "1".to_string())];
    let sql_a = generate_insert_sql("alpha", values.clone());
    let sql_b = generate_insert_sql("beta", values);
    assert!(sql_a.contains("alpha"));
    assert!(sql_b.contains("beta"));
    assert_ne!(sql_a, sql_b);
}

#[test]
fn test_generate_swap_two_values_sql() {
    let sql = generate_swap_two_values_sql(5, 10, "inventory".to_string(), "stock".to_string());

    assert!(sql.contains("UPDATE inventory"));
    assert!(sql.contains("SET stock = CASE"));
    assert!(sql.contains("WHEN id = 5 THEN (SELECT stock FROM inventory WHERE id = 10)"));
    assert!(sql.contains("WHEN id = 10 THEN (SELECT stock FROM inventory WHERE id = 5)"));
    assert!(sql.contains("WHERE id IN (5, 10)"));
}

#[test]
fn test_generate_swap_two_values_sql_different_ids() {
    let sql = generate_swap_two_values_sql(3, 99, "tasks".to_string(), "position".to_string());

    assert!(sql.contains("UPDATE tasks"));
    assert!(sql.contains("SET position = CASE"));
    assert!(sql.contains("WHEN id = 3 THEN (SELECT position FROM tasks WHERE id = 99)"));
    assert!(sql.contains("WHEN id = 99 THEN (SELECT position FROM tasks WHERE id = 3)"));
    assert!(sql.contains("WHERE id IN (3, 99)"));
}

#[test]
fn test_generate_update_sql_single() {
    let sql = generate_update_sql("employees", 5, &("name", "Alice"));
    let expected = "UPDATE employees SET name = 'Alice' WHERE id = 5;";
    assert_eq!(sql, expected);
}

#[test]
fn test_generate_update_sql_single_column_different_types() {
    let sql = generate_update_sql("products", 10, &("price", "99"));
    let expected = "UPDATE products SET price = '99' WHERE id = 10;";
    assert_eq!(sql, expected);
}

#[test]
fn test_generate_update_sql_escapes_quotes() {
    let sql = generate_update_sql("authors", 7, &("name", "O'Reilly"));
    let expected = "UPDATE authors SET name = 'O''Reilly' WHERE id = 7;";
    assert_eq!(sql, expected);
}

#[test]
fn test_sanitize_no_quotes() {
    assert_eq!(sanitize("hello"), "hello");
}

#[test]
fn test_sanitize_single_quote() {
    assert_eq!(sanitize("O'Reilly"), "O''Reilly");
}

#[test]
fn test_sanitize_multiple_quotes() {
    assert_eq!(sanitize("a'b'c"), "a''b''c");
}

#[test]
fn test_sanitize_empty_string() {
    assert_eq!(sanitize(""), "");
}

#[test]
fn test_sanitize_quote_at_start_and_end() {
    assert_eq!(sanitize("'abc'"), "''abc''");
}

#[test]
fn test_select_all_columns_no_conditions() {
    let sql = generate_read_from_table_sql("players", &[] as &[&str], &[] as &[&str]);
    assert_eq!(sql, "SELECT * FROM players;");
}

#[test]
fn single_empty_string_column_becomes_star() {
    let sql = generate_read_from_table_sql("content", &["id = 1"], &[""]);
    assert_eq!(sql, "SELECT * FROM content WHERE id = 1;");
}

#[test]
fn empty_string_mixed_with_real_column_should_be_filtered() {
    let sql = generate_read_from_table_sql("content", &["id = 1"], &["col1", ""]);
    assert_eq!(sql, "SELECT col1 FROM content WHERE id = 1;");
}

#[test]
fn empty_arguments_vec_omits_where() {
    let sql = generate_read_from_table_sql("content", &[] as &[&str], &["col1", "col2"]);
    assert_eq!(sql, "SELECT col1, col2 FROM content;");
}

#[test]
fn single_empty_string_argument_omits_where() {
    let sql = generate_read_from_table_sql("content", &[""], &["col1"]);
    assert_eq!(sql, "SELECT col1 FROM content;");
}

#[test]
fn both_empty_gives_select_star_no_where() {
    let sql = generate_read_from_table_sql("content", &[""], &[""]);
    assert_eq!(sql, "SELECT * FROM content;");
}

#[test]
fn two_empty_string_arguments_should_omit_where() {
    let sql = generate_read_from_table_sql("content", &["", ""], &[""]);
    assert_eq!(sql, "SELECT * FROM content;");
}

#[test]
fn empty_string_mixed_with_real_argument_should_be_filtered() {
    let sql = generate_read_from_table_sql("content", &["", "id = 1"], &["col1"]);
    assert_eq!(sql, "SELECT col1 FROM content WHERE id = 1;");
}

#[test]
fn test_select_specific_columns_with_condition() {
    let sql = generate_read_from_table_sql("games", &["result = '1-0'"], &["white", "black"]);
    assert_eq!(sql, "SELECT white, black FROM games WHERE result = '1-0';");
}

#[test]
fn test_multiple_conditions_multiple_columns() {
    let sql = generate_read_from_table_sql(
        "puzzles",
        &["rating > 2000", "theme = 'mate'"],
        &["id", "fen", "solution"],
    );
    assert_eq!(
        sql,
        "SELECT id, fen, solution FROM puzzles WHERE rating > 2000 AND theme = 'mate';"
    );
}

#[test]
fn test_empty_columns_with_condition() {
    let sql = generate_read_from_table_sql("openings", &["name LIKE '%Sicilian%'"], &[] as &[&str]);
    assert_eq!(sql, "SELECT * FROM openings WHERE name LIKE '%Sicilian%';");
}

#[test]
fn normal_case_still_works() {
    let sql = generate_read_from_table_sql("content", &["id = 1"], &["col1", "col2"]);
    assert_eq!(sql, "SELECT col1, col2 FROM content WHERE id = 1;");
}

#[test]
fn delete_sql_names_table_and_id() {
    assert_eq!(generate_delete_sql("notes", "42"), "DELETE FROM notes WHERE id = 42;");
}

#[test]
fn swap_sql_exact_text() {
    let sql = generate_swap_two_values_sql(0, 123, "t".to_string(), "c".to_string());
    assert_eq!(
        sql,
        "\n    UPDATE t\n    SET c = CASE\n        WHEN id = 0 THEN (SELECT c FROM t WHERE id = 123)\n        WHEN id = 123 THEN (SELECT c FROM t WHERE id = 0)\n    END\n    WHERE id IN (0, 123);\n    "
    );
}

#[test]
fn update_sql_with_large_id() {
    let sql = generate_update_sql("t", usize::MAX, &("c", "v"));
    assert_eq!(sql, format!("UPDATE t SET c = 'v' WHERE id = {};", usize::MAX));
}

#[test]
fn sanitize_keeps_non_ascii_text() {
    assert_eq!(sanitize("é'ñ"), "é''ñ");
}

#[test]
fn store_statements() {
    assert_eq!(generate_drop_table_sql("content"), "DROP TABLE IF EXISTS content;");
    assert_eq!(generate_table_info_sql("content"), "PRAGMA table_info(content);");
    assert_eq!(generate_update_cell_sql("content", "id", "textblock"), "UPDATE content SET textblock = ?1 WHERE id = ?2;");
    assert_eq!(generate_delete_row_sql("content", "id"), "DELETE FROM content WHERE id = ?1;");
    assert_eq!(
        table_info_line(0, "id", "INTEGER", true, true),
        "info0: name=id, type=INTEGER, not_null=true, primary_key=true"
    );
    assert_eq!(
        table_info_line(-3, "x", "", false, false),
        "info-3: name=x, type=, not_null=false, primary_key=false"
    );
}

#[test]
fn sanitized_text_reads_back() {
    for s in ["", "'", "''", "a'b", "'''x'", "no quotes"] {
        let escaped = sanitize(s);
        assert_eq!(escaped.replace("''", "'"), s);
        assert_eq!(escaped.matches('\'').count(), 2 * s.matches('\'').count());
    }
}
