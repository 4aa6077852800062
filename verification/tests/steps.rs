use db_socket::data_structures::{ColumnValue, SwapColumnsIn};
use db_socket::error_stuff::{ErrorDetails, ServerRelatedError};
use db_socket::inbetween::{mock_server_step, MockAction, MockEvent, PendingReplies};
use db_socket::message_struct::Base64Bytes;
use db_socket::row_swap::{swap_start, swap_step, SwapAction, SwapEvent, SwapState};
use db_socket::store_steps::{
    cell_text, code_check, connection_check, failure_message, read_from_db_result, read_step, shape_start, shape_step,
    statement_ready, step_done_check, table_shape_result, write_statement_result, ShapeRow, StepAction, StepOutcome,
};
use db_socket::table_row::Col;
use db_socket::table_server::{seed_requests, seed_tables, socket_step, SeedTable, SocketAction, SocketEvent};

fn shape_row(cid: i32, name: &str, col_type: &str, not_null: bool, primary_key: bool) -> ShapeRow {
    ShapeRow { cid, name: name.to_string(), col_type: col_type.to_string(), not_null, primary_key }
}

#[test]
fn shape_rows_become_lines() {
    let lines = match shape_step(vec![], StepOutcome::Row(shape_row(0, "id", "INTEGER", false, true))) {
        StepAction::Continue(lines) => lines,
        _ => panic!("a row continues the loop"),
    };
    assert_eq!(lines, vec!["info0: name=id, type=INTEGER, not_null=false, primary_key=true".to_string()]);
    let lines = match shape_step(lines, StepOutcome::Row(shape_row(-3, "name", "TEXT", true, false))) {
        StepAction::Continue(lines) => lines,
        _ => panic!("a row continues the loop"),
    };
    assert_eq!(lines[1], "info-3: name=name, type=TEXT, not_null=true, primary_key=false");
    match shape_step(lines.clone(), StepOutcome::Done) {
        StepAction::Finish(done) => assert_eq!(done, lines),
        _ => panic!("the end finishes"),
    }
    match shape_step(lines, StepOutcome::Failed("disk I/O error".to_string())) {
        StepAction::Fail(m) => assert_eq!(m, "Step failed: disk I/O error"),
        _ => panic!("a failure fails"),
    }
}

#[test]
fn read_rows_turn_null_into_empty() {
    let rows = match read_step(vec![], StepOutcome::Row(vec![Some("1".to_string()), None, Some("x".to_string())])) {
        StepAction::Continue(rows) => rows,
        _ => panic!("a row continues the loop"),
    };
    assert_eq!(rows, vec![vec!["1".to_string(), String::new(), "x".to_string()]]);
    let rows = match read_step(rows, StepOutcome::Row(vec![])) {
        StepAction::Continue(rows) => rows,
        _ => panic!("a row continues the loop"),
    };
    assert_eq!(rows.len(), 2);
    assert!(rows[1].is_empty());
    match read_step(rows.clone(), StepOutcome::Done) {
        StepAction::Finish(done) => assert_eq!(done, rows),
        _ => panic!("the end finishes"),
    }
    match read_step(rows, StepOutcome::Failed("busy".to_string())) {
        StepAction::Fail(m) => assert_eq!(m, "sqlite3_step error: busy"),
        _ => panic!("a failure fails"),
    }
}

#[test]
fn store_call_messages() {
    assert_eq!(cell_text(None), "");
    assert_eq!(cell_text(Some("v".to_string())), "v");
    assert_eq!(connection_check(true), Err("db pointer is null".to_string()));
    assert_eq!(connection_check(false), Ok(()));
    assert_eq!(failure_message("Prepare", "no such table"), "Prepare failed: no such table");
    assert_eq!(step_done_check("Insert", 101, 101), Ok(()));
    assert_eq!(step_done_check("Insert", 19, 101), Err("Insert failed: step returned 19".to_string()));
    assert_eq!(step_done_check("Update", -1, 101), Err("Update failed: step returned -1".to_string()));
}

fn swap_input() -> SwapColumnsIn {
    SwapColumnsIn {
        table_name: "t".to_string(),
        row_id_1: "1".to_string(),
        row_id_2: "2".to_string(),
        column: "c".to_string(),
    }
}

fn read(value: &str) -> SwapEvent {
    SwapEvent::Read(Ok(vec![vec![value.to_string()]]))
}

#[test]
fn swap_reads_both_rows_then_exchanges() {
    let input = swap_input();
    let (state, action) = swap_start(&input);
    assert!(matches!(action, SwapAction::Read { ref condition } if condition == "id = 1"));
    let (state, action) = swap_step(&input, state, read("red"));
    assert!(matches!(action, SwapAction::Read { ref condition } if condition == "id = 2"));
    let (state, action) = swap_step(&input, state, read("blue"));
    assert!(matches!(action, SwapAction::Write { ref row_id, ref new_value } if row_id == "1" && new_value == "blue"));
    let (state, action) = swap_step(&input, state, SwapEvent::Wrote(Ok(())));
    assert!(matches!(action, SwapAction::Write { ref row_id, ref new_value } if row_id == "2" && new_value == "red"));
    let (state, action) = swap_step(&input, state, SwapEvent::Wrote(Ok(())));
    assert!(matches!(action, SwapAction::Finish(Ok(()))));
    assert!(matches!(state, SwapState::Finished));
}

#[test]
fn swap_missing_row_writes_nothing() {
    let input = swap_input();
    let (state, _) = swap_start(&input);
    let (state, action) = swap_step(&input, state, read("red"));
    assert!(matches!(action, SwapAction::Read { .. }));
    let (state, action) = swap_step(&input, state, SwapEvent::Read(Ok(vec![])));
    assert!(matches!(action, SwapAction::Finish(Err(ref m)) if m == "No rows returned from database"));
    assert!(matches!(state, SwapState::Finished));
    let (state, _) = swap_start(&input);
    let (_, action) = swap_step(&input, state, SwapEvent::Read(Ok(vec![vec![]])));
    assert!(matches!(action, SwapAction::Finish(Err(ref m)) if m == "Row has no columns"));
    let (state, _) = swap_start(&input);
    let (_, action) = swap_step(&input, state, SwapEvent::Read(Err("locked".to_string())));
    assert!(matches!(action, SwapAction::Finish(Err(ref m)) if m == "locked"));
}

#[test]
fn swap_failed_write_ends_exchange() {
    let input = swap_input();
    let (state, _) = swap_start(&input);
    let (state, _) = swap_step(&input, state, read("red"));
    let (state, _) = swap_step(&input, state, read("blue"));
    let (state, action) = swap_step(&input, state, SwapEvent::Wrote(Err("readonly".to_string())));
    assert!(matches!(action, SwapAction::Finish(Err(ref m)) if m == "readonly"));
    assert!(matches!(state, SwapState::Finished));
}

#[test]
fn socket_loop_steps() {
    assert!(matches!(socket_step(SocketEvent::Closed), SocketAction::Stop));
    assert!(matches!(socket_step(SocketEvent::NonText), SocketAction::Receive));
    assert!(matches!(
        socket_step(SocketEvent::Text(Ok(Ok("reply".to_string())))),
        SocketAction::Send(ref t) if t == "reply"
    ));
    assert!(matches!(socket_step(SocketEvent::Text(Ok(Err("db down".to_string())))), SocketAction::Receive));
    let bad = ServerRelatedError::ServerTalker(ErrorDetails {
        err_msg: "e".to_string(),
        file: "f".to_string(),
        method: "m".to_string(),
    });
    assert!(matches!(
        socket_step(SocketEvent::Text(Err(bad))),
        SocketAction::Send(ref t) if t == "Message doesn't use correct protocol"
    ));
    assert!(matches!(socket_step(SocketEvent::Sent(Ok(()))), SocketAction::Receive));
    assert!(matches!(socket_step(SocketEvent::Sent(Err("gone".to_string()))), SocketAction::Stop));
}

fn cell(name: &str, value: &str) -> ColumnValue {
    ColumnValue { column_name: name.to_string(), value: Col::Text(value.to_string()) }
}

#[test]
fn seeding_inserts_each_row_when_empty() {
    let table = SeedTable {
        table_name: "pets".to_string(),
        rows: vec![vec![cell("animal", "cat")], vec![cell("animal", "dog"), cell("color", "brown")]],
    };
    let requests = seed_requests(table, &Ok(true));
    assert_eq!(requests.len(), 2);
    assert!(requests.iter().all(|r| r.table_name == "pets"));
    assert_eq!(requests[0].values.len(), 1);
    assert!(matches!(requests[0].values[0].value, Col::Text(ref s) if s == "cat"));
    assert_eq!(requests[1].values.len(), 2);
    assert_eq!(requests[1].values[1].column_name, "color");
    let cars = seed_tables().remove(1);
    let requests = seed_requests(cars, &Ok(true));
    assert_eq!(requests.len(), 2);
    assert_eq!(requests[1].table_name, "cars");
    assert!(matches!(requests[1].values[1].value, Col::Integer(2018)));
}

#[test]
fn seeding_skips_full_or_unchecked_tables() {
    let table = || SeedTable { table_name: "pets".to_string(), rows: vec![vec![cell("animal", "cat")]] };
    assert!(seed_requests(table(), &Ok(false)).is_empty());
    assert!(seed_requests(table(), &Err("no such table".to_string())).is_empty());
}

#[test]
fn mock_loop_answers_each_text() {
    assert!(matches!(
        mock_server_step(MockEvent::Received("4|ping".to_string())),
        MockAction::Reply(ref r) if r == "4|mock reply to: ping"
    ));
    assert!(matches!(
        mock_server_step(MockEvent::Received("hello".to_string())),
        MockAction::Reply(ref r) if r == "mock reply to: hello"
    ));
    assert!(matches!(mock_server_step(MockEvent::ReplySent(true)), MockAction::Receive));
    assert!(matches!(mock_server_step(MockEvent::ReplySent(false)), MockAction::Stop));
    assert!(matches!(mock_server_step(MockEvent::Closed), MockAction::Stop));
    let texts = ["0|a", "1|b", "2|c"];
    let mut replies = Vec::new();
    for text in texts {
        if let MockAction::Reply(r) = mock_server_step(MockEvent::Received(text.to_string())) {
            replies.push(r);
        }
        assert!(matches!(mock_server_step(MockEvent::ReplySent(true)), MockAction::Receive));
    }
    assert_eq!(replies, vec!["0|mock reply to: a", "1|mock reply to: b", "2|mock reply to: c"]);
}

#[test]
fn successive_sends_take_successive_ids() {
    let mut pending: PendingReplies<u32> = PendingReplies::new();
    let texts: Vec<String> = (0..5).map(|i| pending.register(i, "x")).collect();
    assert_eq!(texts, vec!["0|x", "1|x", "2|x", "3|x", "4|x"]);
    for i in 0..5u32 {
        let (who, _) = pending.route(&format!("{}|r", i)).unwrap();
        assert_eq!(*who, i);
    }
    assert!(pending.route("5|r").is_none());
    assert!(pending.has_free_id());
}

#[test]
fn base64_round_trip() {
    for bytes in [vec![], vec![0u8], vec![1, 2], vec![255, 0, 128], (0..=255u8).collect::<Vec<u8>>()] {
        let text = Base64Bytes(bytes.clone()).to_base64();
        assert_eq!(Base64Bytes::from_base64(&text).unwrap().0, bytes);
    }
    assert!(Base64Bytes::from_base64("aGVsbG8").is_err());
}

#[test]
fn table_shape_prepare_failure() {
    assert_eq!(
        table_shape_result(1, 0, "no such table: t", vec![]),
        Err("Prepare failed: no such table: t".to_string())
    );
    assert!(matches!(shape_start(1, 0, "busy"), StepAction::Fail(ref m) if m == "Prepare failed: busy"));
    assert!(matches!(shape_start(0, 0, "unused"), StepAction::Continue(ref v) if v.is_empty()));
}

#[test]
fn table_shape_whole_run() {
    let steps = vec![
        StepOutcome::Row(shape_row(0, "id", "INTEGER", false, true)),
        StepOutcome::Row(shape_row(1, "name", "TEXT", true, false)),
        StepOutcome::Done,
    ];
    assert_eq!(
        table_shape_result(0, 0, "unused", steps),
        Ok(vec![
            "info0: name=id, type=INTEGER, not_null=false, primary_key=true".to_string(),
            "info1: name=name, type=TEXT, not_null=true, primary_key=false".to_string(),
        ])
    );
    assert_eq!(table_shape_result(0, 0, "unused", vec![StepOutcome::Done]), Ok(vec![]));
    let failing = vec![StepOutcome::Row(shape_row(0, "id", "INTEGER", false, true)), StepOutcome::Failed("io".to_string())];
    assert_eq!(table_shape_result(0, 0, "unused", failing), Err("Step failed: io".to_string()));
}

#[test]
fn read_whole_run() {
    let steps = || vec![StepOutcome::Row(vec![Some("1".to_string()), None]), StepOutcome::Done];
    assert_eq!(
        read_from_db_result(false, 0, 0, "", steps(), 0, ""),
        Ok(vec![vec!["1".to_string(), String::new()]])
    );
    assert_eq!(read_from_db_result(true, 0, 0, "", steps(), 0, ""), Err("db pointer is null".to_string()));
    assert_eq!(
        read_from_db_result(false, 1, 0, "SQLITE_ERROR", vec![], 0, ""),
        Err("prepare failed: SQLITE_ERROR".to_string())
    );
    assert_eq!(
        read_from_db_result(false, 0, 0, "", vec![StepOutcome::Failed("locked".to_string())], 0, ""),
        Err("sqlite3_step error: locked".to_string())
    );
    assert_eq!(
        read_from_db_result(false, 0, 0, "", steps(), 5, "SQLITE_BUSY"),
        Err("finalize failed: SQLITE_BUSY".to_string())
    );
}

#[test]
fn write_statement_outcomes() {
    assert_eq!(write_statement_result("update", false, 0, 0, "", 101, 101), Ok(()));
    assert_eq!(write_statement_result("update", true, 0, 0, "", 101, 101), Err("db pointer is null".to_string()));
    assert_eq!(
        write_statement_result("delete", false, 1, 0, "SQLITE_ERROR", 101, 101),
        Err("prepare failed: SQLITE_ERROR".to_string())
    );
    assert_eq!(
        write_statement_result("update", false, 0, 0, "", 19, 101),
        Err("update failed: step returned 19".to_string())
    );
    assert_eq!(statement_ready(false, 0, 0, "x"), Ok(()));
    assert_eq!(code_check("finalize", 0, 0, "x"), Ok(()));
    assert_eq!(code_check("finalize", 5, 0, "SQLITE_BUSY"), Err("finalize failed: SQLITE_BUSY".to_string()));
}
