use db_socket::create_table::{builder_to_column_def, col_with_default_value, default_col, id_column, ColumnDefBuilder, ColumnType};
use db_socket::data_structures::{GetDataOut, SelectArgument, SwapColumnsIn};
use db_socket::db_error::DbError;
use db_socket::error_stuff::{ErrorDetails, ServerRelatedError};
use db_socket::inbetween::{frame, mock_reply, parse_u64_text, read_frame, split_once_at, PendingReplies};
use db_socket::live_forever::LiveForever;
use db_socket::message_struct::{
    craft_response, get_data, i_dont_want_to, ok_serialized, prepared_response, receive_response,
    serialization_error_as_jsonstr, Base64Bytes, ExpectedResponse, ReceiveError, Request, Response,
};
use db_socket::msg_builder::{get_data_in_message, handled_by_server, unbuild_get_data_out};
use db_socket::practice::{do_something, DoSomethingTrait, MyStruct, PrintOrSomething, Struct};
use db_socket::row_swap::{first_text_cell, first_value, id_condition, swap_edits, swap_lookup};
use db_socket::server_protocol::{
    message_for, protocol_err, response_for, unbuild_message, unbuild_reply, Request as ProtocolRequest,
    UnbuiltRequest, UnbuiltResponse, PROTOCOL_FILE,
};
use db_socket::shared_data::{data_in_transformed_to_data_out, DataIn};
use db_socket::socket_testing_table::{all_rows_request, column_definitions, values_to_seed, COLUMN_NAME, TABLE_NAME};
use db_socket::table_row::{Col, Row};
use db_socket::table_server::{entire_table_request, handle_request, seed_tables, should_seed, socket_reply, ServerAction};
use std::marker::PhantomData;

fn eq_arg(x: &str, y: &str) -> SelectArgument {
    SelectArgument::XEqualY { x: x.to_string(), y: y.to_string() }
}

#[test]
fn select_argument_conditions() {
    assert_eq!(eq_arg("name", "Bob").to_sql_condition(), "\"name\" = 'Bob'");
    let x = "col".to_string();
    let y = "v".to_string();
    assert_eq!(SelectArgument::XNotEqualY { x: x.clone(), y: y.clone() }.to_sql_condition(), "\"col\" != 'v'");
    assert_eq!(SelectArgument::XGreaterThanY { x: x.clone(), y: y.clone() }.to_sql_condition(), "\"col\" > 'v'");
    assert_eq!(SelectArgument::XLessThanY { x: x.clone(), y: y.clone() }.to_sql_condition(), "\"col\" < 'v'");
    assert_eq!(
        SelectArgument::XGreaterThanOrEqualY { x: x.clone(), y: y.clone() }.to_sql_condition(),
        "\"col\" >= 'v'"
    );
    assert_eq!(
        SelectArgument::XLessThanOrEqualY { x: x.clone(), y: y.clone() }.to_sql_condition(),
        "\"col\" <= 'v'"
    );
    assert_eq!(SelectArgument::XLikeY { x: x.clone(), y: "%a%".to_string() }.to_sql_condition(), "\"col\" LIKE '%a%'");
    assert_eq!(SelectArgument::All.to_sql_condition(), "");
}

#[test]
fn select_argument_escapes_quotes() {
    assert_eq!(eq_arg("we\"ird", "O'Reilly").to_sql_condition(), "\"we\"\"ird\" = 'O''Reilly'");
}

#[test]
fn select_argument_in_list() {
    let arg = SelectArgument::XInY { x: "id".to_string(), y: vec!["1".to_string(), "2".to_string(), "it's".to_string()] };
    assert_eq!(arg.to_sql_condition(), "\"id\" IN ('1', '2', 'it''s')");
    let empty = SelectArgument::XInY { x: "id".to_string(), y: vec![] };
    assert_eq!(empty.to_sql_condition(), "\"id\" IN ()");
}

#[test]
fn column_builders() {
    let id = id_column();
    assert_eq!(id.0, "id");
    assert_eq!(id.1, "INTEGER");
    assert!(id.2 && id.3 && id.4 && id.6);
    assert_eq!(id.5, "");
    let plain = default_col(ColumnType::Real, "price");
    assert_eq!(plain.0, "price");
    assert_eq!(plain.1, "REAL");
    assert!(!plain.2 && !plain.3 && !plain.4 && !plain.6);
    let with_default = col_with_default_value(ColumnType::Blob, "x'00'".to_string(), "data");
    assert_eq!(with_default.1, "BLOB");
    assert_eq!(with_default.5, "x'00'");
    let built = builder_to_column_def(ColumnDefBuilder("t".to_string(), ColumnType::Text, true, false, true, "d".to_string(), false));
    assert_eq!(built.0, "t");
    assert_eq!(built.1, "TEXT");
    assert!(built.2 && !built.3 && built.4 && !built.6);
    assert_eq!(built.5, "d");
}

#[test]
fn socket_testing_table_layout() {
    let columns = column_definitions();
    assert_eq!(columns.len(), 2);
    assert_eq!(columns[0].0, "id");
    assert_eq!(columns[1].0, COLUMN_NAME);
    assert_eq!(columns[1].1, "TEXT");
    assert!(values_to_seed(true).is_empty());
    let seeds = values_to_seed(false);
    let texts: Vec<String> = seeds
        .iter()
        .map(|v| match &v.value {
            Col::Text(t) => t.clone(),
            Col::Integer(i) => i.to_string(),
        })
        .collect();
    assert_eq!(texts, vec!["text1", "text2", "text3"]);
    assert!(seeds.iter().all(|v| v.column_name == COLUMN_NAME));
    let request = all_rows_request();
    assert_eq!(request.table_name, TABLE_NAME);
    assert!(matches!(request.arguments.as_slice(), [SelectArgument::All]));
    assert!(request.columns_to_read.is_empty());
}

#[test]
fn error_display_texts() {
    let details = ErrorDetails { err_msg: "bad json".to_string(), file: "f.rs".to_string(), method: "m".to_string() };
    assert_eq!(details.to_display_string(), "f.rs::m: bad json");
    assert_eq!(ServerRelatedError::ServerTalker(details.clone()).to_display_string(), "server_talker: f.rs::m: bad json");
    assert_eq!(ServerRelatedError::Protocol(details.clone()).to_display_string(), "protocol: f.rs::m: bad json");
    assert_eq!(ServerRelatedError::ResponseRouter(details).to_display_string(), "response_router: f.rs::m: bad json");
}

#[test]
fn protocol_error_names_method() {
    match protocol_err("unbuild_msg", "eof".to_string()) {
        ServerRelatedError::Protocol(d) => {
            assert_eq!(d.method, "unbuild_msg");
            assert_eq!(d.err_msg, "eof");
            assert_eq!(d.file, PROTOCOL_FILE);
        }
        _ => panic!("wrong layer"),
    }
}

#[test]
fn protocol_message_round_trip() {
    let msg = message_for(7, ProtocolRequest::GetEntireTable { table_name: "cars".to_string() }, vec![1, 2]);
    let (unbuilt, id, payload) = unbuild_message(msg);
    assert!(matches!(unbuilt, UnbuiltRequest::GetEntireTable { ref table_name } if table_name == "cars"));
    assert_eq!(id, 7);
    assert_eq!(payload, vec![1, 2]);
    let (unbuilt, id, payload) = unbuild_reply(response_for(8, ProtocolRequest::Ping, vec![]));
    assert!(matches!(unbuilt, UnbuiltResponse::Ping));
    assert_eq!(id, 8);
    assert!(payload.is_empty());
}

#[test]
fn frames_read_back() {
    assert_eq!(frame(42, "hello"), "42|hello");
    assert_eq!(read_frame("42|hello"), Some((42, "hello".to_string())));
    assert_eq!(read_frame("7|a|b"), Some((7, "a|b".to_string())));
    assert_eq!(read_frame("+7|x"), Some((7, "x".to_string())));
    assert_eq!(read_frame("abc|x"), None);
    assert_eq!(read_frame("|x"), None);
    assert_eq!(read_frame("no separator"), None);
    assert_eq!(read_frame("18446744073709551615|max"), Some((u64::MAX, "max".to_string())));
    assert_eq!(read_frame("18446744073709551616|over"), None);
}

#[test]
fn parse_matches_std() {
    for s in ["0", "007", "+1", "+", "", "-1", "12a", "18446744073709551615", "99999999999999999999", "٣"] {
        assert_eq!(parse_u64_text(s), s.parse::<u64>().ok(), "{:?}", s);
    }
}

#[test]
fn split_once_matches_std() {
    for s in ["a|b", "|", "ab", "a|b|c", ""] {
        let ours = split_once_at(s, '|');
        let std = s.split_once('|').map(|(a, b)| (a.to_string(), b.to_string()));
        assert_eq!(ours, std);
    }
}

#[test]
fn mock_server_replies() {
    assert_eq!(mock_reply("3|hi"), "3|mock reply to: hi");
    assert_eq!(mock_reply("hi"), "mock reply to: hi");
    assert_eq!(mock_reply("3|a|b"), "3|mock reply to: a|b");
}

#[test]
fn replies_reach_their_sender() {
    let mut pending: PendingReplies<&str> = PendingReplies::new();
    let first = pending.register("alice", "hello");
    let second = pending.register("bob", "hey");
    assert_eq!(first, "0|hello");
    assert_eq!(second, "1|hey");
    let reply = mock_reply(&second);
    let (who, payload) = pending.route(&reply).unwrap();
    assert_eq!(*who, "bob");
    assert_eq!(payload, "mock reply to: hey");
    let (who, _) = pending.route(&mock_reply(&first)).unwrap();
    assert_eq!(*who, "alice");
    assert!(pending.route("5|nobody waits").is_none());
    assert!(pending.route("garbage").is_none());
}

#[test]
fn refusal_response() {
    let r = i_dont_want_to(3, Request::DropTable);
    assert_eq!(r.message_id, 3);
    assert_eq!(r.request, Request::DropTable);
    assert_eq!(r.result, Err(DbError::BadCode("server does not handle this request".to_string())));
}

#[test]
fn crafted_response_carries_data() {
    let r = craft_response(vec![9, 8], 11, Request::GetData);
    assert_eq!(r.message_id, 11);
    assert_eq!(r.result, Ok(Base64Bytes(vec![9, 8])));
    assert_eq!(
        serialization_error_as_jsonstr("boom".to_string()),
        "{\"error\":\"failed to serialize response: boom\"}"
    );
    assert_eq!(prepared_response(Ok("{}".to_string())), "{}");
    assert_eq!(
        prepared_response(Err("x".to_string())),
        "{\"error\":\"failed to serialize response: x\"}"
    );
}

#[test]
fn ok_payload_is_bincode_ok() {
    assert_eq!(ok_serialized(), vec![0, 0, 0, 0]);
    assert_eq!(ok_serialized(), bincode::serialize(&Ok::<(), String>(())).unwrap());
}

#[test]
fn base64_text() {
    let b = Base64Bytes(b"hello".to_vec());
    assert_eq!(b.to_base64(), "aGVsbG8=");
    assert_eq!(Base64Bytes(vec![]).to_base64(), "");
    assert_eq!(Base64Bytes::from_base64("aGVsbG8=").unwrap(), b);
    assert!(Base64Bytes::from_base64("not base64!").is_err());
}

fn decode(bytes: &Vec<u8>) -> Result<GetDataOut, DbError> {
    if bytes.is_empty() {
        Err(DbError::CureFail("empty".to_string()))
    } else {
        Ok(GetDataOut { rows: vec![Row { cols: vec![Col::Integer(bytes[0] as i64)] }] })
    }
}

#[test]
fn receiving_replies() {
    let ok = Response { message_id: 4, request: Request::GetData, result: Ok(Base64Bytes(vec![5])) };
    match receive_response(ok, decode) {
        Ok((ExpectedResponse::GetData(out), id)) => {
            assert_eq!(id, 4);
            assert!(matches!(out.rows[0].cols[0], Col::Integer(5)));
        }
        _ => panic!("expected data"),
    }
    let refused = Response { message_id: 4, request: Request::GetData, result: Err(DbError::ConnError("down".to_string())) };
    assert!(matches!(receive_response(refused, decode), Err(ReceiveError::DbErr(DbError::ConnError(_)))));
    let undecodable = Response { message_id: 4, request: Request::GetData, result: Ok(Base64Bytes(vec![])) };
    assert!(matches!(receive_response(undecodable, decode), Err(ReceiveError::DbErr(DbError::CureFail(_)))));
    let other = Response { message_id: 4, request: Request::ListTables, result: Ok(Base64Bytes(vec![1])) };
    assert!(matches!(receive_response(other, decode), Err(ReceiveError::UnexpectedResponse)));
    assert!(matches!(get_data(Base64Bytes(vec![]), decode), Err(ReceiveError::DbErr(_))));
}

#[test]
fn mobile_message_building() {
    let msg = get_data_in_message(12, vec![1, 2, 3]);
    assert_eq!(msg.message_id, 12);
    assert_eq!(msg.request, Request::GetData);
    assert_eq!(msg.content, Base64Bytes(vec![1, 2, 3]));
    let reply = Response { message_id: 12, request: Request::GetData, result: Ok(Base64Bytes(vec![7])) };
    let unbuilt = unbuild_get_data_out(reply, decode).unwrap();
    assert_eq!(unbuilt.message_id, 12);
    assert_eq!(unbuilt.request, Request::GetData);
    let reply = Response { message_id: 12, request: Request::GetData, result: Err(DbError::BadCode("no".to_string())) };
    assert_eq!(unbuild_get_data_out(reply, decode).unwrap_err(), DbError::BadCode("no".to_string()));
    assert!(handled_by_server(Request::GetData));
    assert!(!handled_by_server(Request::InsertData));
}

#[test]
fn swapping_rows() {
    let input = SwapColumnsIn {
        table_name: "t".to_string(),
        row_id_1: "1".to_string(),
        row_id_2: "2".to_string(),
        column: "c".to_string(),
    };
    let lookup = swap_lookup(&input, "1");
    assert_eq!(lookup.table_name, "t");
    assert_eq!(lookup.columns_to_read, vec!["c".to_string()]);
    assert_eq!(lookup.arguments[0].to_sql_condition(), "\"id\" = '1'");
    let err = first_value(vec![], "9").unwrap_err();
    assert_eq!(err, DbError::IllegalInput("No row found for id 9".to_string()));
    let err = first_value(vec![Row { cols: vec![] }], "9").unwrap_err();
    assert_eq!(err, DbError::IllegalInput("No column value for id 9".to_string()));
    let v = first_value(vec![Row { cols: vec![Col::Text("a".to_string()), Col::Integer(2)] }], "9").unwrap();
    assert!(matches!(v, Col::Text(ref s) if s == "a"));
    let (e1, e2) = swap_edits(&input, Col::Integer(10), Col::Integer(20));
    assert_eq!(e1.row_id, "1");
    assert!(matches!(e1.new_value, Col::Integer(20)));
    assert_eq!(e2.row_id, "2");
    assert!(matches!(e2.new_value, Col::Integer(10)));
    assert_eq!(id_condition("5"), "id = 5");
    assert_eq!(first_text_cell(vec![]), Err("No rows returned from database".to_string()));
    assert_eq!(first_text_cell(vec![vec![]]), Err("Row has no columns".to_string()));
    assert_eq!(first_text_cell(vec![vec!["x".to_string(), "y".to_string()]]), Ok("x".to_string()));
}

#[test]
fn printing_values() {
    assert_eq!(Struct { value: 3 }.printOrSomething(), "3");
    assert_eq!(Struct { value: -120 }.printOrSomething(), "-120");
    assert_eq!(Struct { value: i32::MIN }.printOrSomething(), i32::MIN.to_string());
    assert_eq!(Struct { value: "hi".to_string() }.printOrSomething(), "hi");
    assert_eq!(Struct { value: [7, 2, 5] }.printOrSomething(), ", 7, 2, 5");
    assert_eq!(Struct { value: [13, 23, 5, 5, 665] }.printOrSomething(), ", 13, 23, 5, 5, 665");
    assert_eq!(do_something::<i32>(), "takes_a_t");
    let s = MyStruct::<bool> { marker: PhantomData };
    assert_eq!(s.do_something_through_trait(), "takes_a_t_through_trait");
}

#[test]
fn live_forever_keeps_last_write() {
    let mut l = LiveForever::new("first".to_string());
    assert_eq!(l.get_data(), "first");
    l.change_data("second".to_string());
    assert_eq!(l.get_data(), "second");
}

#[test]
fn data_is_combined() {
    let out = data_in_transformed_to_data_out(DataIn { data1: "Hello".to_string(), data2: " World".to_string() });
    assert_eq!(out.data_combined, "Hello World");
}

#[test]
fn table_server_decisions() {
    let tables = seed_tables();
    assert_eq!(tables.len(), 2);
    assert_eq!(tables[0].table_name, "simple_table");
    assert_eq!(tables[1].table_name, "cars");
    assert!(matches!(tables[1].rows[1][1].value, Col::Integer(2018)));
    assert!(should_seed(&Ok(true)));
    assert!(!should_seed(&Ok(false)));
    assert!(!should_seed(&Err("locked".to_string())));
    let read = entire_table_request("cars".to_string());
    assert_eq!(read.table_name, "cars");
    assert!(matches!(read.arguments.as_slice(), [SelectArgument::All]));
    match handle_request(UnbuiltRequest::Ping, 5) {
        ServerAction::Reply(r) => {
            assert_eq!(r.message_id, 5);
            assert_eq!(r.data.0, vec![0, 0, 0, 0]);
        }
        _ => panic!("ping is answered at once"),
    }
    match handle_request(UnbuiltRequest::GetEntireTable { table_name: "cars".to_string() }, 6) {
        ServerAction::ReadTable { message_id, table_name } => {
            assert_eq!(message_id, 6);
            assert_eq!(table_name, "cars");
        }
        _ => panic!("a table request reads the table"),
    }
    assert_eq!(socket_reply(Ok(Ok("r".to_string()))), Some("r".to_string()));
    assert_eq!(socket_reply(Ok(Err("db".to_string()))), None);
    let err = protocol_err("unbuild_msg", "bad".to_string());
    assert_eq!(socket_reply(Err(err)), Some("Message doesn't use correct protocol".to_string()));
}
