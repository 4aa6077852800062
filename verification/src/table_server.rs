//! The decisions of the table-viewer server: which rows it seeds an empty
//! table with, how it answers each request, and what it sends back on its socket.
use vstd::prelude::*;
use vstd::string::StringExecFns;
use crate::data_structures::{ColumnValue, GetDataIn, InsertDataIn, SelectArgument};
use crate::error_stuff::ServerRelatedError;
use crate::message_struct::ok_serialized;
use crate::server_protocol::{response_for, Request, Response, UnbuiltRequest};
use crate::table_row::Col;

verus! {

/// Rows to put into a table when it is empty.
pub struct SeedTable {
    pub table_name: String,
    pub rows: Vec<Vec<ColumnValue>>,
}

fn text_cell(name: &str, value: &str) -> (v: ColumnValue)
    ensures
        v.column_name@ == name@,
        v.value matches Col::Text(t) && t@ == value@,
{
    ColumnValue { column_name: String::from_str(name), value: Col::Text(String::from_str(value)) }
}

fn integer_cell(name: &str, value: i64) -> (v: ColumnValue)
    ensures
        v.column_name@ == name@,
        v.value == Col::Integer(value),
{
    ColumnValue { column_name: String::from_str(name), value: Col::Integer(value) }
}

fn pair(a: ColumnValue, b: ColumnValue) -> (row: Vec<ColumnValue>)
    ensures
        row@ == seq![a, b],
{
    let mut row = Vec::new();
    row.push(a);
    row.push(b);
    row
}

/// The seed data: `simple_table` gets a black cat and a brown dog, `cars` a
/// 2020 Toyota and a 2018 Honda.
pub fn seed_tables() -> (tables: Vec<SeedTable>)
    ensures
        tables@.len() == 2,
        tables@[0].table_name@ == "simple_table"@,
        tables@[0].rows@.len() == 2,
        tables@[0].rows@[0]@.len() == 2,
        tables@[0].rows@[0]@[0].column_name@ == "animal"@,
        tables@[0].rows@[0]@[0].value matches Col::Text(t) && t@ == "cat"@,
        tables@[0].rows@[0]@[1].column_name@ == "color"@,
        tables@[0].rows@[0]@[1].value matches Col::Text(t) && t@ == "black"@,
        tables@[0].rows@[1]@.len() == 2,
        tables@[0].rows@[1]@[0].column_name@ == "animal"@,
        tables@[0].rows@[1]@[0].value matches Col::Text(t) && t@ == "dog"@,
        tables@[0].rows@[1]@[1].column_name@ == "color"@,
        tables@[0].rows@[1]@[1].value matches Col::Text(t) && t@ == "brown"@,
        tables@[1].table_name@ == "cars"@,
        tables@[1].rows@.len() == 2,
        tables@[1].rows@[0]@.len() == 2,
        tables@[1].rows@[0]@[0].column_name@ == "make"@,
        tables@[1].rows@[0]@[0].value matches Col::Text(t) && t@ == "Toyota"@,
        tables@[1].rows@[0]@[1].column_name@ == "year"@,
        tables@[1].rows@[0]@[1].value == Col::Integer(2020),
        tables@[1].rows@[1]@.len() == 2,
        tables@[1].rows@[1]@[0].column_name@ == "make"@,
        tables@[1].rows@[1]@[0].value matches Col::Text(t) && t@ == "Honda"@,
        tables@[1].rows@[1]@[1].column_name@ == "year"@,
        tables@[1].rows@[1]@[1].value == Col::Integer(2018),
{
    let mut animals = Vec::new();
    animals.push(pair(text_cell("animal", "cat"), text_cell("color", "black")));
    animals.push(pair(text_cell("animal", "dog"), text_cell("color", "brown")));
    let mut cars = Vec::new();
    cars.push(pair(text_cell("make", "Toyota"), integer_cell("year", 2020)));
    cars.push(pair(text_cell("make", "Honda"), integer_cell("year", 2018)));
    let mut tables = Vec::new();
    tables.push(SeedTable { table_name: String::from_str("simple_table"), rows: animals });
    tables.push(SeedTable { table_name: String::from_str("cars"), rows: cars });
    tables
}

/// A table is seeded only when the check found it empty; a table with rows,
/// or one that could not be checked, is left alone.
pub fn should_seed(table_is_empty: &Result<bool, String>) -> (seed: bool)
    ensures
        seed == (table_is_empty matches Ok(true)),
{
    match table_is_empty {
        Ok(empty) => *empty,
        Err(_) => false,
    }
}

/// The inserts that seed a table: one per row, in order, each naming the
/// table, when the check found the table empty; none otherwise, so a failed
/// insert of one row leaves the others to be tried.
pub fn seed_requests(table: SeedTable, checked: &Result<bool, String>) -> (requests: Vec<InsertDataIn>)
    ensures
        checked matches Ok(true) ==> {
            &&& requests@.len() == table.rows@.len()
            &&& forall|i: int| 0 <= i < requests@.len() ==> {
                &&& #[trigger] requests@[i].table_name@ == table.table_name@
                &&& requests@[i].values@ == table.rows@[i]@
            }
        },
        !(checked matches Ok(true)) ==> requests@.len() == 0,
{
    let mut requests: Vec<InsertDataIn> = Vec::new();
    if !should_seed(checked) {
        return requests;
    }
    let SeedTable { table_name, rows } = table;
    let ghost all_rows = rows@;
    let mut rest = rows;
    while rest.len() > 0
        invariant
            requests@.len() + rest@.len() == all_rows.len(),
            rest@ == all_rows.subrange(requests@.len() as int, all_rows.len() as int),
            forall|i: int| 0 <= i < requests@.len() ==> {
                &&& #[trigger] requests@[i].table_name@ == table_name@
                &&& requests@[i].values@ == all_rows[i]@
            },
        decreases rest@.len(),
    {
        let values = rest.remove(0);
        requests.push(InsertDataIn { table_name: table_name.clone(), values });
    }
    requests
}

/// The read of a whole table: all columns, no condition.
pub fn entire_table_request(table_name: String) -> (request: GetDataIn)
    ensures
        request.table_name == table_name,
        request.arguments@.len() == 1,
        request.arguments@[0] matches SelectArgument::All,
        request.columns_to_read@.len() == 0,
{
    let mut arguments = Vec::new();
    arguments.push(SelectArgument::All);
    GetDataIn { table_name, arguments, columns_to_read: Vec::new() }
}

/// What the server does for a request.
pub enum ServerAction {
    /// Send this reply.
    Reply(Response),
    /// Read the whole table, then reply under this id.
    ReadTable { message_id: usize, table_name: String },
}

/// A ping is answered at once with the empty success payload; a table request
/// becomes a read of that table.
pub fn handle_request(unbuilt: UnbuiltRequest, id: usize) -> (action: ServerAction)
    ensures
        unbuilt is Ping ==> (action matches ServerAction::Reply(r) && r.message_id == id
            && r.request is Ping && r.data.0@ == seq![0u8, 0u8, 0u8, 0u8]),
        unbuilt matches UnbuiltRequest::GetEntireTable { table_name } ==> (action matches
            ServerAction::ReadTable { message_id, table_name: t } && message_id == id && t == table_name),
{
    match unbuilt {
        UnbuiltRequest::Ping => ServerAction::Reply(response_for(id, Request::Ping, ok_serialized())),
        UnbuiltRequest::GetEntireTable { table_name } => ServerAction::ReadTable { message_id: id, table_name },
    }
}

/// The text the server sends back for a received text: the reply when the
/// request was handled, nothing when handling it failed, and a notice when the
/// text did not follow the protocol.
pub fn socket_reply(handled: Result<Result<String, String>, ServerRelatedError>) -> (reply: Option<String>)
    ensures
        handled matches Ok(Ok(r)) ==> reply == Some(r),
        handled matches Ok(Err(_)) ==> reply is None,
        handled is Err ==> (reply matches Some(t) && t@ == "Message doesn't use correct protocol"@),
{
    match handled {
        Ok(Ok(r)) => Some(r),
        Ok(Err(_)) => None,
        Err(_) => Some(String::from_str("Message doesn't use correct protocol")),
    }
}

/// What happened on the server's socket since the last step.
pub enum SocketEvent {
    /// The socket closed, or receiving from it failed.
    Closed,
    /// A frame other than text arrived.
    NonText,
    /// A text arrived, and handling it gave this.
    Text(Result<Result<String, String>, ServerRelatedError>),
    /// The last reply went out, or sending it failed.
    Sent(Result<(), String>),
}

/// What the server's socket loop does next.
pub enum SocketAction {
    /// Leave the loop.
    Stop,
    /// Wait for the next frame.
    Receive,
    /// Send this text.
    Send(String),
}

/// One turn of the server's socket loop: frames other than text are skipped,
/// a text whose handling failed is answered with nothing, any other text is
/// answered as `socket_reply` says, and the loop ends when the socket closes or
/// a send fails.
pub fn socket_step(event: SocketEvent) -> (action: SocketAction)
    ensures
        event is Closed ==> action is Stop,
        event is NonText ==> action is Receive,
        event matches SocketEvent::Text(Ok(Ok(r))) ==> action == SocketAction::Send(r),
        event matches SocketEvent::Text(Ok(Err(_))) ==> action is Receive,
        event matches SocketEvent::Text(Err(_)) ==> (action matches SocketAction::Send(t)
            && t@ == "Message doesn't use correct protocol"@),
        event matches SocketEvent::Sent(Ok(_)) ==> action is Receive,
        event matches SocketEvent::Sent(Err(_)) ==> action is Stop,
{
    match event {
        SocketEvent::Closed => SocketAction::Stop,
        SocketEvent::NonText => SocketAction::Receive,
        SocketEvent::Text(handled) => match socket_reply(handled) {
            Some(reply) => SocketAction::Send(reply),
            None => SocketAction::Receive,
        },
        SocketEvent::Sent(Ok(())) => SocketAction::Receive,
        SocketEvent::Sent(Err(_)) => SocketAction::Stop,
    }
}

} // verus!
