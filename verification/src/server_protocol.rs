//! The message protocol of the table-viewer server: a request with its id and
//! payload, and the reply with the same id.
use vstd::prelude::*;
use vstd::string::StringExecFns;
use crate::error_stuff::{ErrorDetails, ServerRelatedError};
use crate::message_struct::Base64Bytes;
use crate::table_row::Row;

verus! {

/// What a client asks the server for.
#[derive(Debug, Clone)]
pub enum Request {
    Ping,
    GetEntireTable { table_name: String },
}

/// A request as the server handles it, once taken out of its message.
#[derive(Debug, Clone)]
pub enum UnbuiltRequest {
    Ping,
    GetEntireTable { table_name: String },
}

/// A reply as the client handles it, once taken out of its message.
#[derive(Debug, Clone)]
pub enum UnbuiltResponse {
    Ping,
    GetEntireTable { table_name: String },
}

/// A request with its id and payload.
#[derive(Debug, Clone)]
pub struct Message {
    pub message_id: usize,
    pub request: Request,
    pub content: Base64Bytes,
}

/// The reply to the message with the same id.
#[derive(Debug, Clone)]
pub struct Response {
    pub message_id: usize,
    pub request: Request,
    pub data: Base64Bytes,
}

/// The payload of a reply to GetEntireTable.
#[derive(Debug, Clone)]
pub struct GetEntireTableOut {
    pub rows: Vec<Row>,
}

/// The file that protocol errors name as their origin.
pub const PROTOCOL_FILE: &'static str = "src/server_protocol.rs";

/// A protocol error raised in `method`.
pub fn protocol_err(method: &str, err_msg: String) -> (e: ServerRelatedError)
    ensures
        e matches ServerRelatedError::Protocol(d) && d.err_msg == err_msg && d.method@ == method@
            && d.file@ == PROTOCOL_FILE@,
{
    ServerRelatedError::Protocol(ErrorDetails {
        err_msg,
        file: String::from_str(PROTOCOL_FILE),
        method: String::from_str(method),
    })
}

/// The unbuilt form of a request: the same variant with the same table name.
pub open spec fn unbuilt_request(r: Request) -> UnbuiltRequest {
    match r {
        Request::Ping => UnbuiltRequest::Ping,
        Request::GetEntireTable { table_name } => UnbuiltRequest::GetEntireTable { table_name },
    }
}

/// The unbuilt form of a reply's request: the same variant with the same table name.
pub open spec fn unbuilt_response(r: Request) -> UnbuiltResponse {
    match r {
        Request::Ping => UnbuiltResponse::Ping,
        Request::GetEntireTable { table_name } => UnbuiltResponse::GetEntireTable { table_name },
    }
}

/// The message that carries `payload` for `request` under `message_id`.
pub fn message_for(message_id: usize, request: Request, payload: Vec<u8>) -> (msg: Message)
    ensures
        msg.message_id == message_id,
        msg.request == request,
        msg.content.0@ == payload@,
{
    Message { message_id, request, content: Base64Bytes(payload) }
}

/// The reply that carries `payload` for `request` under `message_id`.
pub fn response_for(message_id: usize, request: Request, payload: Vec<u8>) -> (response: Response)
    ensures
        response.message_id == message_id,
        response.request == request,
        response.data.0@ == payload@,
{
    Response { message_id, request, data: Base64Bytes(payload) }
}

/// Takes a message apart into its unbuilt request, its id and its payload.
pub fn unbuild_message(msg: Message) -> (parts: (UnbuiltRequest, usize, Vec<u8>))
    ensures
        parts.0 == unbuilt_request(msg.request),
        msg.request is Ping ==> parts.0 is Ping,
        msg.request matches Request::GetEntireTable { table_name } ==> (parts.0 matches
            UnbuiltRequest::GetEntireTable { table_name: t } && t == table_name),
        parts.1 == msg.message_id,
        parts.2@ == msg.content.0@,
{
    let unbuilt = match msg.request {
        Request::Ping => UnbuiltRequest::Ping,
        Request::GetEntireTable { table_name } => UnbuiltRequest::GetEntireTable { table_name },
    };
    (unbuilt, msg.message_id, msg.content.0)
}

/// Takes a reply apart into its unbuilt request, its id and its payload.
pub fn unbuild_reply(response: Response) -> (parts: (UnbuiltResponse, usize, Vec<u8>))
    ensures
        parts.0 == unbuilt_response(response.request),
        response.request is Ping ==> parts.0 is Ping,
        response.request matches Request::GetEntireTable { table_name } ==> (parts.0 matches
            UnbuiltResponse::GetEntireTable { table_name: t } && t == table_name),
        parts.1 == response.message_id,
        parts.2@ == response.data.0@,
{
    let unbuilt = match response.request {
        Request::Ping => UnbuiltResponse::Ping,
        Request::GetEntireTable { table_name } => UnbuiltResponse::GetEntireTable { table_name },
    };
    (unbuilt, response.message_id, response.data.0)
}

/// Taking a message or a reply apart keeps what was asked for: a ping stays a
/// ping, a table request stays a request for the same table, and two different
/// requests never come out the same, on either side; the server and the client
/// read one request as the same kind with the same table name.
pub proof fn law_unbuilding_keeps_the_request(r1: Request, r2: Request, t: String)
    ensures
        unbuilt_request(Request::Ping) is Ping,
        unbuilt_response(Request::Ping) is Ping,
        unbuilt_request((Request::GetEntireTable { table_name: t })) == (UnbuiltRequest::GetEntireTable {
            table_name: t,
        }),
        unbuilt_response((Request::GetEntireTable { table_name: t })) == (UnbuiltResponse::GetEntireTable {
            table_name: t,
        }),
        unbuilt_request(r1) == unbuilt_request(r2) ==> r1 == r2,
        unbuilt_response(r1) == unbuilt_response(r2) ==> r1 == r2,
        (unbuilt_request(r1) is Ping) <==> (unbuilt_response(r1) is Ping),
{
}

} // verus!
