//! The messages of the database socket: a client's request and the server's
//! reply, each carrying a bincode payload that travels as base64 inside JSON.
use vstd::prelude::*;
use base64::Engine;
use vstd::string::StringExecFns;
use crate::data_structures::GetDataOut;
use crate::db_error::DbError;

verus! {

/// Bytes that travel as a base64 string inside JSON.
#[derive(Debug, Clone, PartialEq, Eq)]
pub struct Base64Bytes(pub Vec<u8>);

/// A client's request: which operation, with its bincode payload.
#[derive(Debug, Clone, PartialEq, Eq)]
pub struct Message {
    pub message_id: usize,
    pub request: Request,
    /// bincode-serialized payload, base64-encoded in JSON
    pub content: Base64Bytes,
}

/// The server's reply to the message with the same id.
#[derive(Debug, PartialEq, Eq)]
pub struct Response {
    pub message_id: usize,
    pub request: Request,
    pub result: Result<Base64Bytes, DbError>,
}

/// The operations that a client can ask the database server for.
#[derive(Debug, Clone, Copy, PartialEq, Eq, Structural)]
pub enum Request {
    CreateTable,
    ListTables,
    GetData,
    GetDataOrdered,
    InsertData,
    DropTable,
    EditColInRow,
    CheckTable,
    DeleteRow,
    SwapColumns,
    CreateIndex,
    CheckIndex,
    AddColumn,
    RemoveColumn,
    ExportDatabase,
    ExportTables,
    CreateTableFromExport,
    CopyTable,
}

/// The reply to a request that the server does not handle.
pub fn i_dont_want_to(message_id: usize, request: Request) -> (response: Response)
    ensures
        response.message_id == message_id,
        response.request == request,
        response.result matches Err(DbError::BadCode(m)) && m@ == "server does not handle this request"@,
{
    Response {
        message_id,
        request,
        result: Err(DbError::BadCode(String::from_str("server does not handle this request"))),
    }
}

/// The base64 text (standard alphabet, with padding) of some bytes.
pub uninterp spec fn base64_standard_encode(bytes: Seq<u8>) -> Seq<char>;

/// The bytes that a base64 text (standard alphabet, canonical padding) stands
/// for, or `None` when it is not such a text.
pub uninterp spec fn base64_standard_decode(text: Seq<char>) -> Option<Seq<u8>>;

#[verifier::external_type_specification]
#[verifier::external_body]
pub struct ExDecodeError(base64::DecodeError);

/// Calls `base64::engine::general_purpose::STANDARD.encode`. Its result is a
/// function of the bytes alone, named `base64_standard_encode`. The call panics
/// when the length of the text would overflow `usize`, which `requires` rules out.
#[verifier::external_body]
fn encode_standard(bytes: &[u8]) -> (text: String)
    requires
        (bytes@.len() + 2) / 3 * 4 <= usize::MAX,
    ensures
        text@ == base64_standard_encode(bytes@),
{
    base64::engine::general_purpose::STANDARD.encode(bytes)
}

/// Calls `base64::engine::general_purpose::STANDARD.decode`. It succeeds exactly
/// when `base64_standard_decode` gives bytes, and then returns those bytes;
/// which error it reports otherwise is left unsaid. A text that
/// `STANDARD.encode` wrote for some bytes decodes to those very bytes.
#[verifier::external_body]
fn decode_standard(text: &str) -> (bytes: Result<Vec<u8>, base64::DecodeError>)
    ensures
        bytes is Ok <==> base64_standard_decode(text@) is Some,
        bytes matches Ok(v) ==> v@ == base64_standard_decode(text@)->0,
        bytes is Err ==> forall|b: Seq<u8>| #[trigger] base64_standard_encode(b) != text@,
        bytes matches Ok(v) ==> forall|b: Seq<u8>| #[trigger] base64_standard_encode(b) == text@ ==> v@ == b,
{
    base64::engine::general_purpose::STANDARD.decode(text)
}

impl Base64Bytes {
    /// The base64 text that stands for these bytes in JSON.
    pub fn to_base64(&self) -> (text: String)
        requires
            (self.0@.len() + 2) / 3 * 4 <= usize::MAX,
        ensures
            text@ == base64_standard_encode(self.0@),
    {
        encode_standard(self.0.as_slice())
    }

    /// The bytes that a base64 text from JSON stands for. Decoding the text
    /// that `to_base64` gave for some bytes gives those bytes back.
    pub fn from_base64(text: &str) -> (bytes: Result<Base64Bytes, base64::DecodeError>)
        ensures
            bytes is Ok <==> base64_standard_decode(text@) is Some,
            bytes matches Ok(b) ==> b.0@ == base64_standard_decode(text@)->0,
            forall|b: Seq<u8>| #[trigger] base64_standard_encode(b) == text@
                ==> (bytes matches Ok(x) && x.0@ == b),
    {
        match decode_standard(text) {
            Ok(v) => Ok(Base64Bytes(v)),
            Err(e) => Err(e),
        }
    }
}

/// Calls `bincode::serialize` on `Ok(())`. With bincode's default options an
/// enum variant is written as its index, a little-endian `u32`, followed by its
/// fields; `Ok` is variant 0 and `()` adds nothing, and writing into a `Vec`
/// with no size limit cannot fail, so the error arm is never taken.
#[verifier::external_body]
fn bincode_ok_unit() -> (bytes: Vec<u8>)
    ensures
        bytes@ == seq![0u8, 0u8, 0u8, 0u8],
{
    match bincode::serialize(&Ok::<(), String>(())) {
        Ok(v) => v,
        Err(_) => Vec::new(),
    }
}

/// The bincode payload of a successful operation that returns nothing.
pub fn ok_serialized() -> (bytes: Vec<u8>)
    ensures
        bytes@ == seq![0u8, 0u8, 0u8, 0u8],
{
    bincode_ok_unit()
}

/// The reply that carries `data` as the result of the request.
pub fn craft_response(data: Vec<u8>, message_id: usize, request: Request) -> (response: Response)
    ensures
        response.message_id == message_id,
        response.request == request,
        response.result matches Ok(b) && b.0@ == data@,
{
    Response { message_id, request, result: Ok(Base64Bytes(data)) }
}

/// The JSON text sent in place of a reply that could not be serialized.
pub open spec fn serialization_error_json(err: Seq<char>) -> Seq<char> {
    "{\"error\":\"failed to serialize response: "@ + err + "\"}"@
}

pub fn serialization_error_as_jsonstr(err: String) -> (json: String)
    ensures
        json@ == serialization_error_json(err@),
{
    let mut json = String::from_str("{\"error\":\"failed to serialize response: ");
    json.append(err.as_str());
    json.append("\"}");
    assert(json@ =~= serialization_error_json(err@));
    json
}

/// The text to send for a reply: its JSON, or the error JSON when serializing failed.
pub fn prepared_response(serialized: Result<String, String>) -> (text: String)
    ensures
        serialized matches Ok(s) ==> text == s,
        serialized matches Err(e) ==> text@ == serialization_error_json(e@),
{
    match serialized {
        Ok(s) => s,
        Err(e) => serialization_error_as_jsonstr(e),
    }
}

/// Why a reply could not be used.
#[derive(Debug)]
pub enum ReceiveError {
    DbErr(DbError),
    UnexpectedResponse,
    OtherErr(String),
}

/// A reply that the client expects, with its decoded payload.
pub enum ExpectedResponse {
    GetData(GetDataOut),
}

/// The outcome of reading a GetData payload, given what its decoder returned.
pub open spec fn get_data_outcome(
    decoded: Result<GetDataOut, DbError>,
    outcome: Result<GetDataOut, ReceiveError>,
) -> bool {
    match decoded {
        Ok(out) => outcome == Ok::<GetDataOut, ReceiveError>(out),
        Err(e) => outcome == Err::<GetDataOut, ReceiveError>(ReceiveError::DbErr(e)),
    }
}

/// Decodes the payload of a GetData reply with `decode_get_data_out`; a
/// decoding error is reported as a database error.
pub fn get_data<F: Fn(&Vec<u8>) -> Result<GetDataOut, DbError>>(
    base64: Base64Bytes,
    decode_get_data_out: F,
) -> (out: Result<GetDataOut, ReceiveError>)
    requires
        decode_get_data_out.requires((&base64.0,)),
    ensures
        exists|decoded: Result<GetDataOut, DbError>|
            decode_get_data_out.ensures((&base64.0,), decoded) && get_data_outcome(decoded, out),
{
    let vecu8 = base64.0;
    let decoded = decode_get_data_out(&vecu8);
    let out = match decoded {
        Ok(get_data_out) => Ok(get_data_out),
        Err(err) => Err(ReceiveError::DbErr(err)),
    };
    assert(get_data_outcome(decoded, out));
    out
}

/// What the client makes of a reply, given what the decoder returned for its payload.
pub open spec fn receive_outcome(
    response: Response,
    decoded: Result<GetDataOut, DbError>,
    outcome: Result<(ExpectedResponse, usize), ReceiveError>,
) -> bool {
    match decoded {
        Ok(out) => outcome == Ok::<(ExpectedResponse, usize), ReceiveError>(
            (ExpectedResponse::GetData(out), response.message_id),
        ),
        Err(e) => outcome == Err::<(ExpectedResponse, usize), ReceiveError>(ReceiveError::DbErr(e)),
    }
}

/// Reads a reply: only GetData replies are expected; an error that the server
/// reported is passed on, and a GetData payload is decoded with `decode_get_data_out`.
pub fn receive_response<F: Fn(&Vec<u8>) -> Result<GetDataOut, DbError>>(
    response: Response,
    decode_get_data_out: F,
) -> (outcome: Result<(ExpectedResponse, usize), ReceiveError>)
    requires
        forall|bytes: &Vec<u8>| decode_get_data_out.requires((bytes,)),
    ensures
        response.request != Request::GetData ==> outcome == Err::<(ExpectedResponse, usize), ReceiveError>(
            ReceiveError::UnexpectedResponse,
        ),
        response.request == Request::GetData ==> match response.result {
            Err(e) => outcome == Err::<(ExpectedResponse, usize), ReceiveError>(ReceiveError::DbErr(e)),
            Ok(b) => exists|decoded: Result<GetDataOut, DbError>|
                decode_get_data_out.ensures((&b.0,), decoded) && receive_outcome(response, decoded, outcome),
        },
{
    let message_id = response.message_id;
    match response.request {
        Request::GetData => {
            let data = match response.result {
                Ok(data) => data,
                Err(e) => {
                    return Err(ReceiveError::DbErr(e));
                },
            };
            let ghost bytes = data.0;
            let got = get_data(data, decode_get_data_out);
            let ghost decoded = choose|d: Result<GetDataOut, DbError>|
                decode_get_data_out.ensures((&bytes,), d) && get_data_outcome(d, got);
            let outcome = match got {
                Ok(something) => Ok((ExpectedResponse::GetData(something), message_id)),
                Err(e) => Err(e),
            };
            assert(receive_outcome(response, decoded, outcome));
            outcome
        },
        _ => Err(ReceiveError::UnexpectedResponse),
    }
}

} // verus!
