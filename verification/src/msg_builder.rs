//! Building a GetData request and taking apart its reply, for the mobile client.
use vstd::prelude::*;
use crate::data_structures::GetDataOut;
use crate::db_error::DbError;
use crate::message_struct::{Base64Bytes, Message, Request, Response};

verus! {

/// A GetData reply, taken apart.
#[derive(Debug)]
pub struct GetDataOutUnbuilt {
    pub message_id: u64,
    pub request: Request,
    pub get_data_out: GetDataOut,
}

/// The GetData message that carries the bincode payload `payload` under `message_id`.
pub fn get_data_in_message(message_id: u64, payload: Vec<u8>) -> (msg: Message)
    ensures
        msg.message_id == message_id as usize,
        msg.request == Request::GetData,
        msg.content.0@ == payload@,
{
    Message { message_id: message_id as usize, request: Request::GetData, content: Base64Bytes(payload) }
}

/// What taking a reply apart gives, given what the decoder returned for its payload.
pub open spec fn unbuilt_outcome(
    response: Response,
    decoded: Result<GetDataOut, DbError>,
    outcome: Result<GetDataOutUnbuilt, DbError>,
) -> bool {
    match decoded {
        Ok(out) => outcome == Ok::<GetDataOutUnbuilt, DbError>(
            GetDataOutUnbuilt {
                message_id: response.message_id as u64,
                request: response.request,
                get_data_out: out,
            },
        ),
        Err(e) => outcome == Err::<GetDataOutUnbuilt, DbError>(e),
    }
}

/// Takes a GetData reply apart: an error that the server reported is passed
/// on; otherwise the payload is decoded with `decode_get_data_out`.
pub fn unbuild_get_data_out<F: Fn(&Vec<u8>) -> Result<GetDataOut, DbError>>(
    response: Response,
    decode_get_data_out: F,
) -> (outcome: Result<GetDataOutUnbuilt, DbError>)
    requires
        forall|bytes: &Vec<u8>| decode_get_data_out.requires((bytes,)),
    ensures
        match response.result {
            Err(e) => outcome == Err::<GetDataOutUnbuilt, DbError>(e),
            Ok(b) => exists|decoded: Result<GetDataOut, DbError>|
                decode_get_data_out.ensures((&b.0,), decoded) && unbuilt_outcome(response, decoded, outcome),
        },
{
    let message_id = response.message_id;
    let request = response.request;
    let data = match response.result {
        Ok(data) => data,
        Err(e) => {
            return Err(e);
        },
    };
    let decoded = decode_get_data_out(&data.0);
    let outcome = match decoded {
        Ok(get_data_out) => Ok(GetDataOutUnbuilt { message_id: message_id as u64, request, get_data_out }),
        Err(e) => Err(e),
    };
    assert(unbuilt_outcome(response, decoded, outcome));
    outcome
}

/// Whether the server handles a request; it answers every other request with a refusal.
pub fn handled_by_server(request: Request) -> (handled: bool)
    ensures
        handled == (request == Request::GetData),
{
    match request {
        Request::GetData => true,
        _ => false,
    }
}

} // verus!
