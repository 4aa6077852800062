//! The message of the first socket test: a request and its raw payload.
use vstd::prelude::*;

verus! {

pub struct Message {
    pub message_id: usize,
    pub request: Request,
    pub content: Vec<u8>,
}

pub enum Request {
    GetData,
    Insert,
}

} // verus!
