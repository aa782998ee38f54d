//! The outbound message envelope.

use vstd::prelude::*;

verus! {

/// The id that tags the reserved "no handler" response.
pub const NOT_FOUND_MSG_ID: u32 = 404;

/// The payload of the reserved "no handler" response: the bytes of
/// "Route not found".
pub open spec fn spec_not_found_data() -> Seq<u8> {
    seq![82u8, 111u8, 117u8, 116u8, 101u8, 32u8, 110u8, 111u8, 116u8, 32u8, 102u8, 111u8, 117u8, 110u8, 100u8]
}

/// A message to be sent back to a peer: a 32-bit id, by convention echoing or
/// transforming the id of the request it answers, and the payload bytes it
/// carries. Immutable once constructed.
#[derive(Debug)]
pub struct Response {
    msg_id: u32,
    data: Vec<u8>,
}

impl Response {
    /// The wire format declares a payload's length in a 32-bit field, so a
    /// payload never exceeds `u32::MAX` bytes.
    #[verifier::type_invariant]
    pub open spec fn payload_fits(self) -> bool {
        self.spec_data().len() <= u32::MAX
    }

    /// The message id of this response.
    pub closed spec fn spec_msg_id(self) -> u32 {
        self.msg_id
    }

    /// The payload bytes of this response.
    pub closed spec fn spec_data(self) -> Seq<u8> {
        self.data@
    }

    pub fn new(msg_id: u32, data: Vec<u8>) -> (resp: Self)
        requires
            data@.len() <= u32::MAX,
        ensures
            resp.spec_msg_id() == msg_id,
            resp.spec_data() == data@,
    {
        Response { msg_id, data }
    }

    /// The reserved response returned when no handler is registered for a
    /// request's message id.
    pub fn not_found() -> (resp: Self)
        ensures
            resp.spec_msg_id() == NOT_FOUND_MSG_ID,
            resp.spec_data() == spec_not_found_data(),
    {
        let mut data: Vec<u8> = Vec::new();
        data.push(82);
        data.push(111);
        data.push(117);
        data.push(116);
        data.push(101);
        data.push(32);
        data.push(110);
        data.push(111);
        data.push(116);
        data.push(32);
        data.push(102);
        data.push(111);
        data.push(117);
        data.push(110);
        data.push(100);
        proof {
            assert(data@ =~= spec_not_found_data());
        }
        Response::new(NOT_FOUND_MSG_ID, data)
    }

    pub fn msg_id(&self) -> (id: u32)
        ensures
            id == self.spec_msg_id(),
    {
        self.msg_id
    }

    pub fn data(&self) -> (d: &[u8])
        ensures
            d@ == self.spec_data(),
    {
        self.data.as_slice()
    }
}

} // verus!
