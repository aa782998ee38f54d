//! The inbound message envelope.

use vstd::prelude::*;

verus! {

/// A message received from a peer: a 32-bit id that routes it to a handler,
/// and the payload bytes it carries. Immutable once constructed.
#[derive(Debug)]
pub struct Request {
    msg_id: u32,
    data: Vec<u8>,
}

impl Request {
    /// The wire format declares a payload's length in a 32-bit field, so a
    /// payload never exceeds `u32::MAX` bytes.
    #[verifier::type_invariant]
    pub open spec fn payload_fits(self) -> bool {
        self.spec_data().len() <= u32::MAX
    }

    /// The message id of this request.
    pub closed spec fn spec_msg_id(self) -> u32 {
        self.msg_id
    }

    /// The payload bytes of this request.
    pub closed spec fn spec_data(self) -> Seq<u8> {
        self.data@
    }

    pub fn new(msg_id: u32, data: Vec<u8>) -> (req: Self)
        requires
            data@.len() <= u32::MAX,
        ensures
            req.spec_msg_id() == msg_id,
            req.spec_data() == data@,
    {
        Request { msg_id, data }
    }

    pub fn msg_id(&self) -> (id: u32)
        ensures
            id == self.spec_msg_id(),
    {
        self.msg_id
    }

    pub fn data(&self) -> (d: &[u8])
        ensures
            d@ == self.spec_data(),
    {
        self.data.as_slice()
    }
}

} // verus!
