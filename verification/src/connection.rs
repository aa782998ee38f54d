//! Assembly of complete messages out of an arbitrarily chunked byte stream.
//!
//! A transport read may return fewer bytes than one message needs, more, or
//! bytes spanning several messages. The pending buffer absorbs that: bytes
//! read from the transport are fed into it, and a complete message is taken
//! from its front only once header and body have fully arrived. Partially
//! received messages stay buffered, never lost and never truncated.
//!
//! The owner of the transport runs the loop: feed every chunk the transport
//! delivers, and take messages as they become ready. A read of zero bytes
//! from the transport means the peer closed the connection; that condition
//! belongs to the transport's owner, not to the buffer.

use vstd::prelude::*;

verus! {

use vstd::bytes::{lemma_auto_spec_u32_to_from_le_bytes, spec_u32_from_le_bytes, spec_u32_to_le_bytes};

use crate::datapack::{spec_pack, DataPack, HEADER_SIZE};
use crate::request::Request;
use crate::response::Response;

/// The message id declared by the header at the front of `b`.
pub open spec fn spec_msg_id(b: Seq<u8>) -> u32
    recommends
        b.len() >= HEADER_SIZE,
{
    spec_u32_from_le_bytes(b.subrange(0, 4))
}

/// The payload length declared by the header at the front of `b`.
pub open spec fn spec_msg_len(b: Seq<u8>) -> u32
    recommends
        b.len() >= HEADER_SIZE,
{
    spec_u32_from_le_bytes(b.subrange(4, 8))
}

/// Whether `b` starts with a complete message: a full header has arrived and
/// at least as many payload bytes as the header declares.
pub open spec fn spec_msg_ready(b: Seq<u8>) -> bool {
    b.len() >= HEADER_SIZE && b.len() >= HEADER_SIZE + spec_msg_len(b)
}

/// The payload of the complete message at the front of `b`.
pub open spec fn spec_msg_data(b: Seq<u8>) -> Seq<u8>
    recommends
        spec_msg_ready(b),
{
    b.subrange(HEADER_SIZE as int, HEADER_SIZE + spec_msg_len(b))
}

/// The bytes left over after the complete message at the front of `b`.
pub open spec fn spec_msg_rest(b: Seq<u8>) -> Seq<u8>
    recommends
        spec_msg_ready(b),
{
    b.skip(HEADER_SIZE + spec_msg_len(b))
}

/// The bytes already read from a transport but not yet consumed as part of a
/// complete message. Bytes leave only from the front, and only as a whole
/// message; a connection owns exactly one of these, alongside its transport.
pub struct PendingBuffer {
    pending_data: Vec<u8>,
}

impl View for PendingBuffer {
    type V = Seq<u8>;

    closed spec fn view(&self) -> Seq<u8> {
        self.pending_data@
    }
}

impl PendingBuffer {
    /// A fresh buffer holding nothing.
    pub fn new() -> (buf: Self)
        ensures
            buf@ == Seq::<u8>::empty(),
    {
        PendingBuffer { pending_data: Vec::new() }
    }

    /// How many bytes are buffered.
    pub fn len(&self) -> (n: usize)
        ensures
            n == self@.len(),
    {
        self.pending_data.len()
    }

    /// Appends one chunk delivered by the transport, exactly as it arrived.
    pub fn feed(&mut self, chunk: &[u8])
        ensures
            final(self)@ == old(self)@ + chunk@,
    {
        let n = chunk.len();
        let mut i: usize = 0;
        while i < n
            invariant
                i <= n,
                n == chunk@.len(),
                self.pending_data@ == old(self).pending_data@ + chunk@.subrange(0, i as int),
            decreases n - i,
        {
            self.pending_data.push(chunk[i]);
            proof {
                assert(old(self).pending_data@ + chunk@.subrange(0, i as int) + seq![
                    chunk@[i as int],
                ] =~= old(self).pending_data@ + chunk@.subrange(0, i + 1));
            }
            i = i + 1;
        }
        proof {
            assert(old(self).pending_data@ + chunk@.subrange(0, n as int) =~= old(self)@
                + chunk@);
        }
    }

    /// Removes and returns exactly the first `size` buffered bytes.
    fn take_front(&mut self, size: usize) -> (out: Vec<u8>)
        requires
            size <= old(self)@.len(),
        ensures
            out@ == old(self)@.subrange(0, size as int),
            final(self)@ == old(self)@.skip(size as int),
    {
        let mut head = self.pending_data.split_off(size);
        core::mem::swap(&mut self.pending_data, &mut head);
        proof {
            assert(self.pending_data@ =~= old(self)@.skip(size as int));
        }
        head
    }

    /// Takes the complete message at the front of the buffer, if one is
    /// ready: its id, and its payload. Otherwise leaves the buffer untouched.
    fn try_read_message(&mut self) -> (r: Option<(u32, Vec<u8>)>)
        ensures
            spec_msg_ready(old(self)@) ==> (match r {
                Some(msg) => msg.0 == spec_msg_id(old(self)@) && msg.1@ == spec_msg_data(
                    old(self)@,
                ) && final(self)@ == spec_msg_rest(old(self)@),
                None => false,
            }),
            !spec_msg_ready(old(self)@) ==> r is None && final(self)@ == old(self)@,
    {
        if self.pending_data.len() < HEADER_SIZE {
            return None;
        }
        let (msg_id, data_len) = match DataPack::unpack_header(self.pending_data.as_slice()) {
            Ok(pair) => pair,
            Err(_) => {
                // Unreachable: at least a full header is buffered.
                return None;
            },
        };
        if self.pending_data.len() - HEADER_SIZE < data_len as usize {
            return None;
        }
        let header = self.take_front(HEADER_SIZE);
        let data = self.take_front(data_len as usize);
        proof {
            assert(data@ =~= spec_msg_data(old(self)@));
            assert(self.pending_data@ =~= spec_msg_rest(old(self)@));
        }
        Some((msg_id, data))
    }

    /// Takes the complete message at the front of the buffer as an inbound
    /// request, if one is ready. Otherwise leaves the buffer untouched: a
    /// partially received message waits for more transport chunks.
    pub fn try_read_request(&mut self) -> (r: Option<Request>)
        ensures
            spec_msg_ready(old(self)@) ==> (match r {
                Some(req) => req.spec_msg_id() == spec_msg_id(old(self)@) && req.spec_data()
                    == spec_msg_data(old(self)@) && final(self)@ == spec_msg_rest(old(self)@),
                None => false,
            }),
            !spec_msg_ready(old(self)@) ==> r is None && final(self)@ == old(self)@,
    {
        match self.try_read_message() {
            Some((msg_id, data)) => Some(Request::new(msg_id, data)),
            None => None,
        }
    }

    /// Takes the complete message at the front of the buffer as an outbound
    /// message read back from a peer, if one is ready. The client side of the
    /// same framing.
    pub fn try_read_response(&mut self) -> (r: Option<Response>)
        ensures
            spec_msg_ready(old(self)@) ==> (match r {
                Some(resp) => resp.spec_msg_id() == spec_msg_id(old(self)@) && resp.spec_data()
                    == spec_msg_data(old(self)@) && final(self)@ == spec_msg_rest(old(self)@),
                None => false,
            }),
            !spec_msg_ready(old(self)@) ==> r is None && final(self)@ == old(self)@,
    {
        match self.try_read_message() {
            Some((msg_id, data)) => Some(Response::new(msg_id, data)),
            None => None,
        }
    }
}

/// The bytes that writing a request puts on the wire: its header followed by
/// its payload. The transport's owner writes them whole, or fails.
pub fn encode_request(req: &Request) -> (bytes: Vec<u8>)
    ensures
        bytes@ == spec_pack(req.spec_msg_id(), req.spec_data()),
{
    proof {
        use_type_invariant(req);
    }
    DataPack::pack(req.msg_id(), req.data())
}

/// The bytes that writing a response puts on the wire: its header followed
/// by its payload. The transport's owner writes them whole, or fails.
pub fn encode_response(resp: &Response) -> (bytes: Vec<u8>)
    ensures
        bytes@ == spec_pack(resp.spec_msg_id(), resp.spec_data()),
{
    proof {
        use_type_invariant(resp);
    }
    DataPack::pack(resp.msg_id(), resp.data())
}

/// Law (partial delivery): however the transport chunked them, once the
/// buffered bytes equal one full encoding followed by anything else, a
/// complete message is ready, and it is exactly the message that was encoded,
/// with the following bytes left over.
pub proof fn lemma_buffered_message_extraction(msg_id: u32, data: Seq<u8>, rest: Seq<u8>)
    requires
        data.len() <= u32::MAX,
    ensures
        spec_msg_ready(spec_pack(msg_id, data) + rest),
        spec_msg_id(spec_pack(msg_id, data) + rest) == msg_id,
        spec_msg_len(spec_pack(msg_id, data) + rest) == data.len(),
        spec_msg_data(spec_pack(msg_id, data) + rest) == data,
        spec_msg_rest(spec_pack(msg_id, data) + rest) == rest,
{
    lemma_auto_spec_u32_to_from_le_bytes();
    let b = spec_pack(msg_id, data) + rest;
    assert(b.subrange(0, 4) =~= spec_u32_to_le_bytes(msg_id));
    assert(b.subrange(4, 8) =~= spec_u32_to_le_bytes(data.len() as u32));
    assert(b.subrange(HEADER_SIZE as int, HEADER_SIZE + data.len()) =~= data);
    assert(b.skip(HEADER_SIZE + data.len()) =~= rest);
}

/// Law (no premature message): no strict prefix of an encoding is ever taken
/// for a complete message, so a reader that waits for readiness never
/// truncates.
pub proof fn lemma_partial_encoding_not_ready(msg_id: u32, data: Seq<u8>, n: int)
    requires
        data.len() <= u32::MAX,
        0 <= n < spec_pack(msg_id, data).len(),
    ensures
        !spec_msg_ready(spec_pack(msg_id, data).take(n)),
{
    lemma_auto_spec_u32_to_from_le_bytes();
    let b = spec_pack(msg_id, data);
    if n >= HEADER_SIZE {
        assert(b.take(n).subrange(4, 8) =~= spec_u32_to_le_bytes(data.len() as u32));
    }
}

/// Law (pending-buffer carryover): when two encodings arrive back to back,
/// the first ready message is the first of the two, what stays buffered is
/// exactly the second encoding, and the next ready message is the second,
/// leaving nothing behind. No byte is lost or duplicated.
pub proof fn lemma_two_buffered_messages(id1: u32, data1: Seq<u8>, id2: u32, data2: Seq<u8>)
    requires
        data1.len() <= u32::MAX,
        data2.len() <= u32::MAX,
    ensures
        ({
            let b = spec_pack(id1, data1) + spec_pack(id2, data2);
            &&& spec_msg_ready(b)
            &&& spec_msg_id(b) == id1
            &&& spec_msg_data(b) == data1
            &&& spec_msg_rest(b) == spec_pack(id2, data2)
            &&& spec_msg_ready(spec_msg_rest(b))
            &&& spec_msg_id(spec_msg_rest(b)) == id2
            &&& spec_msg_data(spec_msg_rest(b)) == data2
            &&& spec_msg_rest(spec_msg_rest(b)) == Seq::<u8>::empty()
        }),
{
    lemma_buffered_message_extraction(id1, data1, spec_pack(id2, data2));
    lemma_buffered_message_extraction(id2, data2, Seq::<u8>::empty());
    assert(spec_pack(id2, data2) + Seq::<u8>::empty() =~= spec_pack(id2, data2));
}

} // verus!
