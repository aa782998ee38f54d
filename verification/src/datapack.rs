//! The wire codec.
//!
//! Every message on the wire is `header || payload`, where the header is
//! 8 bytes: the 32-bit message id followed by the 32-bit payload length, both
//! little-endian. There is no magic number, version byte or checksum, and
//! requests and responses share the same framing.

use vstd::prelude::*;

verus! {

use vstd::bytes::{
    lemma_auto_spec_u32_to_from_le_bytes, spec_u32_from_le_bytes, spec_u32_to_le_bytes,
    u32_from_le_bytes, u32_to_le_bytes,
};

use crate::error::ZerustError;

/// The number of bytes in a wire header: a 4-byte message id followed by a
/// 4-byte payload length.
pub const HEADER_SIZE: usize = 8;

/// The 8 header bytes for a message with the given id and payload length.
pub open spec fn spec_header(msg_id: u32, data_len: u32) -> Seq<u8> {
    spec_u32_to_le_bytes(msg_id) + spec_u32_to_le_bytes(data_len)
}

/// The full wire encoding of a message: its header followed by its payload.
pub open spec fn spec_pack(msg_id: u32, data: Seq<u8>) -> Seq<u8>
    recommends
        data.len() <= u32::MAX,
{
    spec_header(msg_id, data.len() as u32) + data
}

/// Packing and unpacking of the fixed binary framing.
pub struct DataPack;

impl DataPack {
    /// Encodes a message id and payload into the bytes that go on the wire.
    ///
    /// Payloads longer than the 32-bit length field can declare are out of
    /// scope for the wire format.
    pub fn pack(msg_id: u32, data: &[u8]) -> (buf: Vec<u8>)
        requires
            data@.len() <= u32::MAX,
        ensures
            buf@ == spec_pack(msg_id, data@),
    {
        let mut buf = u32_to_le_bytes(msg_id);
        let mut len_bytes = u32_to_le_bytes(data.len() as u32);
        buf.append(&mut len_bytes);
        let ghost header = buf@;
        let mut i: usize = 0;
        while i < data.len()
            invariant
                i <= data@.len(),
                buf@ == header + data@.subrange(0, i as int),
                header == spec_header(msg_id, data@.len() as u32),
            decreases data@.len() - i,
        {
            buf.push(data[i]);
            proof {
                assert(header + data@.subrange(0, i as int) + seq![data@[i as int]] =~= header
                    + data@.subrange(0, i + 1));
            }
            i = i + 1;
        }
        proof {
            assert(buf@ =~= spec_pack(msg_id, data@));
        }
        buf
    }

    /// Decodes the message id and payload length from the front of a header.
    ///
    /// Succeeds for every slice holding at least `HEADER_SIZE` bytes; with
    /// fewer bytes no header can exist and `InvalidHeader` comes back.
    pub fn unpack_header(header: &[u8]) -> (r: Result<(u32, u32), ZerustError>)
        ensures
            header@.len() >= HEADER_SIZE ==> r == Ok::<(u32, u32), ZerustError>(
                (
                    spec_u32_from_le_bytes(header@.subrange(0, 4)),
                    spec_u32_from_le_bytes(header@.subrange(4, 8)),
                ),
            ),
            header@.len() < HEADER_SIZE ==> r == Err::<(u32, u32), ZerustError>(
                ZerustError::InvalidHeader,
            ),
    {
        if header.len() < HEADER_SIZE {
            return Err(ZerustError::InvalidHeader);
        }
        let msg_id = u32_from_le_bytes(&header[0..4]);
        let data_len = u32_from_le_bytes(&header[4..8]);
        Ok((msg_id, data_len))
    }
}

/// Law: decoding recovers what was encoded. For every id and payload, the
/// encoding is the 8-byte header followed by the payload, the two header
/// fields decode back to the id and the payload length, and the bytes after
/// the header are exactly the payload.
pub proof fn lemma_pack_round_trip(msg_id: u32, data: Seq<u8>)
    requires
        data.len() <= u32::MAX,
    ensures
        spec_pack(msg_id, data).len() == HEADER_SIZE + data.len(),
        spec_u32_from_le_bytes(spec_pack(msg_id, data).subrange(0, 4)) == msg_id,
        spec_u32_from_le_bytes(spec_pack(msg_id, data).subrange(4, 8)) == data.len() as u32,
        spec_pack(msg_id, data).skip(HEADER_SIZE as int) == data,
{
    lemma_auto_spec_u32_to_from_le_bytes();
    let packed = spec_pack(msg_id, data);
    assert(packed.subrange(0, 4) =~= spec_u32_to_le_bytes(msg_id));
    assert(packed.subrange(4, 8) =~= spec_u32_to_le_bytes(data.len() as u32));
    assert(packed.skip(HEADER_SIZE as int) =~= data);
}

} // verus!
