use zerust::connection::PendingBuffer;
use zerust::datapack::DataPack;

#[test]
fn one_byte_at_a_time_reconstructs_message() {
    let wire = DataPack::pack(9, b"partial");
    let mut buf = PendingBuffer::new();
    for i in 0..wire.len() {
        buf.feed(&wire[i..i + 1]);
        if i + 1 < wire.len() {
            assert!(buf.try_read_request().is_none());
        }
    }
    let req = buf.try_read_request().expect("message must be ready");
    assert_eq!(req.msg_id(), 9);
    assert_eq!(req.data(), b"partial");
    assert_eq!(buf.len(), 0);
}

#[test]
fn header_split_mid_field_reconstructs_message() {
    let wire = DataPack::pack(0xDEADBEEF, b"xyz");
    let mut buf = PendingBuffer::new();
    buf.feed(&wire[0..2]);
    assert!(buf.try_read_request().is_none());
    buf.feed(&wire[2..6]);
    assert!(buf.try_read_request().is_none());
    buf.feed(&wire[6..]);
    let req = buf.try_read_request().expect("message must be ready");
    assert_eq!(req.msg_id(), 0xDEADBEEF);
    assert_eq!(req.data(), b"xyz");
}

#[test]
fn two_messages_in_one_chunk_come_out_in_order() {
    let mut wire = DataPack::pack(1, b"first");
    wire.extend_from_slice(&DataPack::pack(2, b"second"));
    let mut buf = PendingBuffer::new();
    buf.feed(&wire);
    let a = buf.try_read_request().expect("first message must be ready");
    assert_eq!(a.msg_id(), 1);
    assert_eq!(a.data(), b"first");
    let b = buf.try_read_request().expect("second message must be ready");
    assert_eq!(b.msg_id(), 2);
    assert_eq!(b.data(), b"second");
    assert!(buf.try_read_request().is_none());
    assert_eq!(buf.len(), 0);
}

#[test]
fn zero_length_payload_is_valid() {
    let wire = DataPack::pack(5, b"");
    assert_eq!(wire.len(), 8);
    let mut buf = PendingBuffer::new();
    buf.feed(&wire);
    let req = buf.try_read_request().expect("empty-payload message must be ready");
    assert_eq!(req.msg_id(), 5);
    assert!(req.data().is_empty());
    assert_eq!(buf.len(), 0);
}

#[test]
fn response_reads_back_like_a_request() {
    let wire = DataPack::pack(3, b"pong");
    let mut buf = PendingBuffer::new();
    buf.feed(&wire[0..5]);
    assert!(buf.try_read_response().is_none());
    buf.feed(&wire[5..]);
    let resp = buf.try_read_response().expect("response must be ready");
    assert_eq!(resp.msg_id(), 3);
    assert_eq!(resp.data(), b"pong");
}

#[test]
fn unconsumed_bytes_stay_buffered() {
    let mut wire = DataPack::pack(1, b"whole");
    wire.extend_from_slice(&DataPack::pack(2, b"tail")[0..7]);
    let mut buf = PendingBuffer::new();
    buf.feed(&wire);
    let first = buf.try_read_request().expect("first message must be ready");
    assert_eq!(first.msg_id(), 1);
    assert_eq!(buf.len(), 7);
    assert!(buf.try_read_request().is_none());
    assert_eq!(buf.len(), 7);
}
