use std::sync::Arc;

use zerust::connection::{encode_request, PendingBuffer};
use zerust::datapack::DataPack;
use zerust::{dispatch_pending, DefaultRouter, EchoHandler, Request, Server};

#[test]
fn echo_round_trip_over_chunked_delivery() {
    let mut router = DefaultRouter::new();
    router.add_route(1, EchoHandler);
    let server = Server::new("127.0.0.1:0", Arc::new(router));
    assert_eq!(server.addr(), "127.0.0.1:0");

    // What the client puts on the wire.
    let wire = encode_request(&Request::new(1, b"hello".to_vec()));
    assert_eq!(wire, DataPack::pack(1, b"hello"));

    // The server-side unit sees it in two arbitrary chunks.
    let mut server_buf = PendingBuffer::new();
    server_buf.feed(&wire[0..4]);
    assert!(dispatch_pending(server.router().as_ref(), &mut server_buf).is_none());
    server_buf.feed(&wire[4..]);
    let reply = dispatch_pending(server.router().as_ref(), &mut server_buf)
        .expect("a complete request must produce a reply");
    assert_eq!(reply, DataPack::pack(1, b"hello"));
    assert_eq!(server_buf.len(), 0);

    // The client reads the reply back: exactly what it sent.
    let mut client_buf = PendingBuffer::new();
    client_buf.feed(&reply);
    let resp = client_buf.try_read_response().expect("reply must be ready");
    assert_eq!(resp.msg_id(), 1);
    assert_eq!(resp.data(), b"hello");
}

#[test]
fn one_stalled_connection_leaves_another_untouched() {
    let mut router = DefaultRouter::new();
    router.add_route(1, EchoHandler);
    let router = Arc::new(router);

    // Two execution units, each owning its own pending buffer.
    let mut conn_a = PendingBuffer::new();
    let mut conn_b = PendingBuffer::new();

    // Unit A's peer sends part of a message, then goes away; the unit
    // terminates, taking its buffer with it.
    conn_a.feed(&DataPack::pack(1, b"a")[0..3]);
    assert!(dispatch_pending(router.as_ref(), &mut conn_a).is_none());
    drop(conn_a);

    // Unit B keeps serving unharmed.
    let wire = DataPack::pack(1, b"still alive");
    conn_b.feed(&wire);
    let reply = dispatch_pending(router.as_ref(), &mut conn_b)
        .expect("the other connection keeps working");
    assert_eq!(reply, DataPack::pack(1, b"still alive"));
}
