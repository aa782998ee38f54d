//! The server: a bound listening address, a shared routing table, and the
//! per-connection dispatch step.
//!
//! The server itself keeps no per-connection state: it accepts transport
//! connections and delegates each to an independent execution unit that owns
//! one transport stream and one pending buffer. That unit loops: feed the
//! buffer with whatever chunk the transport delivered, then, for every
//! message that became ready, dispatch it and write the encoded response
//! back. `dispatch_pending` is one turn of that loop; binding, accepting and
//! the transport reads and writes live with the owner of the sockets.

use vstd::prelude::*;

verus! {

use std::sync::Arc;

use crate::connection::{
    encode_response, spec_msg_data, spec_msg_id, spec_msg_ready, spec_msg_rest, PendingBuffer,
};
use crate::datapack::spec_pack;
use crate::router::Router;

/// A server: the address it listens on and the routing table it shares with
/// every connection. Connections themselves are owned by the execution units
/// that serve them, never by the server.
pub struct Server<R: Router> {
    addr: String,
    router: Arc<R>,
}

impl<R: Router> Server<R> {
    /// The address the server listens on.
    pub closed spec fn spec_addr(&self) -> Seq<char> {
        self.addr@
    }

    /// The routing table every connection shares.
    pub closed spec fn spec_router(&self) -> Arc<R> {
        self.router
    }

    pub fn new(addr: &str, router: Arc<R>) -> (server: Self)
        ensures
            server.spec_addr() == addr@,
            server.spec_router() == router,
    {
        Server { addr: addr.to_owned(), router }
    }

    pub fn addr(&self) -> (a: &str)
        ensures
            a@ == self.spec_addr(),
    {
        self.addr.as_str()
    }

    pub fn router(&self) -> (r: &Arc<R>)
        ensures
            *r == self.spec_router(),
    {
        &self.router
    }
}

/// One turn of a connection's read-dispatch-write loop, after the transport
/// chunks have been fed into the pending buffer.
///
/// When a complete message is ready at the front of the buffer, it is
/// consumed, dispatched through the routing table, and the encoded bytes of
/// the response come back, ready to be written to the transport whole. With
/// no complete message buffered, nothing changes: the connection must read
/// more transport chunks first.
pub fn dispatch_pending<R: Router>(router: &R, buf: &mut PendingBuffer) -> (out: Option<Vec<u8>>)
    requires
        router.wf(),
    ensures
        spec_msg_ready(old(buf)@) ==> (match out {
            Some(bytes) => final(buf)@ == spec_msg_rest(old(buf)@) && bytes@ == spec_pack(
                router.dispatch_result(spec_msg_id(old(buf)@), spec_msg_data(old(buf)@)).0,
                router.dispatch_result(spec_msg_id(old(buf)@), spec_msg_data(old(buf)@)).1,
            ),
            None => false,
        }),
        !spec_msg_ready(old(buf)@) ==> out is None && final(buf)@ == old(buf)@,
{
    match buf.try_read_request() {
        Some(req) => {
            let resp = router.handle(&req);
            Some(encode_response(&resp))
        },
        None => None,
    }
}

} // verus!
