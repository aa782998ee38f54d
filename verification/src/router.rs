//! The routing table: a concurrent mapping from message id to handler.
//!
//! Entries are registered before traffic begins or alongside traffic from
//! other connections; none is ever removed, and at most one handler is
//! associated with an id at any instant — a later registration for the same
//! id replaces the earlier one. A dispatch for an id with no handler is not
//! an error: it is answered with the reserved not-found response.

use vstd::prelude::*;

verus! {

use dashmap::DashMap;

use crate::request::Request;
use crate::response::{spec_not_found_data, Response, NOT_FOUND_MSG_ID};

/// Caller-supplied logic invoked with an inbound message to produce an
/// outbound one. The spec function names the answer so that dispatching can
/// promise exactly which response comes back.
pub trait Handler: Sized {
    /// The (id, payload) of the message this handler answers a request
    /// carrying `msg_id` and `data` with.
    spec fn response_to(&self, msg_id: u32, data: Seq<u8>) -> (u32, Seq<u8>);

    fn handle(&self, req: &Request) -> (resp: Response)
        ensures
            (resp.spec_msg_id(), resp.spec_data()) == self.response_to(
                req.spec_msg_id(),
                req.spec_data(),
            ),
    ;
}

/// Anything that turns an inbound request into an outbound response. The
/// server consults one router, shared by every connection.
pub trait Router: Sized {
    /// Validity of the router's internal state; constructors establish it
    /// and every operation preserves it.
    spec fn wf(&self) -> bool;

    /// The (id, payload) of the response to a request carrying `msg_id` and
    /// `data`.
    spec fn dispatch_result(&self, msg_id: u32, data: Seq<u8>) -> (u32, Seq<u8>);

    fn handle(&self, req: &Request) -> (resp: Response)
        requires
            self.wf(),
        ensures
            (resp.spec_msg_id(), resp.spec_data()) == self.dispatch_result(
                req.spec_msg_id(),
                req.spec_data(),
            ),
    ;
}

/// A handler that answers every request with its own id and payload: the
/// canonical example handler for an echo service.
pub struct EchoHandler;

impl Handler for EchoHandler {
    open spec fn response_to(&self, msg_id: u32, data: Seq<u8>) -> (u32, Seq<u8>) {
        (msg_id, data)
    }

    fn handle(&self, req: &Request) -> (resp: Response) {
        proof {
            use_type_invariant(req);
        }
        Response::new(req.msg_id(), vstd::slice::slice_to_vec(req.data()))
    }
}

/// A handler that answers every request with the request's id and one fixed
/// payload, whatever the request carried: the second example handler, for
/// banners and liveness probes.
pub struct FixedReplyHandler {
    payload: Vec<u8>,
}

impl FixedReplyHandler {
    /// The payload travels in a wire message, so it must fit the 32-bit
    /// length field.
    #[verifier::type_invariant]
    pub open spec fn payload_fits(self) -> bool {
        self.spec_payload().len() <= u32::MAX
    }

    /// The fixed payload this handler answers with.
    pub closed spec fn spec_payload(self) -> Seq<u8> {
        self.payload@
    }

    pub fn new(payload: Vec<u8>) -> (h: Self)
        requires
            payload@.len() <= u32::MAX,
        ensures
            h.spec_payload() == payload@,
    {
        FixedReplyHandler { payload }
    }
}

impl Handler for FixedReplyHandler {
    open spec fn response_to(&self, msg_id: u32, data: Seq<u8>) -> (u32, Seq<u8>) {
        (msg_id, self.spec_payload())
    }

    fn handle(&self, req: &Request) -> (resp: Response) {
        proof {
            use_type_invariant(self);
        }
        Response::new(req.msg_id(), vstd::slice::slice_to_vec(self.payload.as_slice()))
    }
}

#[verifier::external_type_specification]
#[verifier::external_body]
#[verifier::reject_recursive_types(K)]
#[verifier::reject_recursive_types(V)]
#[verifier::reject_recursive_types(S)]
pub struct ExDashMap<K, V, S>(DashMap<K, V, S>);

/// The concurrent map at the core of a routing table: message id to the
/// slot of the handler registered last for that id.
pub type RouteMap = DashMap<u32, usize>;

/// The entries that a shared route map holds: for each registered message
/// id, the slot of its handler.
pub uninterp spec fn spec_route_entries(m: RouteMap) -> Map<u32, usize>;

/// What a route map holds before any registration: nothing.
pub open spec fn spec_no_route_entries() -> Map<u32, usize> {
    Map::empty()
}

/// Relies on dashmap::DashMap::new: the map it creates holds no entries.
#[verifier::external_body]
fn routes_new() -> (m: RouteMap)
    ensures
        spec_route_entries(m) == spec_no_route_entries(),
{
    DashMap::new()
}

/// Relies on dashmap::DashMap::insert: it maps `key` to `value`, replacing
/// the entry an earlier registration put there, and touches no other entry.
#[verifier::external_body]
fn routes_insert(m: &mut RouteMap, key: u32, value: usize)
    ensures
        spec_route_entries(*final(m)) == spec_route_entries(*old(m)).insert(key, value),
{
    m.insert(key, value);
}

/// Relies on dashmap::DashMap::get: it returns the value the map holds for
/// `key`, or nothing when no entry with that key exists.
#[verifier::external_body]
fn routes_get(m: &RouteMap, key: u32) -> (r: Option<usize>)
    ensures
        r == (if spec_route_entries(*m).dom().contains(key) {
            Some(spec_route_entries(*m)[key])
        } else {
            None::<usize>
        }),
{
    match m.get(&key) {
        Some(entry) => Some(*entry),
        None => None,
    }
}

/// The default routing table: handler slots, and a concurrent map from
/// message id to the slot of the handler registered last for that id.
pub struct DefaultRouter<H: Handler> {
    routes: RouteMap,
    handlers: Vec<H>,
}

impl<H: Handler> DefaultRouter<H> {
    /// The handler registered for each message id.
    pub closed spec fn spec_routes(&self) -> Map<u32, H> {
        spec_route_entries(self.routes).map_values(|slot: usize| self.handlers@[slot as int])
    }

    /// A routing table with no handler registered.
    pub fn new() -> (router: Self)
        ensures
            router.wf(),
            router.spec_routes() == Map::<u32, H>::empty(),
    {
        let router = DefaultRouter { routes: routes_new(), handlers: Vec::new() };
        proof {
            assert(router.spec_routes() =~= Map::<u32, H>::empty());
        }
        router
    }

    /// Registers `handler` for `msg_id`, replacing whatever handler an
    /// earlier registration associated with that id: the last writer wins,
    /// and no other id's entry changes.
    pub fn add_route(&mut self, msg_id: u32, handler: H)
        requires
            old(self).wf(),
        ensures
            final(self).wf(),
            final(self).spec_routes() == old(self).spec_routes().insert(msg_id, handler),
    {
        let slot = self.handlers.len();
        self.handlers.push(handler);
        routes_insert(&mut self.routes, msg_id, slot);
        proof {
            assert(self.spec_routes() =~= old(self).spec_routes().insert(msg_id, handler));
        }
    }
}

impl<H: Handler> Default for DefaultRouter<H> {
    /// Same as an empty routing table from `new`.
    fn default() -> (router: Self)
        ensures
            router.wf(),
            router.spec_routes() == Map::<u32, H>::empty(),
    {
        DefaultRouter::new()
    }
}

impl<H: Handler> Router for DefaultRouter<H> {
    closed spec fn wf(&self) -> bool {
        forall|id: u32| #[trigger]
            spec_route_entries(self.routes).dom().contains(id) ==> spec_route_entries(
                self.routes,
            )[id] < self.handlers@.len()
    }

    /// Dispatching asks the handler registered for the request's id, and
    /// answers with the reserved not-found response when there is none.
    open spec fn dispatch_result(&self, msg_id: u32, data: Seq<u8>) -> (u32, Seq<u8>) {
        if self.spec_routes().dom().contains(msg_id) {
            self.spec_routes()[msg_id].response_to(msg_id, data)
        } else {
            (NOT_FOUND_MSG_ID, spec_not_found_data())
        }
    }

    fn handle(&self, req: &Request) -> (resp: Response) {
        match routes_get(&self.routes, req.msg_id()) {
            Some(slot) => {
                proof {
                    assert(self.spec_routes()[req.spec_msg_id()] == self.handlers@[slot as int]);
                }
                self.handlers[slot].handle(req)
            },
            None => Response::not_found(),
        }
    }
}

} // verus!
