//! Request identifiers, the registry of requests that await their response,
//! and the framing of a request.

use crate::clock::{duration_from_nanos, duration_nanos};
use crate::json;
use crate::json::{json_text, json_tree, JsonNumber, JsonTree};
use serde_json::Value;
use std::collections::HashMap;
use std::time::Duration;
use vstd::prelude::*;

verus! {

broadcast use vstd::std_specs::hash::group_hash_axioms;

/// Source of request identifiers: each one is larger than every one before it.
pub struct IdGenerator {
    counter: u64,
}

impl IdGenerator {
    /// The identifier most recently handed out, or the initial value.
    pub closed spec fn last(&self) -> u64 {
        self.counter
    }

    /// Whether another identifier can be handed out.
    pub open spec fn has_next(&self) -> bool {
        self.last() < u64::MAX
    }

    /// A source whose first identifier is one above `initial`.
    pub fn new(initial: u64) -> (generator: Self)
        ensures
            generator.last() == initial,
    {
        IdGenerator { counter: initial }
    }

    /// Hands out the next identifier, one above the last.
    pub fn next_id(&mut self) -> (id: u64)
        requires
            old(self).has_next(),
        ensures
            id == old(self).last() + 1,
            id > old(self).last(),
            final(self).last() == id,
    {
        self.counter += 1;
        self.counter
    }

    /// The identifier most recently handed out, or the initial value.
    pub fn last_id(&self) -> (id: u64)
        ensures
            id == self.last(),
    {
        self.counter
    }
}

/// The time from `start` to `now`, and nothing where `now` is the earlier.
pub open spec fn elapsed_nanos(start: u64, now: u64) -> nat {
    if now >= start {
        (now - start) as nat
    } else {
        0
    }
}

/// The requests that await their response, each with the time, in
/// nanoseconds on the caller's clock, at which it was sent.
pub struct RpcTracker {
    start_times: HashMap<u64, u64>,
}

impl View for RpcTracker {
    type V = Map<u64, u64>;

    closed spec fn view(&self) -> Map<u64, u64> {
        self.start_times@
    }
}

impl RpcTracker {
    /// A registry in which nothing awaits a response.
    pub fn new() -> (tracker: Self)
        ensures
            tracker@ == Map::<u64, u64>::empty(),
    {
        RpcTracker { start_times: HashMap::new() }
    }

    /// Registers the request `id` as sent at `now`.
    pub fn start_tracking(&mut self, id: u64, now: u64)
        ensures
            final(self)@ == old(self)@.insert(id, now),
    {
        self.start_times.insert(id, now);
    }

    /// Takes the request `id` out of the registry and gives the time since
    /// it was sent; an identifier that is not registered changes nothing.
    pub fn stop_tracking(&mut self, id: u64, now: u64) -> (latency: Option<Duration>)
        ensures
            old(self)@.contains_key(id) <==> latency is Some,
            latency matches Some(span) ==> duration_nanos(span) == elapsed_nanos(
                old(self)@[id],
                now,
            ),
            final(self)@ == old(self)@.remove(id),
            !old(self)@.contains_key(id) ==> final(self)@ == old(self)@,
    {
        match self.start_times.remove(&id) {
            Some(start) => {
                let nanos: u64 = if now >= start {
                    now - start
                } else {
                    0
                };
                Some(duration_from_nanos(nanos))
            },
            None => None,
        }
    }

    /// Whether the request `id` awaits its response.
    pub fn is_tracking(&self, id: u64) -> (awaited: bool)
        ensures
            awaited == self@.contains_key(id),
    {
        self.start_times.contains_key(&id)
    }

    /// The number of requests that await their response.
    pub fn pending(&self) -> (count: usize)
        ensures
            count == self@.len(),
    {
        self.start_times.len()
    }
}

/// A request as it goes on the wire, with the identifier it carries.
#[derive(Debug)]
pub struct Request {
    pub id: u64,
    pub text: String,
}

/// The JSON-RPC request for `method` with the parameters `params` under the
/// identifier `id`.
pub open spec fn request_tree(method: Seq<char>, params: JsonTree, id: u64) -> JsonTree {
    JsonTree::Object(
        Map::<Seq<char>, JsonTree>::empty().insert("jsonrpc"@, JsonTree::Text("2.0"@)).insert(
            "method"@,
            JsonTree::Text(method),
        ).insert("params"@, params).insert("id"@, JsonTree::Number(JsonNumber::Unsigned(id))),
    )
}

/// The parameters of a request to run `script`.
pub open spec fn script_params(script: Seq<char>) -> JsonTree {
    JsonTree::Object(Map::<Seq<char>, JsonTree>::empty().insert("script"@, JsonTree::Text(script)))
}

/// Frames a request for `method` under a fresh identifier and registers it
/// as sent at `now`.
pub fn send_rpc(
    id_generator: &mut IdGenerator,
    rpc_tracker: &mut RpcTracker,
    method: &str,
    params: Value,
    now: u64,
) -> (request: Request)
    requires
        old(id_generator).has_next(),
    ensures
        request.id == old(id_generator).last() + 1,
        final(id_generator).last() == request.id,
        final(rpc_tracker)@ == old(rpc_tracker)@.insert(request.id, now),
        request.text@ == json_text(request_tree(method@, json_tree(params), request.id)),
{
    let id = id_generator.next_id();
    let message = json::object();
    let message = json::with_member(message, "jsonrpc", json::string("2.0"));
    let message = json::with_member(message, "method", json::string(method));
    let message = json::with_member(message, "params", params);
    let message = json::with_member(message, "id", json::number(id));
    rpc_tracker.start_tracking(id, now);
    Request { id, text: json::to_text(&message) }
}

/// Frames the request that has the machine run `gcode`.
pub fn send_gcode_command(
    id_generator: &mut IdGenerator,
    rpc_tracker: &mut RpcTracker,
    gcode: &str,
    now: u64,
) -> (request: Request)
    requires
        old(id_generator).has_next(),
    ensures
        request.id == old(id_generator).last() + 1,
        final(id_generator).last() == request.id,
        final(rpc_tracker)@ == old(rpc_tracker)@.insert(request.id, now),
        request.text@ == json_text(
            request_tree("printer.gcode.script"@, script_params(gcode@), request.id),
        ),
{
    let params = json::with_member(json::object(), "script", json::string(gcode));
    send_rpc(id_generator, rpc_tracker, "printer.gcode.script", params, now)
}

} // verus!
