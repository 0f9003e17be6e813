//! Protocol bridge: a transport-agnostic request/response multiplexer
//! between sandboxes and out-of-process protocol handlers.
//!
//! The bridge owns the handler registry and the table of live connections.
//! Connection identifiers grow strictly and are never reused for the life
//! of the bridge.  Dispatch routes every inbound message by the protocol
//! name carried in its envelope; a malformed envelope, an unknown protocol
//! or a faulting handler each degrade to a single structured failure
//! response, never to a torn-down bridge.

use vstd::prelude::*;
use vstd::hash_map::StringHashMap;

use crate::codec::{MCPRequest, MCPResponse, MCPResponseView, decode_request_spec,
    encode_response_spec};
use crate::textutil::str_to_string;

verus! {

/// A named transform from inbound payload bytes to outbound payload bytes.
/// A handler may fault; the bridge converts the fault into a failed
/// response for that one request.
pub trait MCPProtocolHandler {
    /// What the handler answers for a given inbound payload: the response
    /// payload, or a fault message.
    spec fn response_spec(&self, input: Seq<u8>) -> Result<Seq<u8>, Seq<char>>;

    /// Transforms one inbound payload.
    fn handle(&self, message: Vec<u8>) -> (r: Result<Vec<u8>, String>)
        ensures
            match r {
                Ok(out) => self.response_spec(message@) == Ok::<Seq<u8>, Seq<char>>(out@),
                Err(fault) => self.response_spec(message@) == Err::<Seq<u8>, Seq<char>>(fault@),
            },
    ;
}

/// A handler that answers every payload with the payload itself.
pub struct EchoHandler;

impl MCPProtocolHandler for EchoHandler {
    open spec fn response_spec(&self, input: Seq<u8>) -> Result<Seq<u8>, Seq<char>> {
        Ok(input)
    }

    fn handle(&self, message: Vec<u8>) -> (r: Result<Vec<u8>, String>) {
        Ok(message)
    }
}

/// A registered protocol: identification and the handler that serves it.
pub struct MCPProtocol<H> {
    pub id: usize,
    pub name: String,
    pub version: String,
    pub description: String,
    pub handler: H,
}

/// A bridge-level failure, reported to the transport layer.
#[derive(Debug, PartialEq, Eq, Structural, Clone, Copy)]
pub enum BridgeError {
    /// The bridge is shut down and accepts no new connections.
    ShutDown,
    /// The connection is gone: it was closed, never existed, or the bridge
    /// is shut down.
    ConnectionLost,
}

/// Request/response multiplexer: protocol registry, live-connection table,
/// and the strictly increasing connection-identifier source.
#[verifier::reject_recursive_types(H)]
pub struct MCPBridge<H> {
    protocols: StringHashMap<MCPProtocol<H>>,
    connections: Vec<u64>,
    next_connection_id: u64,
    issued: Ghost<Seq<u64>>,
    running: bool,
}

impl<H: MCPProtocolHandler> MCPBridge<H> {
    /// The protocol registry: protocol name -> registered protocol.
    pub closed spec fn protocol_map(self) -> Map<Seq<char>, MCPProtocol<H>> {
        self.protocols@
    }

    /// The identifiers of the connections currently live.
    pub closed spec fn live_connections(self) -> Seq<u64> {
        self.connections@
    }

    /// Every identifier the bridge ever issued, in order of issue.
    pub closed spec fn issued_ids(self) -> Seq<u64> {
        self.issued@
    }

    /// The identifier the next accepted connection will get.
    pub closed spec fn next_id(self) -> u64 {
        self.next_connection_id
    }

    /// Whether the bridge still accepts connections and messages.
    pub closed spec fn is_running(self) -> bool {
        self.running
    }

    /// The bridge's structural invariant: issued identifiers grow strictly,
    /// all sit below the next identifier, and the live table holds issued
    /// identifiers without duplicates.
    pub open spec fn wf(self) -> bool {
        &&& forall|i: int, j: int|
            0 <= i < j < self.issued_ids().len() ==> self.issued_ids()[i] < self.issued_ids()[j]
        &&& forall|i: int|
            0 <= i < self.issued_ids().len() ==> self.issued_ids()[i] < self.next_id()
        &&& forall|i: int|
            0 <= i < self.live_connections().len() ==> self.issued_ids().contains(
                self.live_connections()[i],
            )
        &&& forall|i: int, j: int|
            0 <= i < j < self.live_connections().len() ==> self.live_connections()[i]
                != self.live_connections()[j]
    }

    /// The invariant depends only on the identifier history, the live
    /// table and the next identifier: two bridges agreeing on those are
    /// equally well formed.
    proof fn lemma_wf_same_tables(a: Self, b: Self)
        requires
            a.wf(),
            b.issued_ids() == a.issued_ids(),
            b.live_connections() == a.live_connections(),
            b.next_id() == a.next_id(),
        ensures
            b.wf(),
    {
        assert forall|i: int, j: int| 0 <= i < j < b.issued_ids().len() implies b.issued_ids()[i]
            < b.issued_ids()[j] by {
            assert(a.issued_ids()[i] < a.issued_ids()[j]);
        }
        assert forall|i: int| 0 <= i < b.issued_ids().len() implies b.issued_ids()[i] < b.next_id()
            by {
            assert(a.issued_ids()[i] < a.next_id());
        }
        assert forall|i: int| 0 <= i < b.live_connections().len() implies b.issued_ids().contains(
            b.live_connections()[i],
        ) by {
            assert(a.issued_ids().contains(a.live_connections()[i]));
        }
        assert forall|i: int, j: int| 0 <= i < j < b.live_connections().len() implies
            b.live_connections()[i] != b.live_connections()[j] by {
            assert(a.live_connections()[i] != a.live_connections()[j]);
        }
    }

    /// Creates a running bridge with no protocols and no connections.
    pub fn new() -> (r: Self)
        ensures
            r.wf(),
            r.is_running(),
            r.protocol_map() == Map::<Seq<char>, MCPProtocol<H>>::empty(),
            r.live_connections() == Seq::<u64>::empty(),
            r.issued_ids() == Seq::<u64>::empty(),
            r.next_id() == 0,
    {
        MCPBridge {
            protocols: StringHashMap::new(),
            connections: Vec::new(),
            next_connection_id: 0,
            issued: Ghost(Seq::empty()),
            running: true,
        }
    }

    /// Associates a name with a protocol; a reused name overwrites silently
    /// (last registration wins).
    pub fn register_protocol(&mut self, protocol: MCPProtocol<H>)
        requires
            old(self).wf(),
        ensures
            final(self).wf(),
            final(self).protocol_map() == old(self).protocol_map().insert(
                protocol.name@,
                protocol,
            ),
            final(self).live_connections() == old(self).live_connections(),
            final(self).issued_ids() == old(self).issued_ids(),
            final(self).next_id() == old(self).next_id(),
            final(self).is_running() == old(self).is_running(),
    {
        let name = protocol.name.clone();
        self.protocols.insert(name, protocol);
        proof {
            assert(self.issued_ids() =~= old(self).issued_ids());
            assert(self.live_connections() =~= old(self).live_connections());
            Self::lemma_wf_same_tables(*old(self), *self);
        }
    }

    /// Whether the bridge can take one more connection: it is running and
    /// has an identifier left to issue.
    pub fn can_accept(&self) -> (r: bool)
        ensures
            r == (self.is_running() && self.next_id() < u64::MAX),
    {
        self.running && self.next_connection_id < u64::MAX
    }

    /// Accepts one new transport connection: allocates the next identifier,
    /// strictly above every identifier ever issued, and records the
    /// connection as live.  After shutdown no connection is accepted.
    pub fn accept_connection(&mut self) -> (r: Result<u64, BridgeError>)
        requires
            old(self).wf(),
            old(self).next_id() < u64::MAX,
        ensures
            final(self).wf(),
            final(self).protocol_map() == old(self).protocol_map(),
            final(self).is_running() == old(self).is_running(),
            old(self).is_running() ==> (r matches Ok(id) && id == old(self).next_id()
                && final(self).next_id() == old(self).next_id() + 1
                && final(self).issued_ids() == old(self).issued_ids().push(id)
                && final(self).live_connections() == old(self).live_connections().push(id)),
            !old(self).is_running() ==> r == Result::<u64, BridgeError>::Err(BridgeError::ShutDown)
                && *final(self) == *old(self),
    {
        if !self.running {
            return Err(BridgeError::ShutDown);
        }
        let id = self.next_connection_id;
        self.next_connection_id = self.next_connection_id + 1;
        self.connections.push(id);
        proof {
            self.issued@ = self.issued@.push(id);
            let old_issued = old(self).issued_ids();
            let old_live = old(self).live_connections();
            let issued = self.issued_ids();
            let live = self.live_connections();
            assert(issued =~= old_issued.push(id));
            assert(live =~= old_live.push(id));
            assert forall|i: int, j: int| 0 <= i < j < issued.len() implies issued[i] < issued[j]
                by {
                if j < old_issued.len() {
                    assert(old_issued[i] < old_issued[j]);
                } else {
                    assert(old_issued[i] < old(self).next_id());
                }
            }
            assert forall|i: int| 0 <= i < issued.len() implies issued[i] < self.next_id() by {
                if i < old_issued.len() {
                    assert(old_issued[i] < old(self).next_id());
                }
            }
            assert forall|i: int| 0 <= i < live.len() implies issued.contains(live[i]) by {
                if i < old_live.len() {
                    assert(old_issued.contains(old_live[i]));
                    let k = choose|k: int|
                        0 <= k < old_issued.len() && old_issued[k] == old_live[i];
                    assert(issued[k] == live[i]);
                } else {
                    assert(issued[issued.len() - 1] == live[i]);
                }
            }
            assert forall|i: int| 0 <= i < old_live.len() implies old_live[i] != id by {
                assert(old_issued.contains(old_live[i]));
                let k = choose|k: int| 0 <= k < old_issued.len() && old_issued[k] == old_live[i];
                assert(old_issued[k] < old(self).next_id());
            }
            assert forall|i: int, j: int| 0 <= i < j < live.len() implies live[i] != live[j] by {
                if j < old_live.len() {
                    assert(old_live[i] != old_live[j]);
                }
            }
        }
        Ok(id)
    }

    /// Removes the connection from the live table: a disconnect or an I/O
    /// error ends the connection's life.  Other connections, the protocol
    /// registry and the identifier history are untouched.
    pub fn close_connection(&mut self, connection_id: u64)
        requires
            old(self).wf(),
        ensures
            final(self).wf(),
            final(self).protocol_map() == old(self).protocol_map(),
            final(self).issued_ids() == old(self).issued_ids(),
            final(self).next_id() == old(self).next_id(),
            final(self).is_running() == old(self).is_running(),
            forall|id: u64|
                final(self).live_connections().contains(id) <==> (
                old(self).live_connections().contains(id) && id != connection_id),
    {
        let ghost old_live = self.connections@;
        let mut i: usize = 0;
        while i < self.connections.len()
            invariant
                old(self).wf(),
                0 <= i <= self.connections@.len(),
                self.connections@ == old_live,
                old_live == old(self).live_connections(),
                self.protocol_map() == old(self).protocol_map(),
                self.issued_ids() == old(self).issued_ids(),
                self.next_id() == old(self).next_id(),
                self.is_running() == old(self).is_running(),
                forall|j: int| 0 <= j < i ==> old_live[j] != connection_id,
            decreases self.connections@.len() - i,
        {
            if self.connections[i] == connection_id {
                let ghost found = i as int;
                self.connections.remove(i);
                proof {
                    let live = self.connections@;
                    let issued = self.issued_ids();
                    assert(live =~= old_live.remove(found));
                    assert(forall|j: int|
                        0 <= j < live.len() ==> live[j] == (if j < found {
                            old_live[j]
                        } else {
                            old_live[j + 1]
                        }));
                    assert forall|j: int| 0 <= j < live.len() implies issued.contains(live[j]) by {
                        if j < found {
                            assert(old(self).issued_ids().contains(
                                old(self).live_connections()[j],
                            ));
                        } else {
                            assert(old(self).issued_ids().contains(
                                old(self).live_connections()[j + 1],
                            ));
                        }
                    }
                    assert forall|j: int, k: int| 0 <= j < k < live.len() implies live[j] != live[k]
                        by {
                        if k < found {
                            assert(old_live[j] != old_live[k]);
                        } else if j < found {
                            assert(old_live[j] != old_live[k + 1]);
                        } else {
                            assert(old_live[j + 1] != old_live[k + 1]);
                        }
                    }
                    assert forall|id: u64| live.contains(id) implies (old_live.contains(id) && id
                        != connection_id) by {
                        let k = choose|k: int| 0 <= k < live.len() && live[k] == id;
                        if k < found {
                            assert(old_live[k] == id);
                        } else {
                            assert(old_live[k + 1] == id);
                            assert(old_live[found] != old_live[k + 1]);
                        }
                    }
                    assert forall|id: u64| old_live.contains(id) && id != connection_id implies
                        live.contains(id) by {
                        let k = choose|k: int| 0 <= k < old_live.len() && old_live[k] == id;
                        if k < found {
                            assert(live[k] == id);
                        } else {
                            assert(k != found);
                            assert(live[k - 1] == id);
                        }
                    }
                }
                return ;
            }
            i += 1;
        }
        proof {
            assert forall|id: u64| self.connections@.contains(id) implies id != connection_id by {
                let k = choose|k: int|
                    0 <= k < self.connections@.len() && self.connections@[k] == id;
                assert(old_live[k] != connection_id);
            }
            Self::lemma_wf_same_tables(*old(self), *self);
        }
    }

    /// What dispatching one inbound message answers, as encoded response
    /// bytes: the handler's payload on success, a structured failure for a
    /// malformed envelope, an unknown protocol, or a handler fault.
    pub open spec fn dispatch_spec(self, message: Seq<u8>) -> Seq<u8> {
        match decode_request_spec(message) {
            None => encode_response_spec(
                MCPResponseView {
                    success: false,
                    error: Some("Serialization error: malformed request"@),
                    data: None,
                },
            ),
            Some(req) => if !self.protocol_map().contains_key(req.protocol) {
                encode_response_spec(
                    MCPResponseView {
                        success: false,
                        error: Some("Protocol not found: "@ + req.protocol),
                        data: None,
                    },
                )
            } else {
                match self.protocol_map()[req.protocol].handler.response_spec(req.data) {
                    Ok(out) => encode_response_spec(
                        MCPResponseView { success: true, error: None, data: Some(out) },
                    ),
                    Err(fault) => encode_response_spec(
                        MCPResponseView {
                            success: false,
                            error: Some("Handler fault: "@ + fault),
                            data: None,
                        },
                    ),
                }
            },
        }
    }

    /// What one inbound message on one connection comes to: the dispatch
    /// answer on a live connection of a running bridge, a lost connection
    /// otherwise.
    pub open spec fn message_outcome(self, connection_id: u64, message: Seq<u8>) -> Result<
        Seq<u8>,
        BridgeError,
    > {
        if self.is_running() && self.live_connections().contains(connection_id) {
            Ok(self.dispatch_spec(message))
        } else {
            Err(BridgeError::ConnectionLost)
        }
    }

    /// Serves one inbound message on one connection: decodes the envelope,
    /// routes by its protocol name, runs the handler, and encodes the
    /// response to write back.  Every failure inside dispatch degrades to a
    /// failure response for this one request; only a dead connection or a
    /// shut-down bridge refuses service.
    pub fn handle_message(&self, connection_id: u64, message: &Vec<u8>) -> (r: Result<
        Vec<u8>,
        BridgeError,
    >)
        ensures
            match r {
                Ok(out) => self.message_outcome(connection_id, message@) == Ok::<
                    Seq<u8>,
                    BridgeError,
                >(out@),
                Err(e) => self.message_outcome(connection_id, message@) == Err::<
                    Seq<u8>,
                    BridgeError,
                >(e),
            },
    {
        if !self.running || !self.connection_is_live(connection_id) {
            return Err(BridgeError::ConnectionLost);
        }
        let response: MCPResponse = match MCPRequest::from_bytes(message) {
            Err(_) => MCPResponse {
                success: false,
                error: Some(str_to_string("Serialization error: malformed request")),
                data: None,
            },
            Ok(req) => {
                match self.protocols.get(req.protocol.as_str()) {
                    None => {
                        let mut msg = str_to_string("Protocol not found: ");
                        msg.append(req.protocol.as_str());
                        MCPResponse { success: false, error: Some(msg), data: None }
                    },
                    Some(protocol) => {
                        match protocol.handler.handle(req.data) {
                            Ok(out) => MCPResponse { success: true, error: None, data: Some(out) },
                            Err(fault) => {
                                let mut msg = str_to_string("Handler fault: ");
                                msg.append(fault.as_str());
                                MCPResponse { success: false, error: Some(msg), data: None }
                            },
                        }
                    },
                }
            },
        };
        Ok(response.into_bytes())
    }

    /// Whether the connection is in the live table.
    pub fn connection_is_live(&self, connection_id: u64) -> (r: bool)
        ensures
            r == self.live_connections().contains(connection_id),
    {
        let mut i: usize = 0;
        while i < self.connections.len()
            invariant
                0 <= i <= self.connections@.len(),
                forall|j: int| 0 <= j < i ==> self.connections@[j] != connection_id,
            decreases self.connections@.len() - i,
        {
            if self.connections[i] == connection_id {
                return true;
            }
            i += 1;
        }
        false
    }

    /// Stops the bridge: no connection is accepted afterwards, and every
    /// message on every connection answers with a lost connection instead
    /// of hanging.
    pub fn shutdown(&mut self)
        requires
            old(self).wf(),
        ensures
            final(self).wf(),
            !final(self).is_running(),
            final(self).protocol_map() == old(self).protocol_map(),
            final(self).live_connections() == old(self).live_connections(),
            final(self).issued_ids() == old(self).issued_ids(),
            final(self).next_id() == old(self).next_id(),
    {
        self.running = false;
        proof {
            assert(self.issued_ids() =~= old(self).issued_ids());
            assert(self.live_connections() =~= old(self).live_connections());
            Self::lemma_wf_same_tables(*old(self), *self);
        }
    }
}

/// Connection identifiers are issued in strictly increasing order and never
/// reused: any two identifiers issued at different times differ, however
/// many connections were accepted and closed in between.
pub proof fn lemma_connection_ids_strictly_increasing<H: MCPProtocolHandler>(
    bridge: MCPBridge<H>,
    i: int,
    j: int,
)
    requires
        bridge.wf(),
        0 <= i < j < bridge.issued_ids().len(),
    ensures
        bridge.issued_ids()[i] < bridge.issued_ids()[j],
        bridge.issued_ids()[i] != bridge.issued_ids()[j],
{
}

/// After shutdown every in-flight or later message on every connection
/// resolves deterministically to a lost connection: nothing hangs, nothing
/// is half-served.
pub proof fn lemma_shutdown_resolves_all<H: MCPProtocolHandler>(bridge: MCPBridge<H>)
    requires
        !bridge.is_running(),
    ensures
        forall|connection_id: u64, message: Seq<u8>|
            #[trigger] bridge.message_outcome(connection_id, message) == Err::<Seq<u8>, BridgeError>(
                BridgeError::ConnectionLost,
            ),
{
}

} // verus!
