//! Client-side counterpart of the bridge: one outbound connection carrying
//! a single in-flight request/response round trip at a time.
//!
//! A second send while one is outstanding fails explicitly instead of
//! interleaving bytes on the connection, so the response a caller gets is
//! always the response to its own request.

use vstd::prelude::*;

use crate::bridge::{BridgeError, MCPBridge, MCPProtocolHandler};

verus! {

/// A client-side failure.
#[derive(Debug, PartialEq, Eq, Structural, Clone, Copy)]
pub enum ClientError {
    /// A request is already outstanding on this connection.
    Busy,
    /// No request is outstanding, so there is nothing a response could
    /// answer.
    NoRequestInFlight,
    /// The connection is gone or the bridge is shut down.
    ConnectionLost,
}

/// One outbound connection's sending discipline: at most one request is in
/// flight, and the response handed back always answers that request.
pub struct MCPClient {
    busy: bool,
    pending: Ghost<Seq<u8>>,
}

impl MCPClient {
    /// Whether a request is outstanding.
    pub closed spec fn in_flight(self) -> bool {
        self.busy
    }

    /// The request outstanding, when one is.
    pub closed spec fn pending_request(self) -> Seq<u8> {
        self.pending@
    }

    /// A fresh connection with nothing outstanding.
    pub fn new() -> (r: Self)
        ensures
            !r.in_flight(),
    {
        MCPClient { busy: false, pending: Ghost(Seq::empty()) }
    }

    /// Claims the connection for one request.  While a request is
    /// outstanding every further send fails with [`ClientError::Busy`] and
    /// changes nothing: two logical requests never share the wire.
    pub fn begin_send(&mut self, message: &Vec<u8>) -> (r: Result<(), ClientError>)
        ensures
            old(self).in_flight() ==> r == Result::<(), ClientError>::Err(ClientError::Busy)
                && *final(self) == *old(self),
            !old(self).in_flight() ==> (r is Ok && final(self).in_flight()
                && final(self).pending_request() == message@),
    {
        if self.busy {
            return Err(ClientError::Busy);
        }
        self.busy = true;
        proof {
            self.pending@ = message@;
        }
        Ok(())
    }

    /// Hands the bytes read from the connection to the caller that owns the
    /// outstanding request, and releases the connection.  With the
    /// one-at-a-time discipline these bytes answer exactly the pending
    /// request.  Without an outstanding request the response is refused.
    pub fn finish_send(&mut self, response: Vec<u8>) -> (r: Result<Vec<u8>, ClientError>)
        ensures
            !old(self).in_flight() ==> r == Result::<Vec<u8>, ClientError>::Err(
                ClientError::NoRequestInFlight,
            ) && *final(self) == *old(self),
            old(self).in_flight() ==> !final(self).in_flight() && (r matches Ok(out) && out
                == response),
    {
        if !self.busy {
            return Err(ClientError::NoRequestInFlight);
        }
        self.busy = false;
        Ok(response)
    }

    /// Abandons the outstanding request, as on a caller-side timeout.  The
    /// connection state is released, not corrupted: the next send may claim
    /// it again.
    pub fn abandon(&mut self)
        ensures
            !final(self).in_flight(),
    {
        self.busy = false;
    }

    /// One whole round trip against a local bridge: claims the connection,
    /// dispatches the message, and releases the connection.  The answer is
    /// the bridge's dispatch result for exactly this message.  While
    /// another request is outstanding the call fails with
    /// [`ClientError::Busy`] and dispatches nothing.
    pub fn send<H: MCPProtocolHandler>(
        &mut self,
        bridge: &MCPBridge<H>,
        connection_id: u64,
        message: &Vec<u8>,
    ) -> (r: Result<Vec<u8>, ClientError>)
        ensures
            old(self).in_flight() ==> r == Result::<Vec<u8>, ClientError>::Err(ClientError::Busy)
                && *final(self) == *old(self),
            !old(self).in_flight() ==> !final(self).in_flight() && (match r {
                Ok(out) => bridge.message_outcome(connection_id, message@) == Ok::<
                    Seq<u8>,
                    BridgeError,
                >(out@),
                Err(e) => e == ClientError::ConnectionLost && bridge.message_outcome(
                    connection_id,
                    message@,
                ) == Err::<Seq<u8>, BridgeError>(BridgeError::ConnectionLost),
            }),
    {
        if self.busy {
            return Err(ClientError::Busy);
        }
        self.busy = true;
        proof {
            self.pending@ = message@;
        }
        let outcome = bridge.handle_message(connection_id, message);
        self.busy = false;
        match outcome {
            Ok(out) => Ok(out),
            Err(_) => Err(ClientError::ConnectionLost),
        }
    }
}

} // verus!
