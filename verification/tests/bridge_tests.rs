use pwa_marketplace::bridge::{BridgeError, EchoHandler, MCPBridge, MCPProtocol};
use pwa_marketplace::codec::{MCPRequest, MCPResponse};

fn echo_protocol(name: &str) -> MCPProtocol<EchoHandler> {
    MCPProtocol {
        id: 0,
        name: name.to_string(),
        version: "1.0".to_string(),
        description: format!("{} protocol", name),
        handler: EchoHandler,
    }
}

fn request_bytes(protocol: &str, data: Vec<u8>) -> Vec<u8> {
    MCPRequest {
        app_id: "app1".to_string(),
        protocol: protocol.to_string(),
        action: "roundtrip".to_string(),
        data,
    }
    .into_bytes()
}

#[test]
fn test_dispatch_routes_by_envelope_protocol() {
    let mut bridge: MCPBridge<EchoHandler> = MCPBridge::new();
    bridge.register_protocol(echo_protocol("storage"));
    let conn = bridge.accept_connection().unwrap();
    let out = bridge.handle_message(conn, &request_bytes("storage", vec![7, 7, 7])).unwrap();
    let resp = MCPResponse::from_bytes(&out).unwrap();
    assert!(resp.success);
    assert!(resp.error.is_none());
    assert_eq!(resp.data, Some(vec![7, 7, 7]));
}

#[test]
fn test_dispatch_unknown_protocol_fails_that_request() {
    let mut bridge: MCPBridge<EchoHandler> = MCPBridge::new();
    bridge.register_protocol(echo_protocol("storage"));
    let conn = bridge.accept_connection().unwrap();
    let out = bridge.handle_message(conn, &request_bytes("missing", vec![1])).unwrap();
    let resp = MCPResponse::from_bytes(&out).unwrap();
    assert!(!resp.success);
    assert_eq!(resp.error.as_deref(), Some("Protocol not found: missing"));
    // The bridge still serves the connection afterwards.
    let ok = bridge.handle_message(conn, &request_bytes("storage", vec![2])).unwrap();
    assert!(MCPResponse::from_bytes(&ok).unwrap().success);
}

#[test]
fn test_dispatch_malformed_envelope_fails_that_request() {
    let mut bridge: MCPBridge<EchoHandler> = MCPBridge::new();
    bridge.register_protocol(echo_protocol("storage"));
    let conn = bridge.accept_connection().unwrap();
    let out = bridge.handle_message(conn, &vec![0xde, 0xad, 0xbe, 0xef]).unwrap();
    let resp = MCPResponse::from_bytes(&out).unwrap();
    assert!(!resp.success);
    assert_eq!(resp.error.as_deref(), Some("Serialization error: malformed request"));
}

#[test]
fn test_connection_ids_strictly_increase_across_10000_cycles() {
    let mut bridge: MCPBridge<EchoHandler> = MCPBridge::new();
    let mut last: Option<u64> = None;
    for _ in 0..10000 {
        let id = bridge.accept_connection().unwrap();
        if let Some(prev) = last {
            assert!(id > prev, "identifier reused or not increasing");
        }
        bridge.close_connection(id);
        last = Some(id);
    }
}

#[test]
fn test_closed_connection_is_lost() {
    let mut bridge: MCPBridge<EchoHandler> = MCPBridge::new();
    bridge.register_protocol(echo_protocol("storage"));
    let conn = bridge.accept_connection().unwrap();
    bridge.close_connection(conn);
    assert_eq!(
        bridge.handle_message(conn, &request_bytes("storage", vec![])),
        Err(BridgeError::ConnectionLost)
    );
}

#[test]
fn test_unknown_connection_is_lost() {
    let bridge: MCPBridge<EchoHandler> = MCPBridge::new();
    assert_eq!(
        bridge.handle_message(12345, &request_bytes("storage", vec![])),
        Err(BridgeError::ConnectionLost)
    );
}

#[test]
fn test_shutdown_accepts_no_new_connections() {
    let mut bridge: MCPBridge<EchoHandler> = MCPBridge::new();
    bridge.shutdown();
    assert_eq!(bridge.accept_connection(), Err(BridgeError::ShutDown));
}

#[test]
fn test_shutdown_resolves_five_connections_mid_request() {
    let mut bridge: MCPBridge<EchoHandler> = MCPBridge::new();
    bridge.register_protocol(echo_protocol("storage"));
    let conns: Vec<u64> = (0..5).map(|_| bridge.accept_connection().unwrap()).collect();
    // Each connection has a request it has not yet submitted when the
    // bridge goes down.
    bridge.shutdown();
    for conn in conns {
        // Every outstanding request resolves deterministically: no
        // response hangs, each fails as a lost connection.
        let outcome = bridge.handle_message(conn, &request_bytes("storage", vec![1]));
        assert_eq!(outcome, Err(BridgeError::ConnectionLost));
    }
}
