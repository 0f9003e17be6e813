use pwa_marketplace::bridge::{EchoHandler, MCPBridge, MCPProtocol};
use pwa_marketplace::client::{ClientError, MCPClient};
use pwa_marketplace::codec::{MCPRequest, MCPResponse};

fn echo_bridge() -> (MCPBridge<EchoHandler>, u64) {
    let mut bridge: MCPBridge<EchoHandler> = MCPBridge::new();
    bridge.register_protocol(MCPProtocol {
        id: 0,
        name: "storage".to_string(),
        version: "1.0".to_string(),
        description: "echoing storage".to_string(),
        handler: EchoHandler,
    });
    let conn = bridge.accept_connection().unwrap();
    (bridge, conn)
}

fn request_bytes(data: Vec<u8>) -> Vec<u8> {
    MCPRequest {
        app_id: "app1".to_string(),
        protocol: "storage".to_string(),
        action: "echo".to_string(),
        data,
    }
    .into_bytes()
}

#[test]
fn test_second_send_while_in_flight_is_refused() {
    let mut client = MCPClient::new();
    let first = request_bytes(vec![1]);
    let second = request_bytes(vec![2]);
    assert!(client.begin_send(&first).is_ok());
    // The connection is claimed: a concurrent send must fail explicitly,
    // never interleave bytes with the outstanding request.
    assert_eq!(client.begin_send(&second), Err(ClientError::Busy));
    let response = client.finish_send(vec![9, 9]).unwrap();
    assert_eq!(response, vec![9, 9]);
    // Released: the next request may claim the connection.
    assert!(client.begin_send(&second).is_ok());
}

#[test]
fn test_response_without_request_is_refused() {
    let mut client = MCPClient::new();
    assert_eq!(client.finish_send(vec![1]), Err(ClientError::NoRequestInFlight));
}

#[test]
fn test_abandon_releases_the_connection() {
    let mut client = MCPClient::new();
    client.begin_send(&request_bytes(vec![1])).unwrap();
    client.abandon();
    assert!(client.begin_send(&request_bytes(vec![2])).is_ok());
}

#[test]
fn test_each_caller_gets_its_own_response() {
    let (bridge, conn) = echo_bridge();
    let mut client = MCPClient::new();
    // Two logical requests on one connection, one at a time: each round
    // trip answers exactly its own payload.
    let out1 = client.send(&bridge, conn, &request_bytes(vec![1, 1])).unwrap();
    let out2 = client.send(&bridge, conn, &request_bytes(vec![2, 2])).unwrap();
    assert_eq!(MCPResponse::from_bytes(&out1).unwrap().data, Some(vec![1, 1]));
    assert_eq!(MCPResponse::from_bytes(&out2).unwrap().data, Some(vec![2, 2]));
}

#[test]
fn test_send_while_busy_dispatches_nothing() {
    let (bridge, conn) = echo_bridge();
    let mut client = MCPClient::new();
    client.begin_send(&request_bytes(vec![1])).unwrap();
    assert_eq!(
        client.send(&bridge, conn, &request_bytes(vec![2])),
        Err(ClientError::Busy)
    );
}

#[test]
fn test_send_lost_connection() {
    let (mut bridge, conn) = echo_bridge();
    bridge.close_connection(conn);
    let mut client = MCPClient::new();
    assert_eq!(
        client.send(&bridge, conn, &request_bytes(vec![1])),
        Err(ClientError::ConnectionLost)
    );
}
