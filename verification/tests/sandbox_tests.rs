use pwa_marketplace::bridge::{EchoHandler, MCPBridge, MCPProtocol};
use pwa_marketplace::client::MCPClient;
use pwa_marketplace::codec::MCPRequest;
use pwa_marketplace::registry::ResourceController;
use pwa_marketplace::sandbox::{PWAConfig, PWASandbox, SandboxConfig, SandboxError};

fn config(storage: bool, notifications: bool, mcp: bool) -> PWAConfig {
    PWAConfig {
        name: "app1".to_string(),
        url: "https://example.com".to_string(),
        permissions: vec!["network".to_string(), "storage".to_string()],
        sandbox: SandboxConfig { network: true, storage, notifications, system: false, mcp },
    }
}

fn ready_sandbox(storage: bool, notifications: bool, mcp: bool) -> PWASandbox {
    let mut sandbox = PWASandbox::new(config(storage, notifications, mcp));
    sandbox.start().unwrap();
    sandbox
}

#[test]
fn test_storage_capability_disabled_denies_both_ways() {
    let mut sandbox = ready_sandbox(false, true, true);
    assert_eq!(sandbox.store_data("k", "v"), Err(SandboxError::StoragePermissionDenied));
    // The read fails identically: never stale or partial data.
    assert_eq!(sandbox.get_data("k"), Err(SandboxError::StoragePermissionDenied));
}

#[test]
fn test_storage_last_write_wins() {
    let mut sandbox = ready_sandbox(true, true, true);
    sandbox.store_data("k", "v1").unwrap();
    sandbox.store_data("k", "v2").unwrap();
    assert_eq!(sandbox.get_data("k").unwrap(), Some("v2".to_string()));
    assert_eq!(sandbox.get_data("other").unwrap(), None);
}

#[test]
fn test_load_url_validates() {
    let mut sandbox = ready_sandbox(true, true, true);
    assert!(sandbox.load_url("https://example.com/index.html").is_ok());
    assert_eq!(sandbox.load_url("not a url at all"), Err(SandboxError::InvalidUrl));
    assert_eq!(sandbox.load_url(""), Err(SandboxError::InvalidUrl));
}

#[test]
fn test_request_permission_consults_manifest_then_registry() {
    let mut registry = ResourceController::new();
    registry.grant_permissions("app1", vec!["network".to_string()]);
    let mut sandbox = ready_sandbox(true, true, true);
    // Declared and granted.
    assert_eq!(sandbox.request_permission("network", &registry), Ok(true));
    // Declared but never granted: denied.
    assert_eq!(sandbox.request_permission("storage", &registry), Ok(false));
    // Never declared in the manifest: denied without consulting the
    // registry, even if the registry would grant it.
    registry.grant_permissions("app1", vec!["camera".to_string()]);
    assert_eq!(sandbox.request_permission("camera", &registry), Ok(false));
}

#[test]
fn test_permission_cache_answers_repeated_checks() {
    let mut registry = ResourceController::new();
    registry.grant_permissions("app1", vec!["network".to_string()]);
    let mut sandbox = ready_sandbox(true, true, true);
    assert_eq!(sandbox.request_permission("network", &registry), Ok(true));
    // Revoked at the registry, but the sandbox still holds the cached
    // confirmation: the cache never expires on its own.
    registry.revoke_permissions("app1");
    assert_eq!(sandbox.request_permission("network", &registry), Ok(true));
    // Revocation paired with explicit invalidation takes effect.
    sandbox.invalidate_permission_cache();
    assert_eq!(sandbox.request_permission("network", &registry), Ok(false));
}

#[test]
fn test_notifications_gated_and_recorded() {
    let mut denied = ready_sandbox(true, false, true);
    assert_eq!(
        denied.send_notification("hello"),
        Err(SandboxError::NotificationPermissionDenied)
    );
    let mut allowed = ready_sandbox(true, true, true);
    assert!(allowed.send_notification("hello").is_ok());
    assert!(allowed.send_notification("again").is_ok());
}

#[test]
fn test_denials_have_fixed_wording() {
    assert_eq!(
        SandboxError::StoragePermissionDenied.message(),
        "Storage permission denied"
    );
    assert_eq!(
        SandboxError::NotificationPermissionDenied.message(),
        "Notifications permission denied"
    );
    assert_eq!(SandboxError::McpPermissionDenied.message(), "MCP permission denied");
}

#[test]
fn test_start_is_idempotent() {
    let mut sandbox = PWASandbox::new(config(true, true, true));
    assert!(sandbox.start().is_ok());
    assert!(sandbox.start().is_ok());
}

#[test]
fn test_operations_fail_before_start() {
    let mut sandbox = PWASandbox::new(config(true, true, true));
    assert_eq!(sandbox.store_data("k", "v"), Err(SandboxError::Closed));
    assert_eq!(sandbox.get_data("k"), Err(SandboxError::Closed));
    assert_eq!(sandbox.load_url("https://example.com"), Err(SandboxError::Closed));
}

#[test]
fn test_operations_fail_after_shutdown() {
    let mut sandbox = ready_sandbox(true, true, true);
    sandbox.store_data("k", "v").unwrap();
    sandbox.shutdown().unwrap();
    // Every operation fails rather than silently doing nothing.
    assert_eq!(sandbox.store_data("k", "v"), Err(SandboxError::Closed));
    assert_eq!(sandbox.get_data("k"), Err(SandboxError::Closed));
    assert_eq!(sandbox.send_notification("x"), Err(SandboxError::Closed));
    assert_eq!(sandbox.load_url("https://example.com"), Err(SandboxError::Closed));
    // Terminal: a closed sandbox cannot be started again.
    assert_eq!(sandbox.start(), Err(SandboxError::Closed));
}

fn echo_bridge() -> (MCPBridge<EchoHandler>, u64) {
    let mut bridge: MCPBridge<EchoHandler> = MCPBridge::new();
    bridge.register_protocol(MCPProtocol {
        id: 0,
        name: "storage".to_string(),
        version: "1.0".to_string(),
        description: "echoing storage".to_string(),
        handler: EchoHandler,
    });
    let conn = bridge.accept_connection().unwrap();
    (bridge, conn)
}

fn mcp_request_value(data: Vec<u8>) -> MCPRequest {
    MCPRequest {
        app_id: "app1".to_string(),
        protocol: "storage".to_string(),
        action: "echo".to_string(),
        data,
    }
}

#[test]
fn test_mcp_capability_disabled_is_denied() {
    let (bridge, conn) = echo_bridge();
    let sandbox = ready_sandbox(true, true, false);
    let mut client = MCPClient::new();
    let r = sandbox.mcp_request(&mcp_request_value(vec![1]), &mut client, &bridge, conn);
    assert!(matches!(r, Err(SandboxError::McpPermissionDenied)));
}

#[test]
fn test_mcp_round_trip_through_bridge() {
    let (bridge, conn) = echo_bridge();
    let sandbox = ready_sandbox(true, true, true);
    let mut client = MCPClient::new();
    let resp = sandbox
        .mcp_request(&mcp_request_value(vec![5, 6, 7]), &mut client, &bridge, conn)
        .unwrap();
    assert!(resp.success);
    assert!(resp.error.is_none());
    assert_eq!(resp.data, Some(vec![5, 6, 7]));
}

#[test]
fn test_mcp_busy_client_is_refused() {
    let (bridge, conn) = echo_bridge();
    let sandbox = ready_sandbox(true, true, true);
    let mut client = MCPClient::new();
    client.begin_send(&vec![0]).unwrap();
    let r = sandbox.mcp_request(&mcp_request_value(vec![1]), &mut client, &bridge, conn);
    assert!(matches!(r, Err(SandboxError::Busy)));
}

#[test]
fn test_mcp_lost_connection() {
    let (mut bridge, conn) = echo_bridge();
    bridge.close_connection(conn);
    let sandbox = ready_sandbox(true, true, true);
    let mut client = MCPClient::new();
    let r = sandbox.mcp_request(&mcp_request_value(vec![1]), &mut client, &bridge, conn);
    assert!(matches!(r, Err(SandboxError::ConnectionLost)));
}
