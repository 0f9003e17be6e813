use pwa_marketplace::registry::{RegistryError, ResourceController, ResourcePolicy, ResourceRequest};

fn policy(name: &str, permissions: &[&str], timeout: u64) -> ResourcePolicy {
    ResourcePolicy {
        name: name.to_string(),
        description: format!("policy {}", name),
        permissions: permissions.iter().map(|p| p.to_string()).collect(),
        restrictions: Vec::new(),
        timeout,
    }
}

#[test]
fn test_policy_applied_grants_its_permissions() {
    let mut rc = ResourceController::new();
    rc.register_policy(policy("net-basic", &["network"], 30));
    assert!(rc.apply_policy("app1", "net-basic").is_ok());
    assert!(rc.check_permission("app1", "network"));
    assert!(!rc.check_permission("app1", "storage"));
}

#[test]
fn test_never_granted_is_denied() {
    let rc = ResourceController::new();
    assert!(!rc.check_permission("app1", "network"));
    assert!(!rc.check_permission("", ""));
    let response = rc.handle_request(ResourceRequest {
        app_id: "app1".to_string(),
        resource: "storage".to_string(),
        action: "read".to_string(),
        data: vec![1, 2, 3],
    });
    assert!(!response.success);
    assert_eq!(response.error.as_deref(), Some("Permission denied: storage"));
    assert!(response.data.is_none());
}

#[test]
fn test_granted_request_forwards_payload() {
    let mut rc = ResourceController::new();
    rc.grant_permissions("app1", vec!["storage".to_string()]);
    let response = rc.handle_request(ResourceRequest {
        app_id: "app1".to_string(),
        resource: "storage".to_string(),
        action: "read".to_string(),
        data: vec![9, 8, 7],
    });
    assert!(response.success);
    assert!(response.error.is_none());
    assert_eq!(response.data, Some(vec![9, 8, 7]));
}

#[test]
fn test_grant_then_check_is_membership() {
    let mut rc = ResourceController::new();
    rc.grant_permissions("app1", vec!["a".to_string(), "b".to_string()]);
    assert!(rc.check_permission("app1", "a"));
    assert!(rc.check_permission("app1", "b"));
    assert!(!rc.check_permission("app1", "c"));
    assert!(!rc.check_permission("app2", "a"));
}

#[test]
fn test_grant_replaces_whole_set() {
    let mut rc = ResourceController::new();
    rc.grant_permissions("app1", vec!["a".to_string()]);
    rc.grant_permissions("app1", vec!["b".to_string()]);
    assert!(!rc.check_permission("app1", "a"));
    assert!(rc.check_permission("app1", "b"));
}

#[test]
fn test_apply_missing_policy_fails_and_keeps_grants() {
    let mut rc = ResourceController::new();
    rc.grant_permissions("app1", vec!["a".to_string()]);
    let r = rc.apply_policy("app1", "missing");
    assert_eq!(r, Err(RegistryError::PolicyNotFound));
    assert_eq!(rc.get_app_permissions("app1"), vec!["a".to_string()]);
}

#[test]
fn test_revoke_then_check_is_false() {
    let mut rc = ResourceController::new();
    rc.grant_permissions("app1", vec!["a".to_string(), "b".to_string()]);
    rc.revoke_permissions("app1");
    assert!(!rc.check_permission("app1", "a"));
    assert!(!rc.check_permission("app1", "b"));
    assert!(rc.get_app_permissions("app1").is_empty());
}

#[test]
fn test_reregistering_policy_overwrites() {
    let mut rc = ResourceController::new();
    rc.register_policy(policy("p", &["old"], 10));
    rc.register_policy(policy("p", &["new"], 20));
    rc.apply_policy("app1", "p").unwrap();
    assert!(!rc.check_permission("app1", "old"));
    assert!(rc.check_permission("app1", "new"));
}

#[test]
fn test_get_app_permissions_copies_grant_set() {
    let mut rc = ResourceController::new();
    assert!(rc.get_app_permissions("nobody").is_empty());
    rc.grant_permissions("app1", vec!["x".to_string(), "y".to_string()]);
    assert_eq!(
        rc.get_app_permissions("app1"),
        vec!["x".to_string(), "y".to_string()]
    );
}
