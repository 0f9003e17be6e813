use pwa_marketplace::codec::{CodecError, MCPRequest, MCPResponse};

fn request(app_id: &str, protocol: &str, action: &str, data: Vec<u8>) -> MCPRequest {
    MCPRequest {
        app_id: app_id.to_string(),
        protocol: protocol.to_string(),
        action: action.to_string(),
        data,
    }
}

#[test]
fn test_request_round_trip() {
    let req = request("app1", "storage", "get", vec![1, 2, 3, 255]);
    let bytes = req.into_bytes();
    let back = MCPRequest::from_bytes(&bytes).unwrap();
    assert_eq!(back.app_id, "app1");
    assert_eq!(back.protocol, "storage");
    assert_eq!(back.action, "get");
    assert_eq!(back.data, vec![1, 2, 3, 255]);
}

#[test]
fn test_request_round_trip_empty_fields() {
    let req = request("", "", "", Vec::new());
    let bytes = req.into_bytes();
    let back = MCPRequest::from_bytes(&bytes).unwrap();
    assert_eq!(back.app_id, "");
    assert_eq!(back.protocol, "");
    assert_eq!(back.action, "");
    assert!(back.data.is_empty());
}

#[test]
fn test_request_round_trip_non_ascii() {
    let req = request("café", "pröto", "动作", vec![0]);
    let bytes = req.into_bytes();
    let back = MCPRequest::from_bytes(&bytes).unwrap();
    assert_eq!(back.app_id, "café");
    assert_eq!(back.protocol, "pröto");
    assert_eq!(back.action, "动作");
}

#[test]
fn test_response_round_trip_success() {
    let resp = MCPResponse { success: true, error: None, data: Some(vec![42]) };
    let bytes = resp.into_bytes();
    let back = MCPResponse::from_bytes(&bytes).unwrap();
    assert!(back.success);
    assert!(back.error.is_none());
    assert_eq!(back.data, Some(vec![42]));
}

#[test]
fn test_response_round_trip_failure() {
    let resp = MCPResponse {
        success: false,
        error: Some("Permission denied: storage".to_string()),
        data: None,
    };
    let bytes = resp.into_bytes();
    let back = MCPResponse::from_bytes(&bytes).unwrap();
    assert!(!back.success);
    assert_eq!(back.error.as_deref(), Some("Permission denied: storage"));
    assert!(back.data.is_none());
}

#[test]
fn test_decode_rejects_truncated_bytes() {
    assert_eq!(MCPRequest::from_bytes(&vec![1, 2, 3]), Err(CodecError::Malformed));
    assert_eq!(MCPRequest::from_bytes(&Vec::new()), Err(CodecError::Malformed));
}

#[test]
fn test_decode_rejects_trailing_bytes() {
    let req = request("a", "b", "c", vec![1]);
    let mut bytes = req.into_bytes();
    bytes.push(0);
    assert_eq!(MCPRequest::from_bytes(&bytes), Err(CodecError::Malformed));
}

#[test]
fn test_decode_rejects_invalid_utf8() {
    // One string field of one byte, 0xFF: a length prefix of 1 and a byte
    // that no UTF-8 string holds.
    let mut bytes = vec![1, 0, 0, 0, 0, 0, 0, 0, 0xFF];
    // Three empty fields after it so only the UTF-8 check can refuse.
    for _ in 0..3 {
        bytes.extend_from_slice(&[0, 0, 0, 0, 0, 0, 0, 0]);
    }
    assert_eq!(MCPRequest::from_bytes(&bytes), Err(CodecError::Malformed));
}

#[test]
fn test_response_decode_rejects_bad_flags() {
    // A success byte other than 0 or 1.
    assert_eq!(MCPResponse::from_bytes(&vec![2, 0, 0]), Err(CodecError::Malformed));
    // A presence tag other than 0 or 1.
    assert_eq!(MCPResponse::from_bytes(&vec![1, 3, 0]), Err(CodecError::Malformed));
}
