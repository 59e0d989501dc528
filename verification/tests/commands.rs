use rights_guard::commands::{parse_identifier, CommandError, StartAutomationParams};
use rights_guard::models::AutomationRequest;

#[test]
fn an_identifier_is_read_from_its_text() {
    assert_eq!(
        parse_identifier("550e8400-e29b-41d4-a716-446655440000"),
        Ok(0x550e8400e29b41d4a716446655440000)
    );
    assert_eq!(
        parse_identifier("550E8400E29B41D4A716446655440000"),
        Ok(0x550e8400e29b41d4a716446655440000)
    );
    assert_eq!(parse_identifier("00000000-0000-0000-0000-000000000001"), Ok(1));
}

#[test]
fn a_text_that_is_no_identifier_is_an_error() {
    for text in ["", "not-a-uuid", "550e8400-e29b-41d4-a716-44665544000", "550e8400-e29b-41d4-a716-44665544000g"] {
        match parse_identifier(text) {
            Err(CommandError::Uuid(detail)) => assert!(!detail.is_empty()),
            other => panic!("unexpected: {:?}", other),
        }
    }
}

#[test]
fn parameters_become_a_request() {
    let params = StartAutomationParams {
        infringing_url: "https://example.com/clip/1".to_string(),
        original_url: Some("https://example.com/mine".to_string()),
        ip_asset_id: Some("a1a2a3a4-b1b2-c1c2-d1d2-d3d4d5d6d7d8".to_string()),
    };
    assert_eq!(
        params.to_request(),
        Ok(AutomationRequest {
            infringing_url: "https://example.com/clip/1".to_string(),
            original_url: Some("https://example.com/mine".to_string()),
            ip_asset_id: Some(0xa1a2a3a4b1b2c1c2d1d2d3d4d5d6d7d8),
        })
    );
    let params = StartAutomationParams {
        infringing_url: "u".to_string(),
        original_url: None,
        ip_asset_id: None,
    };
    assert_eq!(
        params.to_request(),
        Ok(AutomationRequest { infringing_url: "u".to_string(), original_url: None, ip_asset_id: None })
    );
}

#[test]
fn parameters_with_an_unreadable_asset_become_no_request() {
    let params = StartAutomationParams {
        infringing_url: "u".to_string(),
        original_url: None,
        ip_asset_id: Some("42".to_string()),
    };
    assert!(matches!(params.to_request(), Err(CommandError::Uuid(_))));
}

#[test]
fn each_error_has_its_message() {
    assert_eq!(CommandError::Database("locked".to_string()).message(), "Database error: locked");
    assert_eq!(CommandError::Automation("busy".to_string()).message(), "Automation error: busy");
    assert_eq!(CommandError::Uuid("bad".to_string()).message(), "UUID parsing error: bad");
}
