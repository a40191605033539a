use messages_api::handler::{plan_event, ApiEvent, HandlerError, StoreAction};

fn event(resource: &str, method: &str, body: Option<&str>, message_id: Option<&str>) -> ApiEvent {
    ApiEvent {
        resource: resource.to_owned(),
        http_method: method.to_owned(),
        body: body.map(|b| b.to_owned()),
        message_id: message_id.map(|m| m.to_owned()),
    }
}

#[test]
fn create_quoted_body_strips_quotes() {
    let e = event("/messages", "POST", Some("\"hello\""), None);
    match plan_event(&e) {
        Ok(StoreAction::PutMessage { id, message }) => {
            assert_eq!(message, "hello");
            assert_ne!(id, "hello");
            assert_ne!(id, "\"hello\"");
            assert_eq!(id.len(), 36);
            assert!(uuid::Uuid::parse_str(&id).is_ok());
        }
        other => panic!("expected a put action, got {:?}", plan_kind(&other)),
    }
}

#[test]
fn create_unquoted_body_kept_verbatim() {
    let e = event("/messages", "POST", Some("hello"), None);
    match plan_event(&e) {
        Ok(StoreAction::PutMessage { message, .. }) => assert_eq!(message, "hello"),
        other => panic!("expected a put action, got {:?}", plan_kind(&other)),
    }
}

#[test]
fn create_half_quoted_body_kept_verbatim() {
    let e = event("/messages", "POST", Some("\"hello"), None);
    match plan_event(&e) {
        Ok(StoreAction::PutMessage { message, .. }) => assert_eq!(message, "\"hello"),
        other => panic!("expected a put action, got {:?}", plan_kind(&other)),
    }
}

#[test]
fn create_two_fresh_ids_differ() {
    let e = event("/messages", "POST", Some("hello"), None);
    let first = match plan_event(&e) {
        Ok(StoreAction::PutMessage { id, .. }) => id,
        other => panic!("expected a put action, got {:?}", plan_kind(&other)),
    };
    let second = match plan_event(&e) {
        Ok(StoreAction::PutMessage { id, .. }) => id,
        other => panic!("expected a put action, got {:?}", plan_kind(&other)),
    };
    assert_ne!(first, second);
}

#[test]
fn count_route_plans_a_scan() {
    let e = event("/messages", "GET", None, None);
    assert!(matches!(plan_event(&e), Ok(StoreAction::CountScan)));
}

#[test]
fn get_route_carries_the_path_parameter() {
    let e = event("/messages/{message_id}", "GET", None, Some("abc-123"));
    match plan_event(&e) {
        Ok(StoreAction::GetMessage { message_id }) => assert_eq!(message_id, "abc-123"),
        other => panic!("expected a get action, got {:?}", plan_kind(&other)),
    }
}

#[test]
fn unknown_route_is_a_dispatch_failure() {
    let e = event("/unknown", "GET", None, None);
    match plan_event(&e) {
        Err(err) => {
            assert!(matches!(err, HandlerError::UnsupportedOperation));
            assert_eq!(err.message(), "Unsupported API call");
        }
        Ok(_) => panic!("expected a dispatch failure"),
    }
}

#[test]
fn unsupported_method_is_a_dispatch_failure() {
    let e = event("/messages", "OPTIONS", None, None);
    assert!(matches!(plan_event(&e), Err(HandlerError::UnsupportedOperation)));
}

fn plan_kind(r: &Result<StoreAction, HandlerError>) -> &'static str {
    match r {
        Ok(StoreAction::PutMessage { .. }) => "put",
        Ok(StoreAction::CountScan) => "count scan",
        Ok(StoreAction::GetMessage { .. }) => "get",
        Err(HandlerError::UnsupportedOperation) => "unsupported operation",
    }
}
