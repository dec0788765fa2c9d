use flute_webhooks_mcp::config::Profile;
use flute_webhooks_mcp::error::{ErrorPayload, FluteError};
use flute_webhooks_mcp::runner::{CliOutput, MockRunner};
use flute_webhooks_mcp::server::{
    base_args, AuthFailure, DeliveriesList, DeliveryId, Empty, EndpointCreate, EndpointId,
    EndpointUpdate, ToolReply, ToolRequest,
};
use serde_json::Value;

fn json(text: &str) -> CliOutput {
    CliOutput::Json(serde_json::from_str::<Value>(text).unwrap())
}

/// Runs one tool call against the mock the way the server does.
fn call(req: ToolRequest, mock: &mut MockRunner) -> ToolReply {
    let args = req.argv(Profile::Sandbox);
    let outcome = mock.run(&args);
    req.reply(Profile::Sandbox, outcome)
}

fn strings(words: &[&str]) -> Vec<String> {
    words.iter().map(|w| w.to_string()).collect()
}

fn is_error(reply: &ToolReply) -> bool {
    matches!(reply, ToolReply::Failed(_))
}

#[test]
fn endpoints_list_argv_matches_agents_md_spec() {
    let mut mock = MockRunner::new(vec![Ok(json(r#"{"data": []}"#))]);
    let result = call(ToolRequest::EndpointsList(Empty {}), &mut mock);
    assert_eq!(
        mock.calls(),
        vec![vec![
            "--profile".to_string(),
            "sandbox".into(),
            "--output".into(),
            "json".into(),
            "webhooks".into(),
            "endpoints".into(),
            "list".into(),
        ]]
    );
    assert_eq!(is_error(&result), false);
}

#[test]
fn endpoints_get_argv() {
    let mut mock = MockRunner::new(vec![Ok(json(r#"{"id":"e1"}"#))]);
    call(ToolRequest::EndpointsGet(EndpointId { id: "e1".into() }), &mut mock);
    assert_eq!(
        mock.calls()[0],
        strings(&["--profile", "sandbox", "--output", "json", "webhooks", "endpoints", "get", "e1"])
    );
}

#[test]
fn endpoints_create_argv_with_name() {
    let mut mock = MockRunner::new(vec![Ok(json(r#"{"id":"e1","secret":"shh"}"#))]);
    call(
        ToolRequest::EndpointsCreate(EndpointCreate {
            url: "https://x.example/hook".into(),
            events: vec!["transaction.card.captured".into(), "refund.completed".into()],
            name: Some("My Hook".into()),
        }),
        &mut mock,
    );
    assert_eq!(
        mock.calls()[0],
        strings(&[
            "--profile",
            "sandbox",
            "--output",
            "json",
            "webhooks",
            "endpoints",
            "create",
            "--url",
            "https://x.example/hook",
            "--events",
            "transaction.card.captured,refund.completed",
            "--name",
            "My Hook",
        ])
    );
}

#[test]
fn endpoints_create_argv_without_name() {
    let req = ToolRequest::EndpointsCreate(EndpointCreate {
        url: "https://h".into(),
        events: vec!["a".into()],
        name: None,
    });
    assert_eq!(
        req.argv(Profile::Production),
        strings(&[
            "--profile", "production", "--output", "json", "webhooks", "endpoints", "create",
            "--url", "https://h", "--events", "a",
        ])
    );
}

#[test]
fn endpoints_update_only_includes_set_fields() {
    let mut mock = MockRunner::new(vec![Ok(json(r#"{"id":"e1"}"#))]);
    call(
        ToolRequest::EndpointsUpdate(EndpointUpdate {
            id: "e1".into(),
            url: None,
            events: None,
            name: None,
            status: Some("inactive".into()),
        }),
        &mut mock,
    );
    assert_eq!(
        mock.calls()[0],
        strings(&[
            "--profile", "sandbox", "--output", "json", "webhooks", "endpoints", "update", "e1",
            "--status", "inactive",
        ])
    );
}

#[test]
fn endpoints_update_all_fields_in_order() {
    let req = ToolRequest::EndpointsUpdate(EndpointUpdate {
        id: "e2".into(),
        url: Some("https://u".into()),
        events: Some(vec!["x".into(), "y".into()]),
        name: Some("n".into()),
        status: Some("active".into()),
    });
    assert_eq!(
        req.argv(Profile::Sandbox),
        strings(&[
            "--profile", "sandbox", "--output", "json", "webhooks", "endpoints", "update", "e2",
            "--url", "https://u", "--events", "x,y", "--name", "n", "--status", "active",
        ])
    );
}

#[test]
fn endpoints_delete_synthesizes_result() {
    let mut mock = MockRunner::new(vec![Ok(CliOutput::Empty)]);
    let result = call(ToolRequest::EndpointsDelete(EndpointId { id: "e1".into() }), &mut mock);
    assert_eq!(
        mock.calls()[0],
        strings(&[
            "--profile", "sandbox", "--output", "json", "webhooks", "endpoints", "delete", "e1",
            "--yes",
        ])
    );
    assert!(matches!(result, ToolReply::Deleted { id } if id == "e1"));
}

#[test]
fn auth_error_pass_through_is_error() {
    let mut mock = MockRunner::new(vec![Err(FluteError::Auth {
        message: "no credentials for [sandbox]".into(),
    })]);
    let result = call(ToolRequest::EndpointsList(Empty {}), &mut mock);
    assert_eq!(is_error(&result), true);
    match result {
        ToolReply::Failed(p) => {
            assert_eq!(p.kind(), "auth");
            match p {
                ErrorPayload::Auth { message } => assert!(message.contains("auth login"), "{message}"),
                other => panic!("{other:?}"),
            }
        }
        other => panic!("{other:?}"),
    }
}

#[test]
fn event_types_list_argv() {
    let mut mock = MockRunner::new(vec![Ok(json(r#"{"data": []}"#))]);
    call(ToolRequest::EventTypesList(Empty {}), &mut mock);
    assert_eq!(
        mock.calls()[0],
        strings(&["--profile", "sandbox", "--output", "json", "webhooks", "event-types", "list"])
    );
}

#[test]
fn deliveries_list_no_filters() {
    let mut mock = MockRunner::new(vec![Ok(json(
        r#"{"items": [], "pageInfo": {"pageIndex": 0, "pageSize": 50, "totalItems": 0, "totalPages": 0, "hasMore": false}}"#,
    ))]);
    call(
        ToolRequest::DeliveriesList(DeliveriesList { endpoint_id: None, status: None, limit: None }),
        &mut mock,
    );
    assert_eq!(
        mock.calls()[0],
        strings(&["--profile", "sandbox", "--output", "json", "webhooks", "deliveries", "list"])
    );
}

#[test]
fn deliveries_list_all_filters() {
    let mut mock = MockRunner::new(vec![Ok(json(
        r#"{"items": [], "pageInfo": {"pageIndex": 0, "pageSize": 50, "totalItems": 0, "totalPages": 0, "hasMore": false}}"#,
    ))]);
    call(
        ToolRequest::DeliveriesList(DeliveriesList {
            endpoint_id: Some("e1".into()),
            status: Some("failed".into()),
            limit: Some(10),
        }),
        &mut mock,
    );
    assert_eq!(
        mock.calls()[0],
        strings(&[
            "--profile", "sandbox", "--output", "json", "webhooks", "deliveries", "list",
            "--endpoint-id", "e1", "--status", "failed", "--limit", "10",
        ])
    );
}

#[test]
fn deliveries_get_argv() {
    let mut mock = MockRunner::new(vec![Ok(json(r#"{"id":"d1"}"#))]);
    call(ToolRequest::DeliveriesGet(DeliveryId { id: "d1".into() }), &mut mock);
    assert_eq!(
        mock.calls()[0],
        strings(&["--profile", "sandbox", "--output", "json", "webhooks", "deliveries", "get", "d1"])
    );
}

#[test]
fn deliveries_retry_argv() {
    let mut mock = MockRunner::new(vec![Ok(json(
        r#"{"deliveryLogId": "d1", "endpointId": "e1", "eventId": "ev1", "eventType": "transaction.card.captured", "attemptNumber": 2, "deliveryLogStatus": "Failure", "endpointHTTPResponseCode": 500, "roundTripDurationMs": 12, "requestBody": "{}", "responseBody": "err"}"#,
    ))]);
    call(ToolRequest::DeliveriesRetry(DeliveryId { id: "d1".into() }), &mut mock);
    assert_eq!(
        mock.calls()[0],
        strings(&["--profile", "sandbox", "--output", "json", "webhooks", "deliveries", "retry", "d1"])
    );
}

#[test]
fn auth_status_reports_authenticated_when_decode_ok() {
    let mut mock = MockRunner::new(vec![Err(FluteError::Decode {
        message: "expected JSON, got text".into(),
    })]);
    let result = call(ToolRequest::AuthStatus(Empty {}), &mut mock);
    assert!(matches!(result, ToolReply::Authenticated { profile: Profile::Sandbox }));
    assert_eq!(Profile::Sandbox.as_cli_str(), "sandbox");
}

#[test]
fn auth_status_reports_unauth_on_kind_client() {
    let mut mock = MockRunner::new(vec![Err(FluteError::Client {
        message: "no credentials for [sandbox]; run `flute-webhooks auth login`".into(),
    })]);
    let result = call(ToolRequest::AuthStatus(Empty {}), &mut mock);
    assert!(!is_error(&result), "must not be a tool error");
    match result {
        ToolReply::NotAuthenticated { profile, reason, message } => {
            assert_eq!(profile, Profile::Sandbox);
            assert_eq!(reason, AuthFailure::Client);
            assert_eq!(reason.reason(), "client");
            assert!(message.contains("no credentials for [sandbox]"), "{message}");
            assert!(reason.hint().contains("auth login"));
        }
        other => panic!("{other:?}"),
    }
}

#[test]
fn auth_status_passes_through_oauth_failure_message() {
    let mut mock = MockRunner::new(vec![Err(FluteError::Client {
        message: "OAuth token request to https://oauth.example failed: 401 invalid_client".into(),
    })]);
    let result = call(ToolRequest::AuthStatus(Empty {}), &mut mock);
    assert!(matches!(
        result,
        ToolReply::NotAuthenticated { message, .. } if message.contains("invalid_client")
    ));
}

#[test]
fn auth_status_reports_unauth_on_kind_auth() {
    let mut mock = MockRunner::new(vec![Err(FluteError::Auth { message: "no token".into() })]);
    let result = call(ToolRequest::AuthStatus(Empty {}), &mut mock);
    match result {
        ToolReply::NotAuthenticated { reason, message, .. } => {
            assert_eq!(reason.reason(), "auth");
            assert_eq!(message, "no token");
            assert!(reason.hint().contains("auth login"));
        }
        other => panic!("{other:?}"),
    }
}

#[test]
fn auth_status_surfaces_spawn_failure_as_tool_error() {
    let mut mock = MockRunner::new(vec![Err(FluteError::Spawn("no such file".into()))]);
    let result = call(ToolRequest::AuthStatus(Empty {}), &mut mock);
    assert!(is_error(&result), "spawn must be a tool error");
    match result {
        ToolReply::Failed(p) => assert_eq!(p.kind(), "spawn"),
        other => panic!("{other:?}"),
    }
}

#[test]
fn auth_status_success_is_authenticated() {
    let mut mock = MockRunner::new(vec![Ok(CliOutput::Empty)]);
    let result = call(ToolRequest::AuthStatus(Empty {}), &mut mock);
    assert!(matches!(result, ToolReply::Authenticated { .. }));
}

#[test]
fn endpoints_ping_argv() {
    let mut mock = MockRunner::new(vec![Ok(json(
        r#"{"isDelivered": true, "endpointHTTPResponseCode": 200, "roundTripDurationMs": 34}"#,
    ))]);
    call(ToolRequest::EndpointsPing(EndpointId { id: "e1".into() }), &mut mock);
    assert_eq!(
        mock.calls()[0],
        strings(&["--profile", "sandbox", "--output", "json", "webhooks", "endpoints", "ping", "e1"])
    );
}

#[test]
fn auth_status_argv() {
    let mut mock = MockRunner::new(vec![Err(FluteError::Decode { message: "plain-text JWT".into() })]);
    call(ToolRequest::AuthStatus(Empty {}), &mut mock);
    assert_eq!(
        mock.calls()[0],
        strings(&["--profile", "sandbox", "--output", "json", "auth", "keys"])
    );
}

#[test]
fn success_passes_output_through() {
    let mut mock = MockRunner::new(vec![Ok(json(r#"{"id":"e9"}"#))]);
    let result = call(ToolRequest::EndpointsGet(EndpointId { id: "e9".into() }), &mut mock);
    let want: Value = serde_json::from_str(r#"{"id":"e9"}"#).unwrap();
    assert!(matches!(result, ToolReply::Output(CliOutput::Json(v)) if v == want));
}

#[test]
fn every_argv_starts_with_global_flags() {
    let base = base_args(Profile::Production);
    assert_eq!(base, strings(&["--profile", "production", "--output", "json"]));
    let reqs = vec![
        ToolRequest::EndpointsList(Empty {}),
        ToolRequest::EventTypesList(Empty {}),
        ToolRequest::AuthStatus(Empty {}),
        ToolRequest::DeliveriesGet(DeliveryId { id: "d".into() }),
    ];
    for r in reqs {
        assert_eq!(r.argv(Profile::Production)[..4].to_vec(), base);
    }
}
