use component_oauth_card::{describe_payload, handle_message};

#[test]
fn describe_mentions_world() {
    let payload = describe_payload();
    let json: serde_json::Value = serde_json::from_str(&payload).expect("describe should be json");
    assert_eq!(
        json["component"]["world"],
        "greentic:component/component@0.4.0"
    );
}

#[test]
fn handle_returns_needs_sign_in_when_no_token() {
    let mut request = serde_json::Map::new();
    request.insert("mode".to_string(), serde_json::Value::from("status-card"));
    request.insert("provider_id".to_string(), serde_json::Value::from("demo"));
    request.insert("subject".to_string(), serde_json::Value::from("user-1"));
    request.insert(
        "scopes".to_string(),
        serde_json::Value::Array(vec![serde_json::Value::from("openid")]),
    );
    let input = serde_json::Value::Object(request).to_string();
    let response = handle_message("invoke", &input);
    let json: serde_json::Value = serde_json::from_str(&response).expect("valid json");
    assert_eq!(json["status"], "needs-sign-in");
}

#[test]
fn describe_payload_is_json() {
    let payload = describe_payload();
    let json: serde_json::Value = serde_json::from_str(&payload)
        .unwrap_or_else(|err| panic!("valid json: {err}"));
    assert_eq!(json["component"]["name"], "component-oauth-card");
}

#[test]
fn describe_payload_lists_schemas() {
    let payload = describe_payload();
    assert_eq!(
        payload,
        "{\"component\":{\"name\":\"component-oauth-card\",\"org\":\"ai.greentic\",\
         \"schemas\":{\"component\":\"schemas/component.schema.json\",\
         \"input\":\"schemas/io/input.schema.json\",\
         \"output\":\"schemas/io/output.schema.json\"},\"version\":\"0.1.0\",\
         \"world\":\"greentic:component/component@0.4.0\"}}"
    );
}

#[test]
fn handle_message_reports_text_that_is_no_json() {
    let response = handle_message("invoke", "not json");
    let json: serde_json::Value = serde_json::from_str(&response).expect("valid json");
    assert_eq!(json["status"], "error");
    let error = json["error"].as_str().expect("error text");
    assert!(error.starts_with("parse error: input json: "));
    assert!(json["card"].is_null());
    assert!(json["auth_context"].is_null());
    assert!(json["auth_header"].is_null());
    assert!(json["state_id"].is_null());
}

#[test]
fn handle_message_reports_missing_field() {
    let response = handle_message("invoke", "{\"mode\":\"status-card\",\"subject\":\"u\"}");
    let json: serde_json::Value = serde_json::from_str(&response).expect("valid json");
    assert_eq!(json["status"], "error");
    assert_eq!(json["error"], "invalid input: provider_id is required");
}

#[test]
fn handle_message_reports_missing_auth_code() {
    let response = handle_message(
        "invoke",
        "{\"mode\":\"complete-sign-in\",\"provider_id\":\"demo\",\"subject\":\"u\"}",
    );
    let json: serde_json::Value = serde_json::from_str(&response).expect("valid json");
    assert_eq!(json["status"], "error");
    assert_eq!(
        json["error"],
        "invalid input: auth_code is required to complete sign-in"
    );
}

#[test]
fn handle_message_reports_exchange_without_host() {
    let response = handle_message(
        "invoke",
        "{\"mode\":\"complete-sign-in\",\"provider_id\":\"demo\",\"subject\":\"u\",\
         \"auth_code\":\"c\"}",
    );
    let json: serde_json::Value = serde_json::from_str(&response).expect("valid json");
    assert_eq!(json["status"], "error");
    assert_eq!(
        json["error"],
        "unsupported: exchange_code unavailable on native test backend"
    );
}

#[test]
fn handle_message_trims_and_ignores_the_operation() {
    let text = "  \n{\"mode\":\"disconnect\",\"provider_id\":\"demo\",\"subject\":\"u\"}\t ";
    let first = handle_message("invoke", text);
    let second = handle_message("anything", text);
    assert_eq!(first, second);
    let json: serde_json::Value = serde_json::from_str(&first).expect("valid json");
    assert_eq!(json["status"], "ok");
    assert_eq!(json["card"]["title"], "Disconnected from demo");
    assert_eq!(json["card"]["kind"], "oauth");
    assert_eq!(json["card"]["allow_markdown"], true);
    assert_eq!(json["card"]["actions"][0]["type"], "post_back");
    assert_eq!(json["card"]["actions"][0]["title"], "Reconnect");
    assert_eq!(json["card"]["actions"][0]["data"]["mode"], "start-sign-in");
    assert_eq!(json["card"]["oauth"]["provider"], "custom");
    assert!(json["card"]["oauth"].get("scopes").is_none());
    assert!(json["card"].get("footer").is_none());
    assert!(json["card"].get("images").is_none());
}

#[test]
fn handle_message_starts_a_sign_in_without_a_link() {
    let text = "{\"mode\":\"start-sign-in\",\"provider_id\":\"github\",\"subject\":\"u\",\
                \"state_id\":\"s-1\",\"scopes\":[\"repo\"]}";
    let response = handle_message("invoke", text);
    let json: serde_json::Value = serde_json::from_str(&response).expect("valid json");
    assert_eq!(json["status"], "ok");
    assert_eq!(json["state_id"], "s-1");
    let actions = json["card"]["actions"].as_array().expect("actions");
    assert_eq!(actions.len(), 1);
    assert_eq!(actions[0]["title"], "Continue");
    assert_eq!(actions[0]["data"]["state_id"], "s-1");
    assert_eq!(json["card"]["oauth"]["provider"], "github");
    assert_eq!(json["card"]["oauth"]["prompt"], "consent");
    assert_eq!(json["card"]["oauth"]["scopes"][0], "repo");
    assert!(json["card"]["oauth"].get("start_url").is_none());
}
