use component_oauth_card::decode::{
    decode_input, decode_token, parse_exchange_reply, parse_mode, parse_token_reply,
};
use component_oauth_card::{parse_input, OAuthCardError, OAuthCardInput, OAuthCardMode};

fn invalid(result: Result<OAuthCardInput, OAuthCardError>) -> String {
    match result {
        Err(OAuthCardError::Invalid(detail)) => detail,
        Err(other) => panic!("invalid was expected, not: {}", other.to_string()),
        Ok(_) => panic!("invalid was expected, not a request"),
    }
}

fn unparsed(result: Result<OAuthCardInput, OAuthCardError>) -> String {
    match result {
        Err(OAuthCardError::Parse(detail)) => detail,
        Err(other) => panic!("a parse error was expected, not: {}", other.to_string()),
        Ok(_) => panic!("a parse error was expected, not a request"),
    }
}

#[test]
fn parse_input_reads_every_field() {
    let text = "{\"mode\":\"start-sign-in\",\"provider_id\":\"msgraph\",\"subject\":\"user-1\",\
                \"tenant\":\"t-1\",\"team\":\"blue\",\"scopes\":[\"a\",\"b\"],\
                \"state_id\":\"s-1\",\"auth_code\":\"c-1\",\"allow_auto_sign_in\":true,\
                \"redirect_path\":\"/back\",\"extra_json\":{\"k\":[1,2]}}";
    let input = parse_input(text).expect("a request");
    assert_eq!(input.mode, OAuthCardMode::StartSignIn);
    assert_eq!(input.provider_id, "msgraph");
    assert_eq!(input.subject, "user-1");
    assert_eq!(input.tenant.as_deref(), Some("t-1"));
    assert_eq!(input.team.as_deref(), Some("blue"));
    assert_eq!(input.scopes, vec!["a".to_string(), "b".to_string()]);
    assert_eq!(input.state_id.as_deref(), Some("s-1"));
    assert_eq!(input.auth_code.as_deref(), Some("c-1"));
    assert!(input.allow_auto_sign_in);
    assert_eq!(input.redirect_path.as_deref(), Some("/back"));
    assert_eq!(
        input.extra_json.map(|v| v.to_string()).as_deref(),
        Some("{\"k\":[1,2]}")
    );
}

#[test]
fn parse_input_fills_in_the_defaults() {
    let input = parse_input("{\"mode\":\"status-card\",\"provider_id\":\"p\",\"subject\":\"s\"}")
        .expect("a request");
    assert_eq!(input.mode, OAuthCardMode::StatusCard);
    assert_eq!(input.tenant, None);
    assert_eq!(input.team, None);
    assert!(input.scopes.is_empty());
    assert_eq!(input.state_id, None);
    assert_eq!(input.auth_code, None);
    assert!(!input.allow_auto_sign_in);
    assert_eq!(input.redirect_path, None);
    assert!(input.extra_json.is_none());
}

#[test]
fn parse_input_trims_and_passes_over_what_it_does_not_know() {
    let text = " \t\r\n{\"mode\":\"ensure-token\",\"provider_id\":\"p\",\"subject\":\"s\",\
                \"later\":{\"x\":1},\"tenant\":null,\"extra_json\":null}\n\n ";
    let input = parse_input(text).expect("a request");
    assert_eq!(input.mode, OAuthCardMode::EnsureToken);
    assert_eq!(input.tenant, None);
    assert!(input.extra_json.is_none());
}

#[test]
fn parse_input_rejects_what_is_no_json() {
    assert!(unparsed(parse_input("")).starts_with("input json: "));
    assert!(unparsed(parse_input("{\"mode\":")).starts_with("input json: "));
    assert!(unparsed(parse_input("{} trailing")).starts_with("input json: "));
    assert_ne!(unparsed(parse_input("nope")), "input json: ");
}

#[test]
fn parse_input_rejects_what_is_no_object() {
    assert_eq!(
        unparsed(parse_input("[1,2]")),
        "input json: expected an object"
    );
    assert_eq!(
        unparsed(parse_input("\"status-card\"")),
        "input json: expected an object"
    );
    assert_eq!(unparsed(parse_input("null")), "input json: expected an object");
}

#[test]
fn parse_input_names_the_required_field_that_is_wrong() {
    assert_eq!(invalid(parse_input("{}")), "mode is required");
    assert_eq!(
        invalid(parse_input("{\"mode\":7,\"provider_id\":\"p\",\"subject\":\"s\"}")),
        "mode is required"
    );
    assert_eq!(
        invalid(parse_input("{\"mode\":\"\",\"provider_id\":\"p\",\"subject\":\"s\"}")),
        "mode must not be empty"
    );
    assert_eq!(
        invalid(parse_input(
            "{\"mode\":\"Status-Card\",\"provider_id\":\"p\",\"subject\":\"s\"}"
        )),
        "mode is not known"
    );
    assert_eq!(
        invalid(parse_input("{\"mode\":\"disconnect\",\"subject\":\"s\"}")),
        "provider_id is required"
    );
    assert_eq!(
        invalid(parse_input(
            "{\"mode\":\"disconnect\",\"provider_id\":null,\"subject\":\"s\"}"
        )),
        "provider_id is required"
    );
    assert_eq!(
        invalid(parse_input(
            "{\"mode\":\"disconnect\",\"provider_id\":\"\",\"subject\":\"s\"}"
        )),
        "provider_id must not be empty"
    );
    assert_eq!(
        invalid(parse_input("{\"mode\":\"disconnect\",\"provider_id\":\"p\"}")),
        "subject is required"
    );
    assert_eq!(
        invalid(parse_input(
            "{\"mode\":\"disconnect\",\"provider_id\":\"p\",\"subject\":\"\"}"
        )),
        "subject must not be empty"
    );
}

#[test]
fn parse_input_names_the_optional_field_that_is_wrong() {
    let with = |member: &str| {
        format!("{{\"mode\":\"disconnect\",\"provider_id\":\"p\",\"subject\":\"s\",{member}}}")
    };
    assert_eq!(
        unparsed(parse_input(&with("\"tenant\":1"))),
        "input json: tenant must be a string"
    );
    assert_eq!(
        unparsed(parse_input(&with("\"team\":[]"))),
        "input json: team must be a string"
    );
    assert_eq!(
        unparsed(parse_input(&with("\"scopes\":\"openid\""))),
        "input json: scopes must be a list of strings"
    );
    assert_eq!(
        unparsed(parse_input(&with("\"scopes\":[\"a\",2]"))),
        "input json: scopes must be a list of strings"
    );
    assert_eq!(
        unparsed(parse_input(&with("\"scopes\":null"))),
        "input json: scopes must be a list of strings"
    );
    assert_eq!(
        unparsed(parse_input(&with("\"state_id\":false"))),
        "input json: state_id must be a string"
    );
    assert_eq!(
        unparsed(parse_input(&with("\"auth_code\":{}"))),
        "input json: auth_code must be a string"
    );
    assert_eq!(
        unparsed(parse_input(&with("\"allow_auto_sign_in\":\"yes\""))),
        "input json: allow_auto_sign_in must be a boolean"
    );
    assert_eq!(
        unparsed(parse_input(&with("\"allow_auto_sign_in\":null"))),
        "input json: allow_auto_sign_in must be a boolean"
    );
    assert_eq!(
        unparsed(parse_input(&with("\"redirect_path\":0"))),
        "input json: redirect_path must be a string"
    );
}

#[test]
fn parse_input_reports_the_first_flaw() {
    assert_eq!(
        invalid(parse_input("{\"mode\":\"x\",\"tenant\":1}")),
        "mode is not known"
    );
    assert_eq!(
        unparsed(parse_input(
            "{\"mode\":\"complete-sign-in\",\"provider_id\":\"p\",\"subject\":\"s\",\
             \"scopes\":3}"
        )),
        "input json: scopes must be a list of strings"
    );
}

#[test]
fn complete_sign_in_must_bring_its_code() {
    assert_eq!(
        invalid(parse_input(
            "{\"mode\":\"complete-sign-in\",\"provider_id\":\"p\",\"subject\":\"s\"}"
        )),
        "auth_code is required to complete sign-in"
    );
    assert_eq!(
        invalid(parse_input(
            "{\"mode\":\"complete-sign-in\",\"provider_id\":\"p\",\"subject\":\"s\",\
             \"auth_code\":null}"
        )),
        "auth_code is required to complete sign-in"
    );
    let input = parse_input(
        "{\"mode\":\"complete-sign-in\",\"provider_id\":\"p\",\"subject\":\"s\",\
         \"auth_code\":\"c\"}",
    )
    .expect("a request");
    assert_eq!(input.auth_code.as_deref(), Some("c"));
}

#[test]
fn decode_input_reads_a_value() {
    let mut request = serde_json::Map::new();
    request.insert("mode".to_string(), serde_json::Value::from("disconnect"));
    request.insert("provider_id".to_string(), serde_json::Value::from("p"));
    request.insert("subject".to_string(), serde_json::Value::from("s"));
    request.insert("allow_auto_sign_in".to_string(), serde_json::Value::Bool(true));
    let input = decode_input(&serde_json::Value::Object(request)).expect("a request");
    assert_eq!(input.mode, OAuthCardMode::Disconnect);
    assert!(input.allow_auto_sign_in);
    assert_eq!(
        unparsed(decode_input(&serde_json::Value::Bool(true))),
        "input json: expected an object"
    );
}

#[test]
fn modes_are_read_from_their_names() {
    assert_eq!(parse_mode("status-card"), Some(OAuthCardMode::StatusCard));
    assert_eq!(parse_mode("start-sign-in"), Some(OAuthCardMode::StartSignIn));
    assert_eq!(
        parse_mode("complete-sign-in"),
        Some(OAuthCardMode::CompleteSignIn)
    );
    assert_eq!(parse_mode("ensure-token"), Some(OAuthCardMode::EnsureToken));
    assert_eq!(parse_mode("disconnect"), Some(OAuthCardMode::Disconnect));
    assert_eq!(parse_mode("status_card"), None);
    assert_eq!(parse_mode(""), None);
}

#[test]
fn token_reply_may_be_empty() {
    assert!(matches!(parse_token_reply(""), Ok(None)));
    match parse_token_reply(" ") {
        Err(OAuthCardError::Parse(detail)) => assert!(detail.starts_with("token json: ")),
        _ => panic!("a parse error was expected"),
    }
}

#[test]
fn token_reply_is_read() {
    let token = parse_token_reply(
        "{\"access_token\":\"abc\",\"refresh_token\":\"r\",\"expires_at\":18446744073709551615,\
         \"token_type\":\"Bearer\",\"extra\":{\"email\":\"e@x\"},\"more\":1}",
    )
    .expect("a reply")
    .expect("a token");
    assert_eq!(token.access_token, "abc");
    assert_eq!(token.refresh_token.as_deref(), Some("r"));
    assert_eq!(token.expires_at, Some(u64::MAX));
    assert_eq!(token.token_type.as_deref(), Some("Bearer"));
    assert_eq!(
        token.extra.map(|v| v.to_string()).as_deref(),
        Some("{\"email\":\"e@x\"}")
    );
    let bare = parse_exchange_reply("{\"access_token\":\"\"}").expect("a token");
    assert_eq!(bare.access_token, "");
    assert_eq!(bare.refresh_token, None);
    assert_eq!(bare.expires_at, None);
    assert_eq!(bare.token_type, None);
    assert!(bare.extra.is_none());
}

#[test]
fn token_flaws_are_parse_errors() {
    let flaw = |text: &str| match parse_exchange_reply(text) {
        Err(OAuthCardError::Parse(detail)) => detail,
        _ => panic!("a parse error was expected"),
    };
    assert!(flaw("").starts_with("exchange json: "));
    assert_eq!(flaw("[]"), "exchange json: expected an object");
    assert_eq!(flaw("{}"), "exchange json: access_token must be a string");
    assert_eq!(
        flaw("{\"access_token\":null}"),
        "exchange json: access_token must be a string"
    );
    assert_eq!(
        flaw("{\"access_token\":\"a\",\"refresh_token\":1}"),
        "exchange json: refresh_token must be a string"
    );
    assert_eq!(
        flaw("{\"access_token\":\"a\",\"expires_at\":-1}"),
        "exchange json: expires_at must be an unsigned integer"
    );
    assert_eq!(
        flaw("{\"access_token\":\"a\",\"expires_at\":1.5}"),
        "exchange json: expires_at must be an unsigned integer"
    );
    assert_eq!(
        flaw("{\"access_token\":\"a\",\"expires_at\":\"1\"}"),
        "exchange json: expires_at must be an unsigned integer"
    );
    assert_eq!(
        flaw("{\"access_token\":\"a\",\"token_type\":true}"),
        "exchange json: token_type must be a string"
    );
    match decode_token(&serde_json::Value::Null, "ctx: ") {
        Err(OAuthCardError::Parse(detail)) => assert_eq!(detail, "ctx: expected an object"),
        _ => panic!("a parse error was expected"),
    }
}
