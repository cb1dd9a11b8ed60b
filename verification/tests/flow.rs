use component_oauth_card::logic::{
    action, auth_context, auth_header, base_card, complete_sign_in_answer, connect_prompt_card,
    connected_card, ensure_token_answer, handle, provider_from_id, redirect_path,
    resolve_state_id, sign_in_answer, sign_in_card, status_card_answer,
};
use component_oauth_card::{
    Action, MessageCard, MessageCardKind, MockBroker, NoopBroker, OAuthBackend, OAuthCardError,
    OAuthCardInput, OAuthCardMode, OAuthCardOutput, OAuthStatus, OauthPrompt, OauthProvider,
    TokenSet,
};

fn email_claims() -> serde_json::Value {
    let mut claims = serde_json::Map::new();
    claims.insert(
        "email".to_string(),
        serde_json::Value::from("user@example.com"),
    );
    serde_json::Value::Object(claims)
}

fn request(mode: OAuthCardMode) -> OAuthCardInput {
    OAuthCardInput {
        mode,
        provider_id: "msgraph".into(),
        subject: "user-1".into(),
        tenant: None,
        team: None,
        scopes: vec![],
        state_id: None,
        auth_code: None,
        allow_auto_sign_in: false,
        redirect_path: None,
        extra_json: None,
    }
}

fn plain_token() -> TokenSet {
    TokenSet {
        access_token: "token123".into(),
        refresh_token: None,
        expires_at: None,
        token_type: None,
        extra: None,
    }
}

fn post_back_data(action: &Action) -> &serde_json::Value {
    match action {
        Action::PostBack { data, .. } => data,
        Action::OpenUrl { .. } => panic!("a post-back was expected"),
    }
}

/// A broker that fails on every call, and counts the calls.
struct FailingBroker {
    calls: std::cell::Cell<u32>,
}

impl OAuthBackend for FailingBroker {
    fn get_token(
        &self,
        _provider_id: &str,
        _subject: &str,
        _scopes: &[String],
    ) -> Result<Option<TokenSet>, OAuthCardError> {
        self.calls.set(self.calls.get() + 1);
        Err(OAuthCardError::Unsupported("no tokens here".into()))
    }

    fn get_consent_url(
        &self,
        _provider_id: &str,
        _subject: &str,
        _scopes: &[String],
        _redirect_path: &str,
        _extra_json: Option<String>,
    ) -> Result<String, OAuthCardError> {
        self.calls.set(self.calls.get() + 1);
        Err(OAuthCardError::Unsupported("no consent here".into()))
    }

    fn exchange_code(
        &self,
        _provider_id: &str,
        _subject: &str,
        _code: &str,
        _redirect_path: &str,
    ) -> Result<TokenSet, OAuthCardError> {
        self.calls.set(self.calls.get() + 1);
        Err(OAuthCardError::Parse("exchange json: broken".into()))
    }
}

/// A broker that records what it was asked.
struct RecordingBroker {
    seen: std::cell::RefCell<Vec<String>>,
}

impl OAuthBackend for RecordingBroker {
    fn get_token(
        &self,
        provider_id: &str,
        subject: &str,
        scopes: &[String],
    ) -> Result<Option<TokenSet>, OAuthCardError> {
        self.seen
            .borrow_mut()
            .push(format!("token {provider_id} {subject} {scopes:?}"));
        Ok(None)
    }

    fn get_consent_url(
        &self,
        provider_id: &str,
        subject: &str,
        scopes: &[String],
        redirect_path: &str,
        extra_json: Option<String>,
    ) -> Result<String, OAuthCardError> {
        self.seen.borrow_mut().push(format!(
            "consent {provider_id} {subject} {scopes:?} {redirect_path} {extra_json:?}"
        ));
        Ok("https://consent/recorded".into())
    }

    fn exchange_code(
        &self,
        provider_id: &str,
        subject: &str,
        code: &str,
        redirect_path: &str,
    ) -> Result<TokenSet, OAuthCardError> {
        self.seen
            .borrow_mut()
            .push(format!("exchange {provider_id} {subject} {code} {redirect_path}"));
        Ok(plain_token())
    }
}

#[test]
fn status_card_connected() {
    let backend = MockBroker {
        token: Some(TokenSet {
            access_token: "token123".into(),
            refresh_token: None,
            expires_at: Some(123),
            token_type: Some("Bearer".into()),
            extra: Some(email_claims()),
        }),
        consent_url: "https://consent".into(),
    };
    let input = OAuthCardInput {
        mode: OAuthCardMode::StatusCard,
        provider_id: "msgraph".into(),
        subject: "user-1".into(),
        tenant: Some("tenant-1".into()),
        team: Some("team-1".into()),
        scopes: vec!["scope-a".into()],
        state_id: None,
        auth_code: None,
        allow_auto_sign_in: false,
        redirect_path: None,
        extra_json: None,
    };

    let output =
        handle(&backend, input).unwrap_or_else(|err| panic!("status ok: {}", err.to_string()));
    assert_eq!(output.status, OAuthStatus::Okay);
    assert!(output.auth_header.is_some());
    assert!(output.card.is_some());
}

#[test]
fn ensure_token_prompts_sign_in() {
    let backend = MockBroker {
        token: None,
        consent_url: "https://consent/start".into(),
    };
    let input = OAuthCardInput {
        mode: OAuthCardMode::EnsureToken,
        provider_id: "msgraph".into(),
        subject: "user-1".into(),
        tenant: None,
        team: None,
        scopes: vec![],
        state_id: None,
        auth_code: None,
        allow_auto_sign_in: true,
        redirect_path: None,
        extra_json: None,
    };

    let output = handle(&backend, input)
        .unwrap_or_else(|err| panic!("needs sign-in: {}", err.to_string()));
    assert_eq!(output.status, OAuthStatus::NeedsSignIn);
    assert!(output.card.is_some());
}

#[test]
fn start_sign_in_returns_state_and_card() {
    let backend = MockBroker {
        token: None,
        consent_url: "https://consent/start".into(),
    };
    let input = OAuthCardInput {
        mode: OAuthCardMode::StartSignIn,
        provider_id: "msgraph".into(),
        subject: "user-1".into(),
        tenant: None,
        team: None,
        scopes: vec!["openid".into()],
        state_id: None,
        auth_code: None,
        allow_auto_sign_in: false,
        redirect_path: Some("/oauth/callback/msgraph".into()),
        extra_json: None,
    };

    let output = handle(&backend, input)
        .unwrap_or_else(|err| panic!("start sign-in: {}", err.to_string()));
    assert_eq!(output.status, OAuthStatus::Okay);
    assert!(output.state_id.is_some());
    let card = if let Some(card) = output.card {
        card
    } else {
        panic!("card present")
    };
    assert_eq!(card.title.as_deref(), Some("Connect msgraph account"));
    let oauth = if let Some(oauth) = card.oauth {
        oauth
    } else {
        panic!("oauth payload")
    };
    assert_eq!(oauth.start_url.as_deref(), Some("https://consent/start"));
    assert!(card.actions.iter().any(|a| matches!(
        a,
        Action::OpenUrl { url, .. } if url == "https://consent/start"
    )));
}

#[test]
fn complete_sign_in_yields_auth_header() {
    let backend = MockBroker {
        token: Some(TokenSet {
            access_token: "token123".into(),
            refresh_token: Some("refresh".into()),
            expires_at: Some(999),
            token_type: Some("Bearer".into()),
            extra: Some(email_claims()),
        }),
        consent_url: "https://consent/start".into(),
    };
    let input = OAuthCardInput {
        mode: OAuthCardMode::CompleteSignIn,
        provider_id: "msgraph".into(),
        subject: "user-1".into(),
        tenant: Some("t".into()),
        team: Some("team-1".into()),
        scopes: vec!["openid".into()],
        state_id: Some("state-1".into()),
        auth_code: Some("code-123".into()),
        allow_auto_sign_in: false,
        redirect_path: None,
        extra_json: None,
    };

    let output = handle(&backend, input)
        .unwrap_or_else(|err| panic!("complete sign-in: {}", err.to_string()));
    assert_eq!(output.status, OAuthStatus::Okay);
    assert!(output.auth_header.is_some());
    let auth_header = output
        .auth_header
        .unwrap_or_else(|| panic!("auth header present"));
    let auth = auth_header
        .headers
        .iter()
        .find(|(k, _)| k == "Authorization")
        .map(|(_, v)| v.as_str());
    assert_eq!(auth, Some("Bearer token123"));
    assert_eq!(
        output.auth_context.and_then(|ctx| ctx.email).as_deref(),
        Some("user@example.com")
    );
}

#[test]
fn disconnect_returns_reconnect_card() {
    let backend = MockBroker {
        token: None,
        consent_url: "https://consent/start".into(),
    };
    let input = OAuthCardInput {
        mode: OAuthCardMode::Disconnect,
        provider_id: "msgraph".into(),
        subject: "user-1".into(),
        tenant: None,
        team: None,
        scopes: vec!["openid".into()],
        state_id: None,
        auth_code: None,
        allow_auto_sign_in: false,
        redirect_path: None,
        extra_json: None,
    };

    let output = handle(&backend, input)
        .unwrap_or_else(|err| panic!("disconnect card: {}", err.to_string()));
    assert_eq!(output.status, OAuthStatus::Okay);
    let card = if let Some(card) = output.card {
        card
    } else {
        panic!("card present")
    };
    assert!(card
        .title
        .as_deref()
        .unwrap_or_default()
        .contains("Disconnected"));
    assert!(card.actions.iter().any(|a| matches!(
        a,
        Action::PostBack { data, .. }
            if data.get("mode").and_then(|v| v.as_str()) == Some("start-sign-in")
    )));
}

#[test]
fn status_card_with_token_and_no_type_says_bearer() {
    let backend = MockBroker {
        token: Some(plain_token()),
        consent_url: String::new(),
    };
    let output = handle(&backend, request(OAuthCardMode::StatusCard)).expect("answer");
    assert_eq!(output.status, OAuthStatus::Okay);
    let header = output.auth_header.expect("header");
    assert_eq!(
        header.headers,
        vec![("Authorization".to_string(), "Bearer token123".to_string())]
    );
    assert!(output.card.is_some());
    assert!(output.auth_context.is_some());
    assert!(output.state_id.is_none());
    assert!(output.error.is_none());
}

#[test]
fn status_card_without_token_asks_to_sign_in() {
    let backend = MockBroker {
        token: None,
        consent_url: "https://consent/start".into(),
    };
    let output = handle(&backend, request(OAuthCardMode::StatusCard)).expect("answer");
    assert_eq!(output.status, OAuthStatus::NeedsSignIn);
    let card = output.card.expect("card");
    assert!(output.auth_context.is_none());
    assert!(output.auth_header.is_none());
    assert!(output.state_id.is_none());
    assert!(output.error.is_none());
    assert_eq!(card.title.as_deref(), Some("Connect msgraph account"));
    assert_eq!(card.actions.len(), 1);
    let data = post_back_data(&card.actions[0]);
    assert_eq!(data["mode"], "complete-sign-in");
    assert_eq!(data["state_id"].as_str().map(|s| s.len()), Some(36));
    let oauth = card.oauth.expect("oauth");
    assert_eq!(oauth.start_url, None);
    assert_eq!(oauth.prompt, Some(OauthPrompt::Consent));
}

#[test]
fn ensure_token_auto_sign_in_carries_the_consent_url() {
    let backend = MockBroker {
        token: None,
        consent_url: "https://consent/start".into(),
    };
    let mut input = request(OAuthCardMode::EnsureToken);
    input.allow_auto_sign_in = true;
    let output = handle(&backend, input).expect("answer");
    assert_eq!(output.status, OAuthStatus::NeedsSignIn);
    let card = output.card.expect("card");
    let oauth = card.oauth.expect("oauth");
    assert_eq!(oauth.start_url.as_deref(), Some("https://consent/start"));
    let state = output.state_id.expect("state");
    assert_eq!(card.actions.len(), 2);
    assert_eq!(post_back_data(&card.actions[1])["state_id"], state.as_str());
    assert!(output.auth_context.is_none());
    assert!(output.auth_header.is_none());
}

#[test]
fn ensure_token_without_auto_sign_in_has_no_card() {
    let backend = MockBroker {
        token: None,
        consent_url: "https://consent/start".into(),
    };
    let output = handle(&backend, request(OAuthCardMode::EnsureToken)).expect("answer");
    assert_eq!(output.status, OAuthStatus::NeedsSignIn);
    assert!(output.card.is_none());
    assert!(output.auth_context.is_none());
    assert!(output.auth_header.is_none());
    assert!(output.state_id.is_none());
    assert!(output.error.is_none());
}

#[test]
fn ensure_token_with_token_has_no_card() {
    let backend = MockBroker {
        token: Some(TokenSet {
            access_token: "abc".into(),
            refresh_token: None,
            expires_at: Some(77),
            token_type: Some("MAC".into()),
            extra: None,
        }),
        consent_url: String::new(),
    };
    let mut input = request(OAuthCardMode::EnsureToken);
    input.tenant = Some("t-1".into());
    input.scopes = vec!["a".into(), "b".into()];
    let output = handle(&backend, input).expect("answer");
    assert_eq!(output.status, OAuthStatus::Okay);
    assert!(output.card.is_none());
    assert!(output.state_id.is_none());
    let header = output.auth_header.expect("header");
    assert_eq!(
        header.headers,
        vec![("Authorization".to_string(), "MAC abc".to_string())]
    );
    let context = output.auth_context.expect("context");
    assert_eq!(context.provider_id, "msgraph");
    assert_eq!(context.subject, "user-1");
    assert_eq!(context.email, None);
    assert_eq!(context.tenant.as_deref(), Some("t-1"));
    assert_eq!(context.team, None);
    assert_eq!(context.scopes, vec!["a".to_string(), "b".to_string()]);
    assert_eq!(context.expires_at, Some(77));
}

#[test]
fn start_sign_in_hands_the_default_redirect_path_to_the_broker() {
    let backend = RecordingBroker {
        seen: std::cell::RefCell::new(Vec::new()),
    };
    let mut input = request(OAuthCardMode::StartSignIn);
    input.scopes = vec!["openid".into()];
    let mut extra = serde_json::Map::new();
    extra.insert("tenant".to_string(), serde_json::Value::from("common"));
    input.extra_json = Some(serde_json::Value::Object(extra));
    let output = handle(&backend, input).expect("answer");
    assert_eq!(
        backend.seen.borrow().as_slice(),
        ["consent msgraph user-1 [\"openid\"] /oauth/callback/msgraph \
          Some(\"{\\\"tenant\\\":\\\"common\\\"}\")"
            .to_string()]
    );
    let state = output.state_id.expect("state");
    assert_eq!(state.len(), 36);
    let card = output.card.expect("card");
    let last = card.actions.last().expect("an action");
    match last {
        Action::PostBack { title, data } => {
            assert_eq!(title, "Continue");
            assert_eq!(data["state_id"], state.as_str());
            assert_eq!(data["mode"], "complete-sign-in");
        }
        Action::OpenUrl { .. } => panic!("the last action is the post-back"),
    }
}

#[test]
fn start_sign_in_keeps_the_given_state_and_redirect_path() {
    let backend = RecordingBroker {
        seen: std::cell::RefCell::new(Vec::new()),
    };
    let mut input = request(OAuthCardMode::StartSignIn);
    input.state_id = Some("state-9".into());
    input.redirect_path = Some("/back".into());
    let output = handle(&backend, input).expect("answer");
    assert_eq!(output.state_id.as_deref(), Some("state-9"));
    assert_eq!(
        backend.seen.borrow().as_slice(),
        ["consent msgraph user-1 [] /back None".to_string()]
    );
}

#[test]
fn start_sign_in_survives_a_failing_broker() {
    let backend = FailingBroker {
        calls: std::cell::Cell::new(0),
    };
    let output = handle(&backend, request(OAuthCardMode::StartSignIn)).expect("answer");
    assert_eq!(backend.calls.get(), 1);
    assert_eq!(output.status, OAuthStatus::Okay);
    let card = output.card.expect("card");
    assert_eq!(card.actions.len(), 1);
    assert_eq!(card.oauth.expect("oauth").start_url, None);
}

#[test]
fn complete_sign_in_without_code_is_invalid_and_asks_nobody() {
    let backend = FailingBroker {
        calls: std::cell::Cell::new(0),
    };
    let result = handle(&backend, request(OAuthCardMode::CompleteSignIn));
    match result {
        Err(OAuthCardError::Invalid(detail)) => {
            assert_eq!(detail, "auth_code is required to complete sign-in")
        }
        _ => panic!("an invalid request was expected"),
    }
    assert_eq!(backend.calls.get(), 0);
}

#[test]
fn complete_sign_in_hands_code_and_path_to_the_broker() {
    let backend = RecordingBroker {
        seen: std::cell::RefCell::new(Vec::new()),
    };
    let mut input = request(OAuthCardMode::CompleteSignIn);
    input.auth_code = Some("code-1".into());
    let output = handle(&backend, input).expect("answer");
    assert_eq!(
        backend.seen.borrow().as_slice(),
        ["exchange msgraph user-1 code-1 /oauth/callback/msgraph".to_string()]
    );
    assert_eq!(output.status, OAuthStatus::Okay);
    assert!(output.state_id.is_none());
    assert_eq!(
        output.card.expect("card").title.as_deref(),
        Some("Connected: msgraph")
    );
}

#[test]
fn broker_errors_pass_through_unchanged() {
    let backend = FailingBroker {
        calls: std::cell::Cell::new(0),
    };
    match handle(&backend, request(OAuthCardMode::StatusCard)) {
        Err(OAuthCardError::Unsupported(detail)) => assert_eq!(detail, "no tokens here"),
        _ => panic!("the broker's error was expected"),
    }
    match handle(&backend, request(OAuthCardMode::EnsureToken)) {
        Err(OAuthCardError::Unsupported(detail)) => assert_eq!(detail, "no tokens here"),
        _ => panic!("the broker's error was expected"),
    }
    let mut input = request(OAuthCardMode::CompleteSignIn);
    input.auth_code = Some("c".into());
    match handle(&backend, input) {
        Err(OAuthCardError::Parse(detail)) => assert_eq!(detail, "exchange json: broken"),
        _ => panic!("the broker's error was expected"),
    }
}

#[test]
fn disconnect_asks_nobody() {
    let backend = FailingBroker {
        calls: std::cell::Cell::new(0),
    };
    let mut input = request(OAuthCardMode::Disconnect);
    input.scopes = vec!["openid".into()];
    let output = handle(&backend, input).expect("answer");
    assert_eq!(backend.calls.get(), 0);
    assert_eq!(output.status, OAuthStatus::Okay);
    assert!(output.auth_context.is_none());
    assert!(output.auth_header.is_none());
    assert!(output.state_id.is_none());
    assert!(output.error.is_none());
    let card = output.card.expect("card");
    assert_eq!(card.kind, MessageCardKind::Oauth);
    assert_eq!(card.title.as_deref(), Some("Disconnected from msgraph"));
    assert_eq!(
        card.text.as_deref(),
        Some("You can reconnect this account at any time.")
    );
    assert!(card.allow_markdown);
    assert_eq!(card.actions.len(), 1);
    match &card.actions[0] {
        Action::PostBack { title, data } => {
            assert_eq!(title, "Reconnect");
            assert_eq!(
                data.to_string(),
                "{\"mode\":\"start-sign-in\",\"provider_id\":\"msgraph\",\
                 \"scopes\":[\"openid\"],\"state_id\":null,\"subject\":\"user-1\"}"
            );
        }
        Action::OpenUrl { .. } => panic!("a post-back was expected"),
    }
    let oauth = card.oauth.expect("oauth");
    assert_eq!(oauth.provider, OauthProvider::Microsoft);
    assert_eq!(oauth.scopes, vec!["openid".to_string()]);
    assert_eq!(oauth.prompt, None);
    assert_eq!(oauth.start_url, None);
    assert_eq!(
        oauth.metadata.expect("metadata").to_string(),
        "{\"provider_id\":\"msgraph\",\"subject\":\"user-1\"}"
    );
}

#[test]
fn provider_is_derived_whatever_the_case() {
    assert_eq!(provider_from_id("MSGraph"), OauthProvider::Microsoft);
    assert_eq!(provider_from_id("microsoft"), OauthProvider::Microsoft);
    assert_eq!(provider_from_id("M365"), OauthProvider::Microsoft);
    assert_eq!(provider_from_id("Google"), OauthProvider::Google);
    assert_eq!(provider_from_id("GITHUB"), OauthProvider::Github);
    assert_eq!(provider_from_id("salesforce"), OauthProvider::Custom);
    assert_eq!(provider_from_id(""), OauthProvider::Custom);
    assert_eq!(provider_from_id("github "), OauthProvider::Custom);
}

#[test]
fn redirect_path_defaults_to_the_callback_of_the_provider() {
    let mut input = request(OAuthCardMode::StartSignIn);
    assert_eq!(redirect_path(&input), "/oauth/callback/msgraph");
    input.redirect_path = Some("/elsewhere".into());
    assert_eq!(redirect_path(&input), "/elsewhere");
}

#[test]
fn fresh_states_differ() {
    let first = resolve_state_id(&None);
    let second = resolve_state_id(&None);
    assert_eq!(first.len(), 36);
    assert_eq!(second.len(), 36);
    assert_ne!(first, second);
    assert_eq!(resolve_state_id(&Some("given".to_string())), "given");
}

#[test]
fn sign_in_card_with_team_and_link() {
    let mut input = request(OAuthCardMode::StartSignIn);
    input.team = Some("blue".into());
    input.scopes = vec!["openid".into()];
    let card = sign_in_card(&input, "state-1", "https://consent/x");
    assert_eq!(card.kind, MessageCardKind::Oauth);
    assert_eq!(card.title.as_deref(), Some("Connect msgraph account"));
    assert_eq!(
        card.text.as_deref(),
        Some("Click Connect to sign in as user-1 (team blue).")
    );
    assert_eq!(card.footer, None);
    assert!(card.images.is_empty());
    assert!(card.allow_markdown);
    assert_eq!(card.adaptive, None);
    assert_eq!(card.actions.len(), 2);
    assert_eq!(
        card.actions[0],
        Action::OpenUrl {
            title: "Connect".into(),
            url: "https://consent/x".into()
        }
    );
    match &card.actions[1] {
        Action::PostBack { title, data } => {
            assert_eq!(title, "Continue");
            assert_eq!(
                data.to_string(),
                "{\"mode\":\"complete-sign-in\",\"provider_id\":\"msgraph\",\
                 \"scopes\":[\"openid\"],\"state_id\":\"state-1\",\"subject\":\"user-1\"}"
            );
        }
        Action::OpenUrl { .. } => panic!("a post-back was expected"),
    }
    let oauth = card.oauth.expect("oauth");
    assert_eq!(oauth.provider, OauthProvider::Microsoft);
    assert_eq!(oauth.scopes, vec!["openid".to_string()]);
    assert_eq!(oauth.resource, None);
    assert_eq!(oauth.prompt, Some(OauthPrompt::Consent));
    assert_eq!(oauth.start_url.as_deref(), Some("https://consent/x"));
    assert_eq!(oauth.connection_name, None);
    assert_eq!(
        oauth.metadata.expect("metadata").to_string(),
        "{\"provider_id\":\"msgraph\",\"state_id\":\"state-1\",\"subject\":\"user-1\"}"
    );
}

#[test]
fn sign_in_card_without_team_or_link() {
    let card = sign_in_card(&request(OAuthCardMode::StartSignIn), "s", "");
    assert_eq!(
        card.text.as_deref(),
        Some("Click Connect to sign in as user-1.")
    );
    assert_eq!(card.actions.len(), 1);
    assert!(matches!(card.actions[0], Action::PostBack { .. }));
    assert_eq!(card.oauth.expect("oauth").start_url, None);
}

#[test]
fn connect_prompt_card_uses_the_given_state() {
    let input = request(OAuthCardMode::StatusCard);
    let card = connect_prompt_card(&input, Some("kept".into()));
    assert_eq!(card.actions.len(), 1);
    assert_eq!(post_back_data(&card.actions[0])["state_id"], "kept");
    let fresh = connect_prompt_card(&input, None);
    assert_eq!(
        post_back_data(&fresh.actions[0])["state_id"]
            .as_str()
            .map(|s| s.len()),
        Some(36)
    );
}

#[test]
fn connected_card_lists_its_actions_in_order() {
    let mut input = request(OAuthCardMode::StatusCard);
    input.team = Some("blue".into());
    let mut token = plain_token();
    token.expires_at = Some(4102444800);
    let card = connected_card(&input, &token, "Connected");
    assert_eq!(card.title.as_deref(), Some("Connected: msgraph"));
    assert_eq!(
        card.text.as_deref(),
        Some("Signed in as user-1 (team blue).")
    );
    let titles: Vec<String> = card
        .actions
        .iter()
        .map(|a| match a {
            Action::PostBack { title, .. } => title.clone(),
            Action::OpenUrl { title, .. } => title.clone(),
        })
        .collect();
    assert_eq!(
        titles,
        vec!["Refresh token", "Use different account", "Disconnect"]
    );
    let modes: Vec<String> = card
        .actions
        .iter()
        .map(|a| post_back_data(a)["mode"].as_str().unwrap_or_default().to_string())
        .collect();
    assert_eq!(modes, vec!["ensure-token", "start-sign-in", "disconnect"]);
    assert!(post_back_data(&card.actions[0])["state_id"].is_null());
    let oauth = card.oauth.expect("oauth");
    assert_eq!(oauth.prompt, None);
    assert_eq!(oauth.start_url, None);
    assert_eq!(
        oauth.metadata.expect("metadata").to_string(),
        "{\"expires_at\":4102444800,\"provider_id\":\"msgraph\",\"subject\":\"user-1\"}"
    );
    let without = connected_card(&input, &plain_token(), "Linked");
    assert_eq!(without.title.as_deref(), Some("Linked: msgraph"));
    assert_eq!(
        without.oauth.expect("oauth").metadata.expect("metadata").to_string(),
        "{\"expires_at\":null,\"provider_id\":\"msgraph\",\"subject\":\"user-1\"}"
    );
}

#[test]
fn email_is_read_only_from_a_string_claim() {
    let input = request(OAuthCardMode::StatusCard);
    let mut token = plain_token();
    token.extra = Some(email_claims());
    assert_eq!(
        auth_context(&input, &token).email.as_deref(),
        Some("user@example.com")
    );
    let mut claims = serde_json::Map::new();
    claims.insert("email".to_string(), serde_json::Value::from(7u64));
    token.extra = Some(serde_json::Value::Object(claims));
    assert_eq!(auth_context(&input, &token).email, None);
    token.extra = Some(serde_json::Value::from("user@example.com"));
    assert_eq!(auth_context(&input, &token).email, None);
    token.extra = Some(serde_json::Value::Object(serde_json::Map::new()));
    assert_eq!(auth_context(&input, &token).email, None);
    token.extra = None;
    assert_eq!(auth_context(&input, &token).email, None);
}

#[test]
fn auth_header_uses_the_token_type() {
    let mut token = plain_token();
    assert_eq!(
        auth_header(&token).headers,
        vec![("Authorization".to_string(), "Bearer token123".to_string())]
    );
    token.token_type = Some("DPoP".into());
    assert_eq!(
        auth_header(&token).headers,
        vec![("Authorization".to_string(), "DPoP token123".to_string())]
    );
}

#[test]
fn action_carries_the_request() {
    let mut input = request(OAuthCardMode::StatusCard);
    input.scopes = vec!["a".into(), "b".into()];
    let built = action("Go", OAuthCardMode::EnsureToken, &input, Some("s-1".into()));
    match built {
        Action::PostBack { title, data } => {
            assert_eq!(title, "Go");
            assert_eq!(data["mode"], "ensure-token");
            assert_eq!(data["provider_id"], "msgraph");
            assert_eq!(data["subject"], "user-1");
            assert_eq!(data["state_id"], "s-1");
            assert_eq!(data["scopes"][0], "a");
            assert_eq!(data["scopes"][1], "b");
            assert_eq!(data.as_object().map(|m| m.len()), Some(5));
        }
        Action::OpenUrl { .. } => panic!("a post-back was expected"),
    }
}

#[test]
fn base_card_allows_markdown() {
    let card = base_card(MessageCardKind::Standard, Some("t".into()), None);
    assert_eq!(
        card,
        MessageCard {
            kind: MessageCardKind::Standard,
            title: Some("t".into()),
            text: None,
            footer: None,
            images: vec![],
            actions: vec![],
            allow_markdown: true,
            adaptive: None,
            oauth: None,
        }
    );
    assert_eq!(MessageCard::default().kind, MessageCardKind::Standard);
    assert!(MessageCard::default().allow_markdown);
    assert!(component_oauth_card::model::default_true());
}

#[test]
fn answers_follow_the_broker_reply() {
    let input = request(OAuthCardMode::StatusCard);
    let failed = status_card_answer(&input, Err(OAuthCardError::Parse("p".into())));
    assert!(matches!(failed, Err(OAuthCardError::Parse(ref d)) if d == "p"));
    let connected = status_card_answer(&input, Ok(Some(plain_token()))).expect("answer");
    assert_eq!(connected.status, OAuthStatus::Okay);
    let prompt = status_card_answer(&input, Ok(None)).expect("answer");
    assert_eq!(prompt.status, OAuthStatus::NeedsSignIn);

    let done = complete_sign_in_answer(&input, Ok(plain_token())).expect("answer");
    assert_eq!(done.status, OAuthStatus::Okay);
    assert!(done.card.is_some());
    let broken = complete_sign_in_answer(&input, Err(OAuthCardError::Unsupported("u".into())));
    assert!(matches!(broken, Err(OAuthCardError::Unsupported(ref d)) if d == "u"));

    let mut ensure = request(OAuthCardMode::EnsureToken);
    let bare = ensure_token_answer(&ensure, Ok(None)).expect("step").expect("answer");
    assert_eq!(bare.status, OAuthStatus::NeedsSignIn);
    assert!(bare.card.is_none());
    ensure.allow_auto_sign_in = true;
    assert!(ensure_token_answer(&ensure, Ok(None)).expect("step").is_none());
    let held = ensure_token_answer(&ensure, Ok(Some(plain_token())))
        .expect("step")
        .expect("answer");
    assert_eq!(held.status, OAuthStatus::Okay);
    assert!(held.card.is_none());
    assert!(ensure_token_answer(&ensure, Err(OAuthCardError::Parse("p".into()))).is_err());

    let out: OAuthCardOutput = sign_in_answer(
        &input,
        OAuthStatus::NeedsSignIn,
        "s-1".into(),
        Err(OAuthCardError::Unsupported("u".into())),
    );
    assert_eq!(out.status, OAuthStatus::NeedsSignIn);
    assert_eq!(out.state_id.as_deref(), Some("s-1"));
    assert_eq!(out.card.expect("card").actions.len(), 1);
}

#[test]
fn brokers_without_a_host() {
    let noop = NoopBroker;
    assert!(matches!(noop.get_token("p", "s", &[]), Ok(None)));
    assert_eq!(
        noop.get_consent_url("p", "s", &[], "/r", None).expect("url"),
        ""
    );
    match noop.exchange_code("p", "s", "c", "/r") {
        Err(OAuthCardError::Unsupported(detail)) => {
            assert_eq!(detail, "exchange_code unavailable on native test backend")
        }
        _ => panic!("unsupported was expected"),
    }
    let _ = component_oauth_card::default_backend();
    let mock = MockBroker::default();
    assert!(matches!(mock.get_token("p", "s", &[]), Ok(None)));
    match mock.exchange_code("p", "s", "c", "/r") {
        Err(OAuthCardError::Unsupported(detail)) => assert_eq!(detail, "no token in mock"),
        _ => panic!("unsupported was expected"),
    }
    let full = MockBroker {
        token: Some(plain_token()),
        consent_url: "https://c".into(),
    };
    assert_eq!(
        full.get_token("p", "s", &[])
            .expect("reply")
            .expect("token")
            .access_token,
        "token123"
    );
    assert_eq!(
        full.exchange_code("p", "s", "c", "/r").expect("token").access_token,
        "token123"
    );
    assert_eq!(
        full.get_consent_url("p", "s", &[], "/r", None).expect("url"),
        "https://c"
    );
}

#[test]
fn error_messages() {
    assert_eq!(
        OAuthCardError::Invalid("a".into()).to_string(),
        "invalid input: a"
    );
    assert_eq!(
        OAuthCardError::Parse("b".into()).to_string(),
        "parse error: b"
    );
    assert_eq!(
        OAuthCardError::Unsupported("c".into()).to_string(),
        "unsupported: c"
    );
}
