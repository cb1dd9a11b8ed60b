//! The flow engine: what a request is answered with.

use crate::broker::OAuthBackend;
use crate::error::OAuthCardError;
use crate::json::{
    as_text, json_of, member, new_members, object_value, print_json, printed_json, put_member,
    Json,
};
use crate::laws::{answer_fields_follow_mode, fields_follow_mode};
use crate::model::{
    copy_opt_text, copy_texts, default_true, opt_text, texts, Action, AuthContext,
    AuthContextView, AuthHeader, MessageCard, MessageCardKind, OAuthCardInput, OAuthCardMode,
    OAuthCardOutput, OAuthStatus, OauthCard, OauthPrompt, OauthProvider, TokenSet, TokenView,
};
use crate::shape::{
    has_members, holds_opt_number, holds_opt_text, holds_texts, member_of, opt_number_value,
    opt_text_value, str_value, text_member, texts_value,
};
use crate::text::{ascii_lower, fresh_state_id, same_text, to_ascii_lowercase};
use vstd::prelude::*;
use vstd::string::StringExecFns;

verus! {

/// The provider that an identifier names, whatever the case of its ASCII
/// letters; `Custom` for an identifier that is not known.
pub open spec fn provider_of(id: Seq<char>) -> OauthProvider {
    let lower = ascii_lower(id);
    if lower == "microsoft"@ || lower == "msgraph"@ || lower == "m365"@ {
        OauthProvider::Microsoft
    } else if lower == "google"@ {
        OauthProvider::Google
    } else if lower == "github"@ {
        OauthProvider::Github
    } else {
        OauthProvider::Custom
    }
}

/// Derives the provider from its identifier.
pub fn provider_from_id(id: &str) -> (p: OauthProvider)
    ensures
        p == provider_of(id@),
{
    let lower = to_ascii_lowercase(id);
    let lower = lower.as_str();
    if same_text(lower, "microsoft") || same_text(lower, "msgraph") || same_text(lower, "m365") {
        OauthProvider::Microsoft
    } else if same_text(lower, "google") {
        OauthProvider::Google
    } else if same_text(lower, "github") {
        OauthProvider::Github
    } else {
        OauthProvider::Custom
    }
}

/// The name under which a mode is written in a request.
pub open spec fn mode_name(mode: OAuthCardMode) -> Seq<char> {
    match mode {
        OAuthCardMode::StatusCard => "status-card"@,
        OAuthCardMode::StartSignIn => "start-sign-in"@,
        OAuthCardMode::CompleteSignIn => "complete-sign-in"@,
        OAuthCardMode::EnsureToken => "ensure-token"@,
        OAuthCardMode::Disconnect => "disconnect"@,
    }
}

/// Writes a mode as its name.
pub fn mode_text(mode: OAuthCardMode) -> (s: &'static str)
    ensures
        s@ == mode_name(mode),
{
    match mode {
        OAuthCardMode::StatusCard => "status-card",
        OAuthCardMode::StartSignIn => "start-sign-in",
        OAuthCardMode::CompleteSignIn => "complete-sign-in",
        OAuthCardMode::EnsureToken => "ensure-token",
        OAuthCardMode::Disconnect => "disconnect",
    }
}

/// The path that the provider sends the user back to: the request's own, or
/// `/oauth/callback/` followed by the provider's identifier.
pub open spec fn redirect_of(input: OAuthCardInput) -> Seq<char> {
    match input.redirect_path {
        Some(p) => p@,
        None => "/oauth/callback/"@ + input.provider_id@,
    }
}

/// Resolves the redirect path of a request.
pub fn redirect_path(input: &OAuthCardInput) -> (p: String)
    ensures
        p@ == redirect_of(*input),
{
    match &input.redirect_path {
        Some(p) => p.clone(),
        None => String::from_str("/oauth/callback/").concat(input.provider_id.as_str()),
    }
}

/// The value is the data of a post-back: the request that the button stands
/// for, with its mode, provider, subject, state and scopes.
pub open spec fn is_post_back_data(
    data: serde_json::Value,
    mode: OAuthCardMode,
    input: OAuthCardInput,
    state_id: Option<Seq<char>>,
) -> bool {
    &&& has_members(data, set!["mode"@, "provider_id"@, "subject"@, "state_id"@, "scopes"@])
    &&& text_member(data, "mode"@, mode_name(mode))
    &&& text_member(data, "provider_id"@, input.provider_id@)
    &&& text_member(data, "subject"@, input.subject@)
    &&& member_of(data, "state_id"@) matches Some(x) && holds_opt_text(x, state_id)
    &&& member_of(data, "scopes"@) matches Some(x) && holds_texts(x, texts(input.scopes@))
}

/// The action is the post-back button `title` for `mode`.
pub open spec fn is_post_back(
    a: Action,
    title: Seq<char>,
    mode: OAuthCardMode,
    input: OAuthCardInput,
    state_id: Option<Seq<char>>,
) -> bool {
    a matches Action::PostBack { title: t, data } && t@ == title && is_post_back_data(
        data,
        mode,
        input,
        state_id,
    )
}

/// The action is the button `title` that opens `url`.
pub open spec fn is_open_url(a: Action, title: Seq<char>, url: Seq<char>) -> bool {
    a matches Action::OpenUrl { title: t, url: u } && t@ == title && u@ == url
}

/// The member names of a post-back's data differ from one another.
proof fn lemma_post_back_keys()
    ensures
        "mode"@ != "provider_id"@,
        "mode"@ != "subject"@,
        "mode"@ != "state_id"@,
        "mode"@ != "scopes"@,
        "provider_id"@ != "subject"@,
        "provider_id"@ != "state_id"@,
        "provider_id"@ != "scopes"@,
        "subject"@ != "state_id"@,
        "subject"@ != "scopes"@,
        "state_id"@ != "scopes"@,
{
    reveal_strlit("mode");
    reveal_strlit("provider_id");
    reveal_strlit("subject");
    reveal_strlit("state_id");
    reveal_strlit("scopes");
    assert("mode"@.len() == 4);
    assert("provider_id"@.len() == 11);
    assert("subject"@.len() == 7);
    assert("state_id"@.len() == 8);
    assert("scopes"@.len() == 6);
}

/// Builds the post-back button `title`, which resubmits the request under
/// `mode` with the given state.
pub fn action(title: &str, mode: OAuthCardMode, input: &OAuthCardInput, state_id: Option<
    String,
>) -> (a: Action)
    ensures
        is_post_back(a, title@, mode, *input, opt_text(state_id)),
{
    let mut m = new_members();
    put_member(&mut m, "mode", str_value(mode_text(mode)));
    put_member(&mut m, "provider_id", str_value(input.provider_id.as_str()));
    put_member(&mut m, "subject", str_value(input.subject.as_str()));
    put_member(&mut m, "state_id", opt_text_value(&state_id));
    put_member(&mut m, "scopes", texts_value(&input.scopes));
    let data = object_value(m);
    proof {
        lemma_post_back_keys();
    }
    Action::PostBack { title: title.to_owned(), data }
}

/// Builds a card that holds only a kind, a title and a text.
pub fn base_card(kind: MessageCardKind, title: Option<String>, text: Option<String>) -> (card:
    MessageCard)
    ensures
        card.is_plain(kind, opt_text(title), opt_text(text)),
{
    MessageCard {
        kind,
        title,
        text,
        footer: None,
        images: Vec::new(),
        actions: Vec::new(),
        allow_markdown: default_true(),
        adaptive: None,
        oauth: None,
    }
}

/// What a card's text says of the team: ` (team ` and `)` around its name,
/// nothing where the request names no team.
pub open spec fn team_suffix(team: Option<String>) -> Seq<char> {
    match team {
        Some(t) => " (team "@ + t@ + ")"@,
        None => Seq::empty(),
    }
}

/// Writes the team as a card's text mentions it.
fn team_text(team: &Option<String>) -> (s: String)
    ensures
        s@ == team_suffix(*team),
{
    match team {
        Some(t) => String::from_str(" (team ").concat(t.as_str()).concat(")"),
        None => String::new(),
    }
}

/// The OAuth part of a card made for `input`: the provider derived from the
/// request, its scopes, and the given prompt and start URL.
pub open spec fn is_oauth_part(
    o: OauthCard,
    input: OAuthCardInput,
    prompt: Option<OauthPrompt>,
    start_url: Option<Seq<char>>,
) -> bool {
    &&& o.provider == provider_of(input.provider_id@)
    &&& texts(o.scopes@) == texts(input.scopes@)
    &&& o.resource is None
    &&& o.prompt == prompt
    &&& opt_text(o.start_url) == start_url
    &&& o.connection_name is None
    &&& o.metadata is Some
}

/// The metadata of a card made for `input` names the provider and the subject.
pub open spec fn names_request(v: serde_json::Value, input: OAuthCardInput) -> bool {
    &&& text_member(v, "provider_id"@, input.provider_id@)
    &&& text_member(v, "subject"@, input.subject@)
}

/// The card that asks the user to sign in: a `Connect` button that opens
/// `url` where there is one, then the `Continue` button that completes the
/// sign-in under `state_id`.
pub open spec fn is_sign_in_card(
    card: MessageCard,
    input: OAuthCardInput,
    state_id: Seq<char>,
    url: Seq<char>,
) -> bool {
    &&& card.kind == MessageCardKind::Oauth
    &&& opt_text(card.title) == Some("Connect "@ + input.provider_id@ + " account"@)
    &&& opt_text(card.text) == Some(
        "Click Connect to sign in as "@ + input.subject@ + team_suffix(input.team) + "."@,
    )
    &&& card.footer is None
    &&& card.images@.len() == 0
    &&& card.allow_markdown
    &&& card.adaptive is None
    &&& if url.len() == 0 {
        &&& card.actions@.len() == 1
        &&& is_post_back(
            card.actions@[0],
            "Continue"@,
            OAuthCardMode::CompleteSignIn,
            input,
            Some(state_id),
        )
    } else {
        &&& card.actions@.len() == 2
        &&& is_open_url(card.actions@[0], "Connect"@, url)
        &&& is_post_back(
            card.actions@[1],
            "Continue"@,
            OAuthCardMode::CompleteSignIn,
            input,
            Some(state_id),
        )
    }
    &&& card.oauth matches Some(o) && is_oauth_part(
        o,
        input,
        Some(OauthPrompt::Consent),
        if url.len() == 0 {
            None
        } else {
            Some(url)
        },
    ) && has_members(o.metadata->0, set!["state_id"@, "provider_id"@, "subject"@])
        && text_member(o.metadata->0, "state_id"@, state_id) && names_request(
        o.metadata->0,
        input,
    )
}

/// The card of a connected account: `headline`, then the buttons to refresh
/// the token, to use another account and to disconnect, in that order.
pub open spec fn is_connected_card(
    card: MessageCard,
    input: OAuthCardInput,
    headline: Seq<char>,
    expires_at: Option<u64>,
) -> bool {
    &&& card.kind == MessageCardKind::Oauth
    &&& opt_text(card.title) == Some(headline + ": "@ + input.provider_id@)
    &&& opt_text(card.text) == Some(
        "Signed in as "@ + input.subject@ + team_suffix(input.team) + "."@,
    )
    &&& card.footer is None
    &&& card.images@.len() == 0
    &&& card.allow_markdown
    &&& card.adaptive is None
    &&& card.actions@.len() == 3
    &&& is_post_back(card.actions@[0], "Refresh token"@, OAuthCardMode::EnsureToken, input, None)
    &&& is_post_back(
        card.actions@[1],
        "Use different account"@,
        OAuthCardMode::StartSignIn,
        input,
        None,
    )
    &&& is_post_back(card.actions@[2], "Disconnect"@, OAuthCardMode::Disconnect, input, None)
    &&& card.oauth matches Some(o) && is_oauth_part(o, input, None, None) && has_members(
        o.metadata->0,
        set!["expires_at"@, "provider_id"@, "subject"@],
    ) && (member_of(o.metadata->0, "expires_at"@) matches Some(x) && holds_opt_number(
        x,
        expires_at,
    )) && names_request(o.metadata->0, input)
}

/// The card shown after a disconnect: one button, which starts a sign-in.
pub open spec fn is_disconnect_card(card: MessageCard, input: OAuthCardInput) -> bool {
    &&& card.kind == MessageCardKind::Oauth
    &&& opt_text(card.title) == Some("Disconnected from "@ + input.provider_id@)
    &&& opt_text(card.text) == Some("You can reconnect this account at any time."@)
    &&& card.footer is None
    &&& card.images@.len() == 0
    &&& card.allow_markdown
    &&& card.adaptive is None
    &&& card.actions@.len() == 1
    &&& is_post_back(card.actions@[0], "Reconnect"@, OAuthCardMode::StartSignIn, input, None)
    &&& card.oauth matches Some(o) && is_oauth_part(o, input, None, None) && has_members(
        o.metadata->0,
        set!["provider_id"@, "subject"@],
    ) && names_request(o.metadata->0, input)
}

/// The member names of a card's metadata differ from one another.
proof fn lemma_metadata_keys()
    ensures
        "state_id"@ != "provider_id"@,
        "state_id"@ != "subject"@,
        "expires_at"@ != "provider_id"@,
        "expires_at"@ != "subject"@,
        "provider_id"@ != "subject"@,
{
    reveal_strlit("state_id");
    reveal_strlit("expires_at");
    reveal_strlit("provider_id");
    reveal_strlit("subject");
    assert("state_id"@.len() == 8);
    assert("expires_at"@.len() == 10);
    assert("provider_id"@.len() == 11);
    assert("subject"@.len() == 7);
}

/// Builds the card that asks the user to sign in.
pub fn sign_in_card(input: &OAuthCardInput, state_id: &str, url: &str) -> (card: MessageCard)
    ensures
        is_sign_in_card(card, *input, state_id@, url@),
{
    let title = String::from_str("Connect ").concat(input.provider_id.as_str()).concat(" account");
    let text = String::from_str("Click Connect to sign in as ").concat(
        input.subject.as_str(),
    ).concat(team_text(&input.team).as_str()).concat(".");
    let mut card = base_card(MessageCardKind::Oauth, Some(title), Some(text));
    if !url.is_empty() {
        card.actions.push(Action::OpenUrl { title: "Connect".to_owned(), url: url.to_owned() });
    }
    card.actions.push(
        action("Continue", OAuthCardMode::CompleteSignIn, input, Some(state_id.to_owned())),
    );
    let mut m = new_members();
    put_member(&mut m, "state_id", str_value(state_id));
    put_member(&mut m, "provider_id", str_value(input.provider_id.as_str()));
    put_member(&mut m, "subject", str_value(input.subject.as_str()));
    proof {
        lemma_metadata_keys();
    }
    card.oauth = Some(
        OauthCard {
            provider: provider_from_id(input.provider_id.as_str()),
            scopes: copy_texts(&input.scopes),
            resource: None,
            prompt: Some(OauthPrompt::Consent),
            start_url: if url.is_empty() {
                None
            } else {
                Some(url.to_owned())
            },
            connection_name: None,
            metadata: Some(object_value(m)),
        },
    );
    card
}

/// Builds the card of a connected account.
pub fn connected_card(input: &OAuthCardInput, token: &TokenSet, headline: &str) -> (card:
    MessageCard)
    ensures
        is_connected_card(card, *input, headline@, token.expires_at),
{
    let title = String::from_str(headline).concat(": ").concat(input.provider_id.as_str());
    let text = String::from_str("Signed in as ").concat(input.subject.as_str()).concat(
        team_text(&input.team).as_str(),
    ).concat(".");
    let mut card = base_card(MessageCardKind::Oauth, Some(title), Some(text));
    card.actions.push(action("Refresh token", OAuthCardMode::EnsureToken, input, None));
    card.actions.push(action("Use different account", OAuthCardMode::StartSignIn, input, None));
    card.actions.push(action("Disconnect", OAuthCardMode::Disconnect, input, None));
    let mut m = new_members();
    put_member(&mut m, "expires_at", opt_number_value(token.expires_at));
    put_member(&mut m, "provider_id", str_value(input.provider_id.as_str()));
    put_member(&mut m, "subject", str_value(input.subject.as_str()));
    proof {
        lemma_metadata_keys();
    }
    card.oauth = Some(
        OauthCard {
            provider: provider_from_id(input.provider_id.as_str()),
            scopes: copy_texts(&input.scopes),
            resource: None,
            prompt: None,
            start_url: None,
            connection_name: None,
            metadata: Some(object_value(m)),
        },
    );
    card
}

/// Builds the card shown after a disconnect.
fn disconnected_card(input: &OAuthCardInput) -> (card: MessageCard)
    ensures
        is_disconnect_card(card, *input),
{
    let title = String::from_str("Disconnected from ").concat(input.provider_id.as_str());
    let text = String::from_str("You can reconnect this account at any time.");
    let mut card = base_card(MessageCardKind::Oauth, Some(title), Some(text));
    card.actions.push(action("Reconnect", OAuthCardMode::StartSignIn, input, None));
    let mut m = new_members();
    put_member(&mut m, "provider_id", str_value(input.provider_id.as_str()));
    put_member(&mut m, "subject", str_value(input.subject.as_str()));
    proof {
        lemma_metadata_keys();
    }
    card.oauth = Some(
        OauthCard {
            provider: provider_from_id(input.provider_id.as_str()),
            scopes: copy_texts(&input.scopes),
            resource: None,
            prompt: None,
            start_url: None,
            connection_name: None,
            metadata: Some(object_value(m)),
        },
    );
    card
}

/// The state under which a sign-in runs: the given one, or a fresh random
/// identifier where none is given.
pub fn resolve_state_id(existing: &Option<String>) -> (id: String)
    ensures
        match *existing {
            Some(s) => id@ == s@,
            None => id@.len() == 36,
        },
{
    match existing {
        Some(s) => s.clone(),
        None => fresh_state_id(),
    }
}

/// Builds the sign-in card without a consent URL, under the given state or
/// a fresh one.
pub fn connect_prompt_card(input: &OAuthCardInput, existing_state: Option<String>) -> (card:
    MessageCard)
    ensures
        match existing_state {
            Some(s) => is_sign_in_card(card, *input, s@, Seq::empty()),
            None => exists|id: Seq<char>|
                id.len() == 36 && is_sign_in_card(card, *input, id, Seq::empty()),
        },
{
    let state_id = resolve_state_id(&existing_state);
    let card = sign_in_card(input, state_id.as_str(), "");
    proof {
        reveal_strlit("");
        assert(""@ =~= Seq::<char>::empty());
    }
    card
}

/// The e-mail address among a token's further claims: the member `email`
/// where the claims are a JSON object that has it as a string.
pub open spec fn email_of(extra: Option<serde_json::Value>) -> Option<Seq<char>> {
    match extra {
        Some(v) => match member_of(v, "email"@) {
            Some(e) => match json_of(e) {
                Json::Text(s) => Some(s),
                _ => None,
            },
            None => None,
        },
        None => None,
    }
}

/// Reads the e-mail address out of a token's further claims.
fn email_claim(extra: &Option<serde_json::Value>) -> (r: Option<String>)
    ensures
        opt_text(r) == email_of(*extra),
{
    match extra {
        Some(v) => match member(v, "email") {
            Some(e) => match as_text(e) {
                Some(s) => Some(s.to_owned()),
                None => None,
            },
            None => None,
        },
        None => None,
    }
}

/// Whom a token of the request's subject stands for: the request echoed,
/// with the e-mail address and the expiry of the token.
pub open spec fn context_of(input: OAuthCardInput, token: TokenView) -> AuthContextView {
    AuthContextView {
        provider_id: input.provider_id@,
        subject: input.subject@,
        email: email_of(token.extra),
        tenant: opt_text(input.tenant),
        team: opt_text(input.team),
        scopes: texts(input.scopes@),
        expires_at: token.expires_at,
    }
}

/// Builds the context of a token.
pub fn auth_context(input: &OAuthCardInput, token: &TokenSet) -> (c: AuthContext)
    ensures
        c@ == context_of(*input, token@),
{
    AuthContext {
        provider_id: input.provider_id.clone(),
        subject: input.subject.clone(),
        email: email_claim(&token.extra),
        tenant: copy_opt_text(&input.tenant),
        team: copy_opt_text(&input.team),
        scopes: copy_texts(&input.scopes),
        expires_at: token.expires_at,
    }
}

/// The value of the `Authorization` header: the token's type, `Bearer`
/// where it has none, then a blank and the access token.
pub open spec fn authorization_of(token: TokenView) -> Seq<char> {
    (match token.token_type {
        Some(t) => t,
        None => "Bearer"@,
    }) + " "@ + token.access_token
}

/// The header lines of a token: the `Authorization` header and no other.
pub open spec fn header_of(token: TokenView) -> Seq<(Seq<char>, Seq<char>)> {
    seq![("Authorization"@, authorization_of(token))]
}

/// Builds the header lines of a token.
pub fn auth_header(token: &TokenSet) -> (h: AuthHeader)
    ensures
        h@ == header_of(token@),
{
    let prefix = match &token.token_type {
        Some(t) => t.clone(),
        None => String::from_str("Bearer"),
    };
    let value = prefix.concat(" ").concat(token.access_token.as_str());
    let mut headers: Vec<(String, String)> = Vec::new();
    headers.push((String::from_str("Authorization"), value));
    let h = AuthHeader { headers };
    assert(h@ =~= header_of(token@));
    h
}

/// The answer to a request whose subject holds `token`: the card of the
/// connected account, the token's context and its header.
pub open spec fn is_connected_output(
    out: OAuthCardOutput,
    input: OAuthCardInput,
    token: TokenView,
) -> bool {
    &&& out.status == OAuthStatus::Okay
    &&& out.card matches Some(card) && is_connected_card(
        card,
        input,
        "Connected"@,
        token.expires_at,
    )
    &&& out.auth_context matches Some(c) && c@ == context_of(input, token)
    &&& out.auth_header matches Some(h) && h@ == header_of(token)
    &&& out.state_id is None
    &&& out.error is None
}

/// The answer that hands out `token` without a card.
pub open spec fn is_token_output(
    out: OAuthCardOutput,
    input: OAuthCardInput,
    token: TokenView,
) -> bool {
    &&& out.status == OAuthStatus::Okay
    &&& out.card is None
    &&& out.auth_context matches Some(c) && c@ == context_of(input, token)
    &&& out.auth_header matches Some(h) && h@ == header_of(token)
    &&& out.state_id is None
    &&& out.error is None
}

/// The answer that asks for a sign-in under `state_id` at `url`. The state
/// is part of the answer itself only where `with_state` holds.
pub open spec fn is_sign_in_output(
    out: OAuthCardOutput,
    input: OAuthCardInput,
    status: OAuthStatus,
    state_id: Seq<char>,
    url: Seq<char>,
    with_state: bool,
) -> bool {
    &&& out.status == status
    &&& out.card matches Some(card) && is_sign_in_card(card, input, state_id, url)
    &&& out.auth_context is None
    &&& out.auth_header is None
    &&& opt_text(out.state_id) == (if with_state {
        Some(state_id)
    } else {
        None
    })
    &&& out.error is None
}

/// The answer to a disconnect.
pub open spec fn is_disconnect_output(out: OAuthCardOutput, input: OAuthCardInput) -> bool {
    &&& out.status == OAuthStatus::Okay
    &&& out.card matches Some(card) && is_disconnect_card(card, input)
    &&& out.auth_context is None
    &&& out.auth_header is None
    &&& out.state_id is None
    &&& out.error is None
}

/// The consent URL that a sign-in card is built with: the broker's, or none
/// where the broker failed.
pub open spec fn consent_of(reply: Result<String, OAuthCardError>) -> Seq<char> {
    match reply {
        Ok(url) => url@,
        Err(_) => Seq::empty(),
    }
}

/// Answers with the card of the connected account.
pub fn connected_answer(input: &OAuthCardInput, token: &TokenSet) -> (out: OAuthCardOutput)
    ensures
        is_connected_output(out, *input, token@),
{
    OAuthCardOutput {
        status: OAuthStatus::Okay,
        card: Some(connected_card(input, token, "Connected")),
        auth_context: Some(auth_context(input, token)),
        auth_header: Some(auth_header(token)),
        state_id: None,
        error: None,
    }
}

/// Answers with the token alone.
pub fn token_answer(input: &OAuthCardInput, token: &TokenSet) -> (out: OAuthCardOutput)
    ensures
        is_token_output(out, *input, token@),
{
    OAuthCardOutput {
        status: OAuthStatus::Okay,
        card: None,
        auth_context: Some(auth_context(input, token)),
        auth_header: Some(auth_header(token)),
        state_id: None,
        error: None,
    }
}

/// Answers with the sign-in card for the broker's reply to the request for a
/// consent URL. A failure of the broker is not passed on: the card then has
/// no `Connect` button.
pub fn sign_in_answer(
    input: &OAuthCardInput,
    status: OAuthStatus,
    state_id: String,
    consent: Result<String, OAuthCardError>,
) -> (out: OAuthCardOutput)
    ensures
        is_sign_in_output(out, *input, status, state_id@, consent_of(consent), true),
{
    let url = match consent {
        Ok(url) => url,
        Err(_) => String::new(),
    };
    let card = sign_in_card(input, state_id.as_str(), url.as_str());
    OAuthCardOutput {
        status,
        card: Some(card),
        auth_context: None,
        auth_header: None,
        state_id: Some(state_id),
        error: None,
    }
}

/// Answers that a sign-in is needed, and nothing more.
pub fn needs_sign_in_answer() -> (out: OAuthCardOutput)
    ensures
        out.is_bare(OAuthStatus::NeedsSignIn),
{
    OAuthCardOutput {
        status: OAuthStatus::NeedsSignIn,
        card: None,
        auth_context: None,
        auth_header: None,
        state_id: None,
        error: None,
    }
}

/// The state of a sign-in is the request's own, or a fresh identifier where
/// the request has none.
pub open spec fn state_follows(input: OAuthCardInput, state_id: Seq<char>) -> bool {
    match input.state_id {
        Some(s) => state_id == s@,
        None => state_id.len() == 36,
    }
}

/// The options of the provider as the broker gets them: the compact JSON
/// text of the request's `extra_json`.
pub open spec fn extra_of(input: OAuthCardInput) -> Option<Seq<char>> {
    match input.extra_json {
        Some(v) => Some(printed_json(v)),
        None => None,
    }
}

/// Writes the options of the provider for the broker.
pub fn extra_text(input: &OAuthCardInput) -> (r: Option<String>)
    ensures
        opt_text(r) == extra_of(*input),
{
    match &input.extra_json {
        Some(v) => Some(print_json(v)),
        None => None,
    }
}

/// What a status request is answered with, given the broker's reply to the
/// request for a token: the broker's error; the connected account for a
/// token; the request to sign in, under a fresh state that only the card
/// carries, where there is none.
pub open spec fn is_status_card_answer(
    input: OAuthCardInput,
    reply: Result<Option<TokenSet>, OAuthCardError>,
    r: Result<OAuthCardOutput, OAuthCardError>,
) -> bool {
    match reply {
        Err(e) => r == Err::<OAuthCardOutput, OAuthCardError>(e),
        Ok(Some(t)) => r matches Ok(out) && is_connected_output(out, input, t@),
        Ok(None) => r matches Ok(out) && exists|id: Seq<char>|
            id.len() == 36 && #[trigger] is_sign_in_output(
                out,
                input,
                OAuthStatus::NeedsSignIn,
                id,
                Seq::empty(),
                false,
            ),
    }
}

/// Answers a status request from the broker's reply.
pub fn status_card_answer(
    input: &OAuthCardInput,
    reply: Result<Option<TokenSet>, OAuthCardError>,
) -> (r: Result<OAuthCardOutput, OAuthCardError>)
    ensures
        is_status_card_answer(*input, reply, r),
{
    match reply {
        Err(e) => Err(e),
        Ok(Some(token)) => Ok(connected_answer(input, &token)),
        Ok(None) => {
            let card = connect_prompt_card(input, None);
            let out = OAuthCardOutput {
                status: OAuthStatus::NeedsSignIn,
                card: Some(card),
                auth_context: None,
                auth_header: None,
                state_id: None,
                error: None,
            };
            proof {
                let id = choose|id: Seq<char>|
                    id.len() == 36 && is_sign_in_card(card, *input, id, Seq::empty());
                assert(is_sign_in_output(
                    out,
                    *input,
                    OAuthStatus::NeedsSignIn,
                    id,
                    Seq::empty(),
                    false,
                ));
            }
            Ok(out)
        },
    }
}

/// What the completion of a sign-in is answered with, given the broker's
/// reply to the exchange of the code: the broker's error, or the connected
/// account for the token.
pub open spec fn is_complete_sign_in_answer(
    input: OAuthCardInput,
    reply: Result<TokenSet, OAuthCardError>,
    r: Result<OAuthCardOutput, OAuthCardError>,
) -> bool {
    match reply {
        Err(e) => r == Err::<OAuthCardOutput, OAuthCardError>(e),
        Ok(t) => r matches Ok(out) && is_connected_output(out, input, t@),
    }
}

/// Answers the completion of a sign-in from the broker's reply.
pub fn complete_sign_in_answer(
    input: &OAuthCardInput,
    reply: Result<TokenSet, OAuthCardError>,
) -> (r: Result<OAuthCardOutput, OAuthCardError>)
    ensures
        is_complete_sign_in_answer(*input, reply, r),
{
    match reply {
        Err(e) => Err(e),
        Ok(token) => Ok(connected_answer(input, &token)),
    }
}

/// What the request for a token is answered with, given the broker's reply:
/// the broker's error; the token where there is one; where there is none,
/// the bare request to sign in, or, for a request that allows it, no answer
/// yet: a sign-in is to be started.
pub open spec fn is_ensure_token_answer(
    input: OAuthCardInput,
    reply: Result<Option<TokenSet>, OAuthCardError>,
    r: Result<Option<OAuthCardOutput>, OAuthCardError>,
) -> bool {
    match reply {
        Err(e) => r == Err::<Option<OAuthCardOutput>, OAuthCardError>(e),
        Ok(Some(t)) => r matches Ok(Some(out)) && is_token_output(out, input, t@),
        Ok(None) => if input.allow_auto_sign_in {
            r matches Ok(None)
        } else {
            r matches Ok(Some(out)) && out.is_bare(OAuthStatus::NeedsSignIn)
        },
    }
}

/// Answers the request for a token from the broker's reply, as far as that
/// can be done without a sign-in.
pub fn ensure_token_answer(
    input: &OAuthCardInput,
    reply: Result<Option<TokenSet>, OAuthCardError>,
) -> (r: Result<Option<OAuthCardOutput>, OAuthCardError>)
    ensures
        is_ensure_token_answer(*input, reply, r),
{
    match reply {
        Err(e) => Err(e),
        Ok(Some(token)) => Ok(Some(token_answer(input, &token))),
        Ok(None) => if input.allow_auto_sign_in {
            Ok(None)
        } else {
            Ok(Some(needs_sign_in_answer()))
        },
    }
}

/// A status request ends as the broker's reply to the request for the
/// subject's token decides.
pub open spec fn ends_status_card<B: OAuthBackend>(
    backend: B,
    input: OAuthCardInput,
    r: Result<OAuthCardOutput, OAuthCardError>,
) -> bool {
    exists|reply: Result<Option<TokenSet>, OAuthCardError>|
        backend.may_hold(input.provider_id@, input.subject@, texts(input.scopes@), reply)
            && #[trigger] is_status_card_answer(input, reply, r)
}

/// Shows whether the subject is connected.
pub fn status_card<B: OAuthBackend>(backend: &B, input: &OAuthCardInput) -> (r: Result<
    OAuthCardOutput,
    OAuthCardError,
>)
    ensures
        ends_status_card(*backend, *input, r),
{
    let reply = backend.get_token(
        input.provider_id.as_str(),
        input.subject.as_str(),
        input.scopes.as_slice(),
    );
    let r = status_card_answer(input, reply);
    assert(is_status_card_answer(*input, reply, r));
    r
}

/// A sign-in always starts. The broker is asked for a consent URL with the
/// resolved redirect path and the options of the provider; the answer
/// carries the sign-in card for its reply, and the state of the sign-in,
/// which is the request's own where it has one.
pub open spec fn ends_start_sign_in<B: OAuthBackend>(
    backend: B,
    input: OAuthCardInput,
    status: OAuthStatus,
    r: Result<OAuthCardOutput, OAuthCardError>,
) -> bool {
    r matches Ok(out) && exists|id: Seq<char>, consent: Result<String, OAuthCardError>|
        state_follows(input, id) && backend.may_consent(
            input.provider_id@,
            input.subject@,
            texts(input.scopes@),
            redirect_of(input),
            extra_of(input),
            consent,
        ) && #[trigger] is_sign_in_output(out, input, status, id, consent_of(consent), true)
}

/// Asks the broker for the consent URL and builds the sign-in under
/// `status`.
fn begin_sign_in<B: OAuthBackend>(backend: &B, input: &OAuthCardInput, status: OAuthStatus) -> (r:
    Result<OAuthCardOutput, OAuthCardError>)
    ensures
        ends_start_sign_in(*backend, *input, status, r),
{
    let state_id = resolve_state_id(&input.state_id);
    let redirect = redirect_path(input);
    let consent = backend.get_consent_url(
        input.provider_id.as_str(),
        input.subject.as_str(),
        input.scopes.as_slice(),
        redirect.as_str(),
        extra_text(input),
    );
    let out = sign_in_answer(input, status, state_id, consent);
    assert(is_sign_in_output(out, *input, status, state_id@, consent_of(consent), true));
    Ok(out)
}

/// Starts a sign-in.
pub fn start_sign_in<B: OAuthBackend>(backend: &B, input: &OAuthCardInput) -> (r: Result<
    OAuthCardOutput,
    OAuthCardError,
>)
    ensures
        ends_start_sign_in(*backend, *input, OAuthStatus::Okay, r),
{
    begin_sign_in(backend, input, OAuthStatus::Okay)
}

/// The completion of a sign-in fails as invalid where the request has no
/// authorization code; else it ends as the broker's reply to the exchange
/// of the code, under the resolved redirect path, decides.
pub open spec fn ends_complete_sign_in<B: OAuthBackend>(
    backend: B,
    input: OAuthCardInput,
    r: Result<OAuthCardOutput, OAuthCardError>,
) -> bool {
    match input.auth_code {
        None => r matches Err(OAuthCardError::Invalid(m)) && m@
            == "auth_code is required to complete sign-in"@,
        Some(code) => exists|reply: Result<TokenSet, OAuthCardError>|
            backend.may_exchange(
                input.provider_id@,
                input.subject@,
                code@,
                redirect_of(input),
                reply,
            ) && #[trigger] is_complete_sign_in_answer(input, reply, r),
    }
}

/// Completes a sign-in with the authorization code of the request.
pub fn complete_sign_in<B: OAuthBackend>(backend: &B, input: &OAuthCardInput) -> (r: Result<
    OAuthCardOutput,
    OAuthCardError,
>)
    ensures
        ends_complete_sign_in(*backend, *input, r),
{
    match &input.auth_code {
        None => Err(
            OAuthCardError::Invalid(String::from_str("auth_code is required to complete sign-in")),
        ),
        Some(code) => {
            let redirect = redirect_path(input);
            let reply = backend.exchange_code(
                input.provider_id.as_str(),
                input.subject.as_str(),
                code.as_str(),
                redirect.as_str(),
            );
            let r = complete_sign_in_answer(input, reply);
            assert(is_complete_sign_in_answer(*input, reply, r));
            r
        },
    }
}

/// An answer as the outcome of a step that could also have left the answer
/// open.
pub open spec fn as_step(r: Result<OAuthCardOutput, OAuthCardError>) -> Result<
    Option<OAuthCardOutput>,
    OAuthCardError,
> {
    match r {
        Ok(out) => Ok(Some(out)),
        Err(e) => Err(e),
    }
}

/// What the request for a token ends in after the broker's reply to the
/// request for the subject's token: a sign-in that is started, with the
/// status that a sign-in is needed, where there is no token and the request
/// allows it; else what the reply alone decides.
pub open spec fn follows_token_reply<B: OAuthBackend>(
    backend: B,
    input: OAuthCardInput,
    reply: Result<Option<TokenSet>, OAuthCardError>,
    r: Result<OAuthCardOutput, OAuthCardError>,
) -> bool {
    if reply matches Ok(None) && input.allow_auto_sign_in {
        ends_start_sign_in(backend, input, OAuthStatus::NeedsSignIn, r)
    } else {
        is_ensure_token_answer(input, reply, as_step(r))
    }
}

/// The request for a token ends as the broker's replies decide.
pub open spec fn ends_ensure_token<B: OAuthBackend>(
    backend: B,
    input: OAuthCardInput,
    r: Result<OAuthCardOutput, OAuthCardError>,
) -> bool {
    exists|reply: Result<Option<TokenSet>, OAuthCardError>|
        backend.may_hold(input.provider_id@, input.subject@, texts(input.scopes@), reply)
            && #[trigger] follows_token_reply(backend, input, reply, r)
}

/// Hands out the token of the subject, or says that a sign-in is needed.
pub fn ensure_token<B: OAuthBackend>(backend: &B, input: &OAuthCardInput) -> (r: Result<
    OAuthCardOutput,
    OAuthCardError,
>)
    ensures
        ends_ensure_token(*backend, *input, r),
{
    let reply = backend.get_token(
        input.provider_id.as_str(),
        input.subject.as_str(),
        input.scopes.as_slice(),
    );
    let step = ensure_token_answer(input, reply);
    let r = match step {
        Err(e) => Err(e),
        Ok(Some(out)) => Ok(out),
        Ok(None) => begin_sign_in(backend, input, OAuthStatus::NeedsSignIn),
    };
    assert(follows_token_reply(*backend, *input, reply, r));
    r
}

/// Answers a disconnect. The broker is not asked.
pub fn disconnect_card(input: &OAuthCardInput) -> (r: Result<OAuthCardOutput, OAuthCardError>)
    ensures
        r matches Ok(out) && is_disconnect_output(out, *input),
{
    Ok(
        OAuthCardOutput {
            status: OAuthStatus::Okay,
            card: Some(disconnected_card(input)),
            auth_context: None,
            auth_header: None,
            state_id: None,
            error: None,
        },
    )
}

/// How a request ends with a broker, by its mode.
pub open spec fn ends_request<B: OAuthBackend>(
    backend: B,
    input: OAuthCardInput,
    r: Result<OAuthCardOutput, OAuthCardError>,
) -> bool {
    match input.mode {
        OAuthCardMode::StatusCard => ends_status_card(backend, input, r),
        OAuthCardMode::StartSignIn => ends_start_sign_in(backend, input, OAuthStatus::Okay, r),
        OAuthCardMode::CompleteSignIn => ends_complete_sign_in(backend, input, r),
        OAuthCardMode::EnsureToken => ends_ensure_token(backend, input, r),
        OAuthCardMode::Disconnect => r matches Ok(out) && is_disconnect_output(out, input),
    }
}

/// Answers a request, asking the broker for what the mode needs.
pub fn handle<B: OAuthBackend>(backend: &B, input: OAuthCardInput) -> (r: Result<
    OAuthCardOutput,
    OAuthCardError,
>)
    ensures
        ends_request(*backend, input, r),
        r matches Ok(out) ==> fields_follow_mode(input, out),
{
    let r = match input.mode {
        OAuthCardMode::StatusCard => status_card(backend, &input),
        OAuthCardMode::StartSignIn => start_sign_in(backend, &input),
        OAuthCardMode::CompleteSignIn => complete_sign_in(backend, &input),
        OAuthCardMode::EnsureToken => ensure_token(backend, &input),
        OAuthCardMode::Disconnect => disconnect_card(&input),
    };
    proof {
        if r is Ok {
            answer_fields_follow_mode(*backend, input, r->Ok_0);
        }
    }
    r
}

} // verus!
