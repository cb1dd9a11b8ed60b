//! The boundary encoding: a response as a JSON value, and the text that is
//! handed back to the caller.
//!
//! Names are written as the transport expects them: statuses and modes
//! with hyphens, the kinds of cards, providers, prompts and actions with
//! underscores. An optional part of a card is left out where it is not set;
//! an optional part of a response, or of a token's context, is written as
//! null.

use crate::error::{Flaw, OAuthCardError};
use crate::json::{
    bool_value, json_of, list_value, new_members, null_value, object_value, put_member, Json,
};
use crate::model::{
    opt_text, texts, Action, AuthContext, AuthHeader, ImageRef, MessageCard, MessageCardKind,
    OAuthCardOutput, OAuthStatus, OauthCard, OauthPrompt, OauthProvider,
};
use crate::shape::{
    has_members, holds_opt_number, holds_text, holds_texts, kept_member, kept_text_member,
    member_of, members_within, nullable_text_member, opt_number_value, opt_text_value, str_value,
    text_member, texts_value,
};
use vstd::prelude::*;

verus! {

/// The name under which a status is written.
pub open spec fn status_name(status: OAuthStatus) -> Seq<char> {
    match status {
        OAuthStatus::Okay => "ok"@,
        OAuthStatus::NeedsSignIn => "needs-sign-in"@,
        OAuthStatus::Error => "error"@,
    }
}

/// Writes a status as its name.
pub fn status_text(status: OAuthStatus) -> (s: &'static str)
    ensures
        s@ == status_name(status),
{
    match status {
        OAuthStatus::Okay => "ok",
        OAuthStatus::NeedsSignIn => "needs-sign-in",
        OAuthStatus::Error => "error",
    }
}

/// The name under which a kind of card is written.
pub open spec fn kind_name(kind: MessageCardKind) -> Seq<char> {
    match kind {
        MessageCardKind::Standard => "standard"@,
        MessageCardKind::Oauth => "oauth"@,
    }
}

/// Writes a kind of card as its name.
pub fn kind_text(kind: MessageCardKind) -> (s: &'static str)
    ensures
        s@ == kind_name(kind),
{
    match kind {
        MessageCardKind::Standard => "standard",
        MessageCardKind::Oauth => "oauth",
    }
}

/// The name under which a provider is written.
pub open spec fn provider_name(provider: OauthProvider) -> Seq<char> {
    match provider {
        OauthProvider::Microsoft => "microsoft"@,
        OauthProvider::Google => "google"@,
        OauthProvider::Github => "github"@,
        OauthProvider::Custom => "custom"@,
    }
}

/// Writes a provider as its name.
pub fn provider_text(provider: OauthProvider) -> (s: &'static str)
    ensures
        s@ == provider_name(provider),
{
    match provider {
        OauthProvider::Microsoft => "microsoft",
        OauthProvider::Google => "google",
        OauthProvider::Github => "github",
        OauthProvider::Custom => "custom",
    }
}

/// The name under which a prompt is written.
pub open spec fn prompt_name(prompt: OauthPrompt) -> Seq<char> {
    match prompt {
        OauthPrompt::NoPrompt => "none"@,
        OauthPrompt::Consent => "consent"@,
        OauthPrompt::Login => "login"@,
    }
}

/// Writes a prompt as its name.
pub fn prompt_text(prompt: OauthPrompt) -> (s: &'static str)
    ensures
        s@ == prompt_name(prompt),
{
    match prompt {
        OauthPrompt::NoPrompt => "none",
        OauthPrompt::Consent => "consent",
        OauthPrompt::Login => "login",
    }
}

/// The value is the encoding of an image: its URL, and its alternative text
/// where it has one.
pub open spec fn encodes_image(v: serde_json::Value, image: ImageRef) -> bool {
    &&& members_within(v, set!["url"@, "alt"@])
    &&& text_member(v, "url"@, image.url@)
    &&& kept_text_member(v, "alt"@, opt_text(image.alt))
}

/// Encodes an image.
pub fn encode_image(image: &ImageRef) -> (v: serde_json::Value)
    ensures
        encodes_image(v, *image),
{
    let mut m = new_members();
    put_member(&mut m, "url", str_value(image.url.as_str()));
    match &image.alt {
        Some(alt) => {
            put_member(&mut m, "alt", str_value(alt.as_str()));
        },
        None => {},
    }
    proof {
        reveal_strlit("url");
        reveal_strlit("alt");
        assert("url"@[0] != "alt"@[0]);
    }
    object_value(m)
}

/// The value is the encoding of an action: its type, `open_url` or
/// `post_back`, its title, and its URL or its data.
pub open spec fn encodes_action(v: serde_json::Value, action: Action) -> bool {
    match action {
        Action::OpenUrl { title, url } => {
            &&& members_within(v, set!["type"@, "title"@, "url"@])
            &&& text_member(v, "type"@, "open_url"@)
            &&& text_member(v, "title"@, title@)
            &&& text_member(v, "url"@, url@)
        },
        Action::PostBack { title, data } => {
            &&& members_within(v, set!["type"@, "title"@, "data"@])
            &&& text_member(v, "type"@, "post_back"@)
            &&& text_member(v, "title"@, title@)
            &&& member_of(v, "data"@) == Some(data)
        },
    }
}

/// Encodes an action.
pub fn encode_action(action: &Action) -> (v: serde_json::Value)
    ensures
        encodes_action(v, *action),
{
    let mut m = new_members();
    proof {
        reveal_strlit("type");
        reveal_strlit("title");
        reveal_strlit("url");
        reveal_strlit("data");
        assert("type"@.len() == 4);
        assert("title"@.len() == 5);
        assert("url"@.len() == 3);
        assert("type"@[0] != "data"@[0]);
    }
    match action {
        Action::OpenUrl { title, url } => {
            put_member(&mut m, "type", str_value("open_url"));
            put_member(&mut m, "title", str_value(title.as_str()));
            put_member(&mut m, "url", str_value(url.as_str()));
        },
        Action::PostBack { title, data } => {
            put_member(&mut m, "type", str_value("post_back"));
            put_member(&mut m, "title", str_value(title.as_str()));
            put_member(&mut m, "data", data.clone());
        },
    }
    object_value(m)
}

/// The value is the JSON array of the encodings of `images`, in their order.
pub open spec fn encodes_images(v: serde_json::Value, images: Seq<ImageRef>) -> bool {
    json_of(v) matches Json::List(l) && l.len() == images.len() && forall|i: int|
        0 <= i < l.len() ==> encodes_image(#[trigger] l[i], images[i])
}

/// Encodes a list of images.
pub fn encode_images(images: &Vec<ImageRef>) -> (v: serde_json::Value)
    ensures
        encodes_images(v, images@),
{
    let mut list: Vec<serde_json::Value> = Vec::new();
    let mut i: usize = 0;
    while i < images.len()
        invariant
            i <= images.len(),
            list.len() == i,
            forall|k: int| 0 <= k < i ==> encodes_image(#[trigger] list@[k], images@[k]),
        decreases images.len() - i,
    {
        list.push(encode_image(&images[i]));
        i = i + 1;
    }
    list_value(list)
}

/// The value is the JSON array of the encodings of `actions`, in their
/// order.
pub open spec fn encodes_actions(v: serde_json::Value, actions: Seq<Action>) -> bool {
    json_of(v) matches Json::List(l) && l.len() == actions.len() && forall|i: int|
        0 <= i < l.len() ==> encodes_action(#[trigger] l[i], actions[i])
}

/// Encodes a list of actions.
pub fn encode_actions(actions: &Vec<Action>) -> (v: serde_json::Value)
    ensures
        encodes_actions(v, actions@),
{
    let mut list: Vec<serde_json::Value> = Vec::new();
    let mut i: usize = 0;
    while i < actions.len()
        invariant
            i <= actions.len(),
            list.len() == i,
            forall|k: int| 0 <= k < i ==> encodes_action(#[trigger] list@[k], actions@[k]),
        decreases actions.len() - i,
    {
        list.push(encode_action(&actions[i]));
        i = i + 1;
    }
    list_value(list)
}

/// The length and the first character of each member name of a card and of
/// its OAuth part, which tell the names apart.
proof fn lemma_card_keys()
    ensures
        "kind"@.len() == 4 && "kind"@[0] == 'k',
        "title"@.len() == 5 && "title"@[0] == 't',
        "text"@.len() == 4 && "text"@[0] == 't',
        "footer"@.len() == 6 && "footer"@[0] == 'f',
        "images"@.len() == 6 && "images"@[0] == 'i',
        "actions"@.len() == 7,
        "allow_markdown"@.len() == 14,
        "adaptive"@.len() == 8,
        "oauth"@.len() == 5 && "oauth"@[0] == 'o',
        "provider"@.len() == 8 && "provider"@[0] == 'p',
        "scopes"@.len() == 6 && "scopes"@[0] == 's',
        "resource"@.len() == 8 && "resource"@[0] == 'r',
        "prompt"@.len() == 6 && "prompt"@[0] == 'p',
        "start_url"@.len() == 9,
        "connection_name"@.len() == 15,
        "metadata"@.len() == 8 && "metadata"@[0] == 'm',
{
    reveal_strlit("kind");
    reveal_strlit("title");
    reveal_strlit("text");
    reveal_strlit("footer");
    reveal_strlit("images");
    reveal_strlit("actions");
    reveal_strlit("allow_markdown");
    reveal_strlit("adaptive");
    reveal_strlit("oauth");
    reveal_strlit("provider");
    reveal_strlit("scopes");
    reveal_strlit("resource");
    reveal_strlit("prompt");
    reveal_strlit("start_url");
    reveal_strlit("connection_name");
    reveal_strlit("metadata");
}

/// The value is the encoding of the OAuth part of a card. The provider is
/// always written; the scopes are left out where there are none, and every
/// other part where it is not set.
pub open spec fn encodes_oauth(v: serde_json::Value, o: OauthCard) -> bool {
    &&& members_within(
        v,
        set![
            "provider"@,
            "scopes"@,
            "resource"@,
            "prompt"@,
            "start_url"@,
            "connection_name"@,
            "metadata"@,
        ],
    )
    &&& text_member(v, "provider"@, provider_name(o.provider))
    &&& if o.scopes@.len() == 0 {
        member_of(v, "scopes"@) is None
    } else {
        member_of(v, "scopes"@) matches Some(x) && holds_texts(x, texts(o.scopes@))
    }
    &&& kept_text_member(v, "resource"@, opt_text(o.resource))
    &&& kept_text_member(
        v,
        "prompt"@,
        match o.prompt {
            Some(p) => Some(prompt_name(p)),
            None => None,
        },
    )
    &&& kept_text_member(v, "start_url"@, opt_text(o.start_url))
    &&& kept_text_member(v, "connection_name"@, opt_text(o.connection_name))
    &&& kept_member(v, "metadata"@, o.metadata)
}

/// Encodes the OAuth part of a card.
pub fn encode_oauth(o: &OauthCard) -> (v: serde_json::Value)
    ensures
        encodes_oauth(v, *o),
{
    let mut m = new_members();
    proof {
        lemma_card_keys();
    }
    put_member(&mut m, "provider", str_value(provider_text(o.provider)));
    if o.scopes.len() != 0 {
        put_member(&mut m, "scopes", texts_value(&o.scopes));
    }
    match &o.resource {
        Some(t) => {
            put_member(&mut m, "resource", str_value(t.as_str()));
        },
        None => {},
    }
    match o.prompt {
        Some(p) => {
            put_member(&mut m, "prompt", str_value(prompt_text(p)));
        },
        None => {},
    }
    match &o.start_url {
        Some(t) => {
            put_member(&mut m, "start_url", str_value(t.as_str()));
        },
        None => {},
    }
    match &o.connection_name {
        Some(t) => {
            put_member(&mut m, "connection_name", str_value(t.as_str()));
        },
        None => {},
    }
    match &o.metadata {
        Some(x) => {
            put_member(&mut m, "metadata", x.clone());
        },
        None => {},
    }
    object_value(m)
}

/// The value is the encoding of a card. The kind and `allow_markdown` are
/// always written; images and actions are left out where there are none,
/// and every other part where it is not set.
pub open spec fn encodes_card(v: serde_json::Value, card: MessageCard) -> bool {
    &&& members_within(
        v,
        set![
            "kind"@,
            "title"@,
            "text"@,
            "footer"@,
            "images"@,
            "actions"@,
            "allow_markdown"@,
            "adaptive"@,
            "oauth"@,
        ],
    )
    &&& text_member(v, "kind"@, kind_name(card.kind))
    &&& kept_text_member(v, "title"@, opt_text(card.title))
    &&& kept_text_member(v, "text"@, opt_text(card.text))
    &&& kept_text_member(v, "footer"@, opt_text(card.footer))
    &&& if card.images@.len() == 0 {
        member_of(v, "images"@) is None
    } else {
        member_of(v, "images"@) matches Some(x) && encodes_images(x, card.images@)
    }
    &&& if card.actions@.len() == 0 {
        member_of(v, "actions"@) is None
    } else {
        member_of(v, "actions"@) matches Some(x) && encodes_actions(x, card.actions@)
    }
    &&& member_of(v, "allow_markdown"@) matches Some(x) && json_of(x) == Json::Bool(
        card.allow_markdown,
    )
    &&& kept_member(v, "adaptive"@, card.adaptive)
    &&& match card.oauth {
        Some(o) => member_of(v, "oauth"@) matches Some(x) && encodes_oauth(x, o),
        None => member_of(v, "oauth"@) is None,
    }
}

/// Encodes a card.
pub fn encode_card(card: &MessageCard) -> (v: serde_json::Value)
    ensures
        encodes_card(v, *card),
{
    let mut m = new_members();
    proof {
        lemma_card_keys();
    }
    put_member(&mut m, "kind", str_value(kind_text(card.kind)));
    match &card.title {
        Some(t) => {
            put_member(&mut m, "title", str_value(t.as_str()));
        },
        None => {},
    }
    match &card.text {
        Some(t) => {
            put_member(&mut m, "text", str_value(t.as_str()));
        },
        None => {},
    }
    match &card.footer {
        Some(t) => {
            put_member(&mut m, "footer", str_value(t.as_str()));
        },
        None => {},
    }
    if card.images.len() != 0 {
        put_member(&mut m, "images", encode_images(&card.images));
    }
    if card.actions.len() != 0 {
        put_member(&mut m, "actions", encode_actions(&card.actions));
    }
    put_member(&mut m, "allow_markdown", bool_value(card.allow_markdown));
    match &card.adaptive {
        Some(x) => {
            put_member(&mut m, "adaptive", x.clone());
        },
        None => {},
    }
    match &card.oauth {
        Some(o) => {
            put_member(&mut m, "oauth", encode_oauth(o));
        },
        None => {},
    }
    object_value(m)
}

/// The value is the encoding of a header line: the array of its name and
/// its value.
pub open spec fn encodes_line(v: serde_json::Value, line: (String, String)) -> bool {
    json_of(v) matches Json::List(pair) && pair.len() == 2 && holds_text(pair[0], line.0@)
        && holds_text(pair[1], line.1@)
}

/// The value is the encoding of the header lines: an object whose member
/// `headers` is the array of the lines, in their order.
pub open spec fn encodes_header(v: serde_json::Value, h: AuthHeader) -> bool {
    &&& has_members(v, set!["headers"@])
    &&& member_of(v, "headers"@) matches Some(x) && json_of(x) matches Json::List(l) && l.len()
        == h.headers@.len() && forall|i: int|
        0 <= i < l.len() ==> encodes_line(#[trigger] l[i], h.headers@[i])
}

/// Encodes the header lines.
pub fn encode_header(h: &AuthHeader) -> (v: serde_json::Value)
    ensures
        encodes_header(v, *h),
{
    let mut list: Vec<serde_json::Value> = Vec::new();
    let mut i: usize = 0;
    while i < h.headers.len()
        invariant
            i <= h.headers.len(),
            list.len() == i,
            forall|k: int| 0 <= k < i ==> encodes_line(#[trigger] list@[k], h.headers@[k]),
        decreases h.headers.len() - i,
    {
        let mut pair: Vec<serde_json::Value> = Vec::new();
        pair.push(str_value(h.headers[i].0.as_str()));
        pair.push(str_value(h.headers[i].1.as_str()));
        list.push(list_value(pair));
        i = i + 1;
    }
    let mut m = new_members();
    put_member(&mut m, "headers", list_value(list));
    object_value(m)
}

/// The length and the first character of each member name of a token's
/// context and of a response, which tell the names apart.
proof fn lemma_response_keys()
    ensures
        "provider_id"@.len() == 11,
        "subject"@.len() == 7,
        "email"@.len() == 5 && "email"@[0] == 'e',
        "tenant"@.len() == 6 && "tenant"@[0] == 't',
        "team"@.len() == 4 && "team"@[0] == 't',
        "scopes"@.len() == 6 && "scopes"@[0] == 's',
        "expires_at"@.len() == 10,
        "status"@.len() == 6,
        "card"@.len() == 4 && "card"@[0] == 'c',
        "auth_context"@.len() == 12,
        "auth_header"@.len() == 11,
        "state_id"@.len() == 8,
        "error"@.len() == 5 && "error"@[0] == 'e',
{
    reveal_strlit("provider_id");
    reveal_strlit("subject");
    reveal_strlit("email");
    reveal_strlit("tenant");
    reveal_strlit("team");
    reveal_strlit("scopes");
    reveal_strlit("expires_at");
    reveal_strlit("status");
    reveal_strlit("card");
    reveal_strlit("auth_context");
    reveal_strlit("auth_header");
    reveal_strlit("state_id");
    reveal_strlit("error");
}

/// The value is the encoding of a token's context: every part is written,
/// one that is not set as null.
pub open spec fn encodes_context(v: serde_json::Value, c: AuthContext) -> bool {
    &&& has_members(
        v,
        set![
            "provider_id"@,
            "subject"@,
            "email"@,
            "tenant"@,
            "team"@,
            "scopes"@,
            "expires_at"@,
        ],
    )
    &&& text_member(v, "provider_id"@, c.provider_id@)
    &&& text_member(v, "subject"@, c.subject@)
    &&& nullable_text_member(v, "email"@, opt_text(c.email))
    &&& nullable_text_member(v, "tenant"@, opt_text(c.tenant))
    &&& nullable_text_member(v, "team"@, opt_text(c.team))
    &&& member_of(v, "scopes"@) matches Some(x) && holds_texts(x, texts(c.scopes@))
    &&& member_of(v, "expires_at"@) matches Some(x) && holds_opt_number(x, c.expires_at)
}

/// Encodes a token's context.
pub fn encode_context(c: &AuthContext) -> (v: serde_json::Value)
    ensures
        encodes_context(v, *c),
{
    let mut m = new_members();
    proof {
        lemma_response_keys();
    }
    put_member(&mut m, "provider_id", str_value(c.provider_id.as_str()));
    put_member(&mut m, "subject", str_value(c.subject.as_str()));
    put_member(&mut m, "email", opt_text_value(&c.email));
    put_member(&mut m, "tenant", opt_text_value(&c.tenant));
    put_member(&mut m, "team", opt_text_value(&c.team));
    put_member(&mut m, "scopes", texts_value(&c.scopes));
    put_member(&mut m, "expires_at", opt_number_value(c.expires_at));
    object_value(m)
}

/// The value is the encoding of a response: every part is written, one
/// that is not set as null.
pub open spec fn encodes_output(v: serde_json::Value, out: OAuthCardOutput) -> bool {
    &&& has_members(
        v,
        set!["status"@, "card"@, "auth_context"@, "auth_header"@, "state_id"@, "error"@],
    )
    &&& text_member(v, "status"@, status_name(out.status))
    &&& member_of(v, "card"@) matches Some(x) && match out.card {
        Some(card) => encodes_card(x, card),
        None => json_of(x) == Json::Null,
    }
    &&& member_of(v, "auth_context"@) matches Some(x) && match out.auth_context {
        Some(c) => encodes_context(x, c),
        None => json_of(x) == Json::Null,
    }
    &&& member_of(v, "auth_header"@) matches Some(x) && match out.auth_header {
        Some(h) => encodes_header(x, h),
        None => json_of(x) == Json::Null,
    }
    &&& nullable_text_member(v, "state_id"@, opt_text(out.state_id))
    &&& nullable_text_member(v, "error"@, opt_text(out.error))
}

/// Encodes a response.
pub fn encode_output(out: &OAuthCardOutput) -> (v: serde_json::Value)
    ensures
        encodes_output(v, *out),
{
    let mut m = new_members();
    proof {
        lemma_response_keys();
    }
    put_member(&mut m, "status", str_value(status_text(out.status)));
    put_member(
        &mut m,
        "card",
        match &out.card {
            Some(card) => encode_card(card),
            None => null_value(),
        },
    );
    put_member(
        &mut m,
        "auth_context",
        match &out.auth_context {
            Some(c) => encode_context(c),
            None => null_value(),
        },
    );
    put_member(
        &mut m,
        "auth_header",
        match &out.auth_header {
            Some(h) => encode_header(h),
            None => null_value(),
        },
    );
    put_member(&mut m, "state_id", opt_text_value(&out.state_id));
    put_member(&mut m, "error", opt_text_value(&out.error));
    object_value(m)
}

/// The response that reports a failure: the status `error`, the message of
/// the error, and nothing else.
pub open spec fn is_error_output(out: OAuthCardOutput, flaw: Flaw) -> bool {
    &&& out.status == OAuthStatus::Error
    &&& out.card is None
    &&& out.auth_context is None
    &&& out.auth_header is None
    &&& out.state_id is None
    &&& opt_text(out.error) == Some(crate::error::message_of(flaw))
}

/// Builds the response that reports a failure.
pub fn error_answer(err: &OAuthCardError) -> (out: OAuthCardOutput)
    ensures
        is_error_output(out, err@),
{
    OAuthCardOutput {
        status: OAuthStatus::Error,
        card: None,
        auth_context: None,
        auth_header: None,
        state_id: None,
        error: Some(err.to_string()),
    }
}

} // verus!
