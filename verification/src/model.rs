//! The data that requests, cards and responses are made of.
//!
//! Texts are compared by their characters: the specification functions here
//! turn the `String`s of a value into `Seq<char>`s, and the contracts of the
//! crate speak of those.

use vstd::prelude::*;

verus! {

/// The characters of an optional text.
pub open spec fn opt_text(o: Option<String>) -> Option<Seq<char>> {
    match o {
        Some(s) => Some(s@),
        None => None,
    }
}

/// The characters of each text of a list.
pub open spec fn texts(v: Seq<String>) -> Seq<Seq<char>> {
    Seq::new(v.len(), |i: int| v[i]@)
}

/// A copy of an optional text.
pub fn copy_opt_text(o: &Option<String>) -> (r: Option<String>)
    ensures
        opt_text(r) == opt_text(*o),
{
    match o {
        Some(s) => Some(s.clone()),
        None => None,
    }
}

/// A copy of a list of texts.
pub fn copy_texts(v: &Vec<String>) -> (r: Vec<String>)
    ensures
        texts(r@) == texts(v@),
{
    let mut r: Vec<String> = Vec::new();
    let mut i: usize = 0;
    while i < v.len()
        invariant
            i <= v.len(),
            r.len() == i,
            forall|k: int| 0 <= k < i ==> r@[k]@ == v@[k]@,
        decreases v.len() - i,
    {
        r.push(v[i].clone());
        i = i + 1;
    }
    assert(texts(r@) =~= texts(v@));
    r
}

/// The default of a card's `allow_markdown`.
pub fn default_true() -> (b: bool)
    ensures
        b,
{
    true
}

/// What a card is rendered as.
#[derive(Debug, Clone, Copy, PartialEq, Eq)]
pub enum MessageCardKind {
    Standard,
    Oauth,
}

impl Default for MessageCardKind {
    fn default() -> (k: Self)
        ensures
            k == MessageCardKind::Standard,
    {
        MessageCardKind::Standard
    }
}

/// The identity provider behind a card.
#[derive(Debug, Clone, Copy, PartialEq, Eq)]
pub enum OauthProvider {
    Microsoft,
    Google,
    Github,
    Custom,
}

/// How the provider is to prompt the user.
#[derive(Debug, Clone, Copy, PartialEq, Eq)]
pub enum OauthPrompt {
    /// Written `none`: the provider does not prompt.
    NoPrompt,
    Consent,
    Login,
}

/// The operation that a request asks for.
#[derive(Debug, Clone, Copy, PartialEq, Eq)]
pub enum OAuthCardMode {
    StatusCard,
    StartSignIn,
    CompleteSignIn,
    EnsureToken,
    Disconnect,
}

/// How a request ended.
#[derive(Debug, Clone, Copy, PartialEq, Eq)]
pub enum OAuthStatus {
    /// Written `ok`: the request was carried out.
    Okay,
    NeedsSignIn,
    Error,
}

impl Default for OAuthStatus {
    fn default() -> (s: Self)
        ensures
            s == OAuthStatus::Okay,
    {
        OAuthStatus::Okay
    }
}

/// An image shown on a card.
#[derive(Debug, Clone, PartialEq, Eq)]
pub struct ImageRef {
    pub url: String,
    pub alt: Option<String>,
}

impl Default for ImageRef {
    fn default() -> (r: Self)
        ensures
            r.url@ == Seq::<char>::empty(),
            r.alt is None,
    {
        ImageRef { url: String::new(), alt: None }
    }
}

/// An [`ImageRef`] with its texts as characters.
pub struct ImageView {
    pub url: Seq<char>,
    pub alt: Option<Seq<char>>,
}

impl View for ImageRef {
    type V = ImageView;

    open spec fn view(&self) -> ImageView {
        ImageView { url: self.url@, alt: opt_text(self.alt) }
    }
}

/// A button of a card. The order of a card's actions is the order in which
/// they are shown.
#[derive(Debug, Clone, PartialEq)]
pub enum Action {
    /// Opens `url` in a browser.
    OpenUrl { title: String, url: String },
    /// Sends `data` back as the next request.
    PostBack { title: String, data: serde_json::Value },
}

/// An [`Action`] with its texts as characters.
pub enum ActionView {
    OpenUrl { title: Seq<char>, url: Seq<char> },
    PostBack { title: Seq<char>, data: serde_json::Value },
}

impl View for Action {
    type V = ActionView;

    open spec fn view(&self) -> ActionView {
        match *self {
            Action::OpenUrl { title, url } => ActionView::OpenUrl { title: title@, url: url@ },
            Action::PostBack { title, data } => ActionView::PostBack { title: title@, data },
        }
    }
}

/// The OAuth part of a card.
#[derive(Debug, Clone, PartialEq)]
pub struct OauthCard {
    pub provider: OauthProvider,
    pub scopes: Vec<String>,
    pub resource: Option<String>,
    pub prompt: Option<OauthPrompt>,
    pub start_url: Option<String>,
    pub connection_name: Option<String>,
    pub metadata: Option<serde_json::Value>,
}

/// An [`OauthCard`] with its texts as characters.
pub struct OauthView {
    pub provider: OauthProvider,
    pub scopes: Seq<Seq<char>>,
    pub resource: Option<Seq<char>>,
    pub prompt: Option<OauthPrompt>,
    pub start_url: Option<Seq<char>>,
    pub connection_name: Option<Seq<char>>,
    pub metadata: Option<serde_json::Value>,
}

impl View for OauthCard {
    type V = OauthView;

    open spec fn view(&self) -> OauthView {
        OauthView {
            provider: self.provider,
            scopes: texts(self.scopes@),
            resource: opt_text(self.resource),
            prompt: self.prompt,
            start_url: opt_text(self.start_url),
            connection_name: opt_text(self.connection_name),
            metadata: self.metadata,
        }
    }
}

/// What the user is shown.
#[derive(Debug, Clone, PartialEq)]
pub struct MessageCard {
    pub kind: MessageCardKind,
    pub title: Option<String>,
    pub text: Option<String>,
    pub footer: Option<String>,
    pub images: Vec<ImageRef>,
    pub actions: Vec<Action>,
    pub allow_markdown: bool,
    pub adaptive: Option<serde_json::Value>,
    pub oauth: Option<OauthCard>,
}

/// A [`MessageCard`] with its texts as characters.
pub struct CardView {
    pub kind: MessageCardKind,
    pub title: Option<Seq<char>>,
    pub text: Option<Seq<char>>,
    pub footer: Option<Seq<char>>,
    pub images: Seq<ImageView>,
    pub actions: Seq<ActionView>,
    pub allow_markdown: bool,
    pub adaptive: Option<serde_json::Value>,
    pub oauth: Option<OauthView>,
}

impl View for MessageCard {
    type V = CardView;

    open spec fn view(&self) -> CardView {
        CardView {
            kind: self.kind,
            title: opt_text(self.title),
            text: opt_text(self.text),
            footer: opt_text(self.footer),
            images: Seq::new(self.images@.len(), |i: int| self.images@[i]@),
            actions: Seq::new(self.actions@.len(), |i: int| self.actions@[i]@),
            allow_markdown: self.allow_markdown,
            adaptive: self.adaptive,
            oauth: match self.oauth {
                Some(o) => Some(o@),
                None => None,
            },
        }
    }
}

impl MessageCard {
    /// The card holds nothing but a kind, a title and a text, and allows
    /// markdown.
    pub open spec fn is_plain(self, kind: MessageCardKind, title: Option<Seq<char>>, text: Option<
        Seq<char>,
    >) -> bool {
        &&& self.kind == kind
        &&& opt_text(self.title) == title
        &&& opt_text(self.text) == text
        &&& self.footer is None
        &&& self.images@.len() == 0
        &&& self.actions@.len() == 0
        &&& self.allow_markdown
        &&& self.adaptive is None
        &&& self.oauth is None
    }
}

impl Default for MessageCard {
    fn default() -> (card: Self)
        ensures
            card.is_plain(MessageCardKind::Standard, None, None),
    {
        MessageCard {
            kind: MessageCardKind::Standard,
            title: None,
            text: None,
            footer: None,
            images: Vec::new(),
            actions: Vec::new(),
            allow_markdown: default_true(),
            adaptive: None,
            oauth: None,
        }
    }
}

/// A request.
#[derive(Debug, Clone)]
pub struct OAuthCardInput {
    pub mode: OAuthCardMode,
    pub provider_id: String,
    /// The user or service that the card is about.
    pub subject: String,
    /// Tenant of the subject; echoed, never interpreted.
    pub tenant: Option<String>,
    pub team: Option<String>,
    pub scopes: Vec<String>,
    /// Ties the completion of a sign-in to its start.
    pub state_id: Option<String>,
    /// The authorization code that the provider returned.
    pub auth_code: Option<String>,
    pub allow_auto_sign_in: bool,
    /// Where the provider sends the user back to.
    pub redirect_path: Option<String>,
    /// Options of the provider, handed to the broker as they are.
    pub extra_json: Option<serde_json::Value>,
}

/// An [`OAuthCardInput`] with its texts as characters.
pub struct InputView {
    pub mode: OAuthCardMode,
    pub provider_id: Seq<char>,
    pub subject: Seq<char>,
    pub tenant: Option<Seq<char>>,
    pub team: Option<Seq<char>>,
    pub scopes: Seq<Seq<char>>,
    pub state_id: Option<Seq<char>>,
    pub auth_code: Option<Seq<char>>,
    pub allow_auto_sign_in: bool,
    pub redirect_path: Option<Seq<char>>,
    pub extra_json: Option<serde_json::Value>,
}

impl View for OAuthCardInput {
    type V = InputView;

    open spec fn view(&self) -> InputView {
        InputView {
            mode: self.mode,
            provider_id: self.provider_id@,
            subject: self.subject@,
            tenant: opt_text(self.tenant),
            team: opt_text(self.team),
            scopes: texts(self.scopes@),
            state_id: opt_text(self.state_id),
            auth_code: opt_text(self.auth_code),
            allow_auto_sign_in: self.allow_auto_sign_in,
            redirect_path: opt_text(self.redirect_path),
            extra_json: self.extra_json,
        }
    }
}

/// Who a token was issued to, and for what.
#[derive(Debug, Clone)]
pub struct AuthContext {
    pub provider_id: String,
    pub subject: String,
    pub email: Option<String>,
    pub tenant: Option<String>,
    pub team: Option<String>,
    pub scopes: Vec<String>,
    pub expires_at: Option<u64>,
}

/// An [`AuthContext`] with its texts as characters.
pub struct AuthContextView {
    pub provider_id: Seq<char>,
    pub subject: Seq<char>,
    pub email: Option<Seq<char>>,
    pub tenant: Option<Seq<char>>,
    pub team: Option<Seq<char>>,
    pub scopes: Seq<Seq<char>>,
    pub expires_at: Option<u64>,
}

impl View for AuthContext {
    type V = AuthContextView;

    open spec fn view(&self) -> AuthContextView {
        AuthContextView {
            provider_id: self.provider_id@,
            subject: self.subject@,
            email: opt_text(self.email),
            tenant: opt_text(self.tenant),
            team: opt_text(self.team),
            scopes: texts(self.scopes@),
            expires_at: self.expires_at,
        }
    }
}

impl Default for AuthContext {
    fn default() -> (c: Self)
        ensures
            c@ == (AuthContextView {
                provider_id: Seq::empty(),
                subject: Seq::empty(),
                email: None,
                tenant: None,
                team: None,
                scopes: Seq::empty(),
                expires_at: None,
            }),
    {
        let c = AuthContext {
            provider_id: String::new(),
            subject: String::new(),
            email: None,
            tenant: None,
            team: None,
            scopes: Vec::new(),
            expires_at: None,
        };
        assert(texts(c.scopes@) =~= Seq::<Seq<char>>::empty());
        c
    }
}

/// The header lines that authorize a call, in order.
#[derive(Debug, Clone)]
pub struct AuthHeader {
    pub headers: Vec<(String, String)>,
}

impl View for AuthHeader {
    type V = Seq<(Seq<char>, Seq<char>)>;

    open spec fn view(&self) -> Seq<(Seq<char>, Seq<char>)> {
        Seq::new(self.headers@.len(), |i: int| (self.headers@[i].0@, self.headers@[i].1@))
    }
}

/// A credential as the broker returned it.
#[derive(Debug, Clone)]
pub struct TokenSet {
    pub access_token: String,
    pub refresh_token: Option<String>,
    pub expires_at: Option<u64>,
    pub token_type: Option<String>,
    /// Further claims, as a JSON value.
    pub extra: Option<serde_json::Value>,
}

/// A [`TokenSet`] with its texts as characters.
pub struct TokenView {
    pub access_token: Seq<char>,
    pub refresh_token: Option<Seq<char>>,
    pub expires_at: Option<u64>,
    pub token_type: Option<Seq<char>>,
    pub extra: Option<serde_json::Value>,
}

impl View for TokenSet {
    type V = TokenView;

    open spec fn view(&self) -> TokenView {
        TokenView {
            access_token: self.access_token@,
            refresh_token: opt_text(self.refresh_token),
            expires_at: self.expires_at,
            token_type: opt_text(self.token_type),
            extra: self.extra,
        }
    }
}

/// A response.
#[derive(Debug, Clone)]
pub struct OAuthCardOutput {
    pub status: OAuthStatus,
    pub card: Option<MessageCard>,
    pub auth_context: Option<AuthContext>,
    pub auth_header: Option<AuthHeader>,
    pub state_id: Option<String>,
    pub error: Option<String>,
}

/// An [`OAuthCardOutput`] with its texts as characters.
pub struct OutputView {
    pub status: OAuthStatus,
    pub card: Option<CardView>,
    pub auth_context: Option<AuthContextView>,
    pub auth_header: Option<Seq<(Seq<char>, Seq<char>)>>,
    pub state_id: Option<Seq<char>>,
    pub error: Option<Seq<char>>,
}

impl View for OAuthCardOutput {
    type V = OutputView;

    open spec fn view(&self) -> OutputView {
        OutputView {
            status: self.status,
            card: match self.card {
                Some(c) => Some(c@),
                None => None,
            },
            auth_context: match self.auth_context {
                Some(c) => Some(c@),
                None => None,
            },
            auth_header: match self.auth_header {
                Some(h) => Some(h@),
                None => None,
            },
            state_id: opt_text(self.state_id),
            error: opt_text(self.error),
        }
    }
}

impl OAuthCardOutput {
    /// Nothing but the status is set.
    pub open spec fn is_bare(self, status: OAuthStatus) -> bool {
        &&& self.status == status
        &&& self.card is None
        &&& self.auth_context is None
        &&& self.auth_header is None
        &&& self.state_id is None
        &&& self.error is None
    }
}

impl Default for OAuthCardOutput {
    fn default() -> (out: Self)
        ensures
            out.is_bare(OAuthStatus::Okay),
    {
        OAuthCardOutput {
            status: OAuthStatus::Okay,
            card: None,
            auth_context: None,
            auth_header: None,
            state_id: None,
            error: None,
        }
    }
}

} // verus!
