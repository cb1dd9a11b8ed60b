//! The token broker, as the flow engine sees it.
//!
//! The engine depends on the [`OAuthBackend`] interface alone. Two brokers
//! that need no host are defined here: one that knows no token at all, and
//! one that returns what it was built with.

use crate::error::OAuthCardError;
use crate::model::{copy_opt_text, opt_text, texts, TokenSet};
use vstd::prelude::*;
use vstd::string::StringExecFns;

verus! {

/// What the flow engine asks of a token broker.
///
/// A broker may fail on any call, and may answer the same question
/// differently at different times. What it may answer is its own affair:
/// a broker that knows more says so in the three predicates, over which
/// the flow engine's contracts are stated. Unless a broker says otherwise,
/// it may answer anything.
pub trait OAuthBackend {
    /// Whether `reply` is an answer that this broker may give when it is
    /// asked for the token of `subject` at the provider.
    open spec fn may_hold(
        &self,
        provider_id: Seq<char>,
        subject: Seq<char>,
        scopes: Seq<Seq<char>>,
        reply: Result<Option<TokenSet>, OAuthCardError>,
    ) -> bool {
        true
    }

    /// Whether `reply` is an answer that this broker may give when it is
    /// asked for a consent URL.
    open spec fn may_consent(
        &self,
        provider_id: Seq<char>,
        subject: Seq<char>,
        scopes: Seq<Seq<char>>,
        redirect_path: Seq<char>,
        extra_json: Option<Seq<char>>,
        reply: Result<String, OAuthCardError>,
    ) -> bool {
        true
    }

    /// Whether `reply` is an answer that this broker may give when it is
    /// asked to exchange `code`.
    open spec fn may_exchange(
        &self,
        provider_id: Seq<char>,
        subject: Seq<char>,
        code: Seq<char>,
        redirect_path: Seq<char>,
        reply: Result<TokenSet, OAuthCardError>,
    ) -> bool {
        true
    }

    /// The token held for the subject at the provider, if there is one.
    fn get_token(&self, provider_id: &str, subject: &str, scopes: &[String]) -> (r: Result<
        Option<TokenSet>,
        OAuthCardError,
    >)
        ensures
            self.may_hold(provider_id@, subject@, texts(scopes@), r),
    ;

    /// The URL at which the user grants access.
    fn get_consent_url(
        &self,
        provider_id: &str,
        subject: &str,
        scopes: &[String],
        redirect_path: &str,
        extra_json: Option<String>,
    ) -> (r: Result<String, OAuthCardError>)
        ensures
            self.may_consent(
                provider_id@,
                subject@,
                texts(scopes@),
                redirect_path@,
                opt_text(extra_json),
                r,
            ),
    ;

    /// Trades an authorization code for a token.
    fn exchange_code(
        &self,
        provider_id: &str,
        subject: &str,
        code: &str,
        redirect_path: &str,
    ) -> (r: Result<TokenSet, OAuthCardError>)
        ensures
            self.may_exchange(provider_id@, subject@, code@, redirect_path@, r),
    ;
}

/// A copy of a token.
pub fn copy_token(token: &TokenSet) -> (r: TokenSet)
    ensures
        r@ == token@,
{
    TokenSet {
        access_token: token.access_token.clone(),
        refresh_token: copy_opt_text(&token.refresh_token),
        expires_at: token.expires_at,
        token_type: copy_opt_text(&token.token_type),
        extra: match &token.extra {
            Some(v) => Some(v.clone()),
            None => None,
        },
    }
}

/// A broker that holds no token, offers no consent page and cannot exchange
/// a code.
#[derive(Debug, Clone, Copy, Default)]
pub struct NoopBroker;

impl OAuthBackend for NoopBroker {
    open spec fn may_hold(
        &self,
        provider_id: Seq<char>,
        subject: Seq<char>,
        scopes: Seq<Seq<char>>,
        reply: Result<Option<TokenSet>, OAuthCardError>,
    ) -> bool {
        reply matches Ok(None)
    }

    open spec fn may_consent(
        &self,
        provider_id: Seq<char>,
        subject: Seq<char>,
        scopes: Seq<Seq<char>>,
        redirect_path: Seq<char>,
        extra_json: Option<Seq<char>>,
        reply: Result<String, OAuthCardError>,
    ) -> bool {
        reply matches Ok(url) && url@.len() == 0
    }

    open spec fn may_exchange(
        &self,
        provider_id: Seq<char>,
        subject: Seq<char>,
        code: Seq<char>,
        redirect_path: Seq<char>,
        reply: Result<TokenSet, OAuthCardError>,
    ) -> bool {
        reply matches Err(OAuthCardError::Unsupported(m)) && m@
            == "exchange_code unavailable on native test backend"@
    }

    fn get_token(&self, _provider_id: &str, _subject: &str, _scopes: &[String]) -> (r: Result<
        Option<TokenSet>,
        OAuthCardError,
    >) {
        Ok(None)
    }

    fn get_consent_url(
        &self,
        _provider_id: &str,
        _subject: &str,
        _scopes: &[String],
        _redirect_path: &str,
        _extra_json: Option<String>,
    ) -> (r: Result<String, OAuthCardError>) {
        Ok(String::new())
    }

    fn exchange_code(
        &self,
        _provider_id: &str,
        _subject: &str,
        _code: &str,
        _redirect_path: &str,
    ) -> (r: Result<TokenSet, OAuthCardError>) {
        Err(
            OAuthCardError::Unsupported(
                String::from_str("exchange_code unavailable on native test backend"),
            ),
        )
    }
}

/// The broker that is used where no host provides one.
pub fn default_backend() -> (b: NoopBroker)
    ensures
        b == NoopBroker,
{
    NoopBroker
}

/// A broker that answers from memory: the token and the consent URL that it
/// was built with.
#[derive(Debug, Clone)]
pub struct MockBroker {
    pub token: Option<TokenSet>,
    pub consent_url: String,
}

impl Default for MockBroker {
    fn default() -> (b: Self)
        ensures
            b.token is None,
            b.consent_url@.len() == 0,
    {
        MockBroker { token: None, consent_url: String::new() }
    }
}

impl OAuthBackend for MockBroker {
    open spec fn may_hold(
        &self,
        provider_id: Seq<char>,
        subject: Seq<char>,
        scopes: Seq<Seq<char>>,
        reply: Result<Option<TokenSet>, OAuthCardError>,
    ) -> bool {
        match self.token {
            Some(held) => reply matches Ok(Some(t)) && t@ == held@,
            None => reply matches Ok(None),
        }
    }

    open spec fn may_consent(
        &self,
        provider_id: Seq<char>,
        subject: Seq<char>,
        scopes: Seq<Seq<char>>,
        redirect_path: Seq<char>,
        extra_json: Option<Seq<char>>,
        reply: Result<String, OAuthCardError>,
    ) -> bool {
        reply matches Ok(url) && url@ == self.consent_url@
    }

    open spec fn may_exchange(
        &self,
        provider_id: Seq<char>,
        subject: Seq<char>,
        code: Seq<char>,
        redirect_path: Seq<char>,
        reply: Result<TokenSet, OAuthCardError>,
    ) -> bool {
        match self.token {
            Some(held) => reply matches Ok(t) && t@ == held@,
            None => reply matches Err(OAuthCardError::Unsupported(m)) && m@ == "no token in mock"@,
        }
    }

    fn get_token(&self, _provider_id: &str, _subject: &str, _scopes: &[String]) -> (r: Result<
        Option<TokenSet>,
        OAuthCardError,
    >) {
        match &self.token {
            Some(held) => Ok(Some(copy_token(held))),
            None => Ok(None),
        }
    }

    fn get_consent_url(
        &self,
        _provider_id: &str,
        _subject: &str,
        _scopes: &[String],
        _redirect_path: &str,
        _extra_json: Option<String>,
    ) -> (r: Result<String, OAuthCardError>) {
        Ok(self.consent_url.clone())
    }

    fn exchange_code(
        &self,
        _provider_id: &str,
        _subject: &str,
        _code: &str,
        _redirect_path: &str,
    ) -> (r: Result<TokenSet, OAuthCardError>) {
        match &self.token {
            Some(held) => Ok(copy_token(held)),
            None => Err(OAuthCardError::Unsupported(String::from_str("no token in mock"))),
        }
    }
}

} // verus!
