//! The request decoder: from the text of a request to the request, and
//! from the text of a broker's reply to a token.
//!
//! A text is first parsed as JSON; what follows reads the members that a
//! request or a token is made of. Members that are not known are passed over.

use crate::error::{Flaw, OAuthCardError};
use crate::json::{as_text, error_text, json_of, parse_json, parsed_json, Json};
use crate::logic::mode_name;
use crate::model::{InputView, OAuthCardInput, OAuthCardMode, TokenSet, TokenView};
use crate::reading::{
    agrees, check_object, needed_text, no_object, optional_number, optional_text,
    optional_texts, present, present_member, read_needed_text, read_optional_number,
    read_optional_text, read_optional_texts, read_present, read_switch_or, switch_or,
};
use crate::text::{is_trim_of, same_text, trim};
use vstd::prelude::*;
use vstd::string::StringExecFns;

verus! {

/// The mode that is written as `name`.
pub open spec fn mode_named(name: Seq<char>) -> Option<OAuthCardMode> {
    if name == mode_name(OAuthCardMode::StatusCard) {
        Some(OAuthCardMode::StatusCard)
    } else if name == mode_name(OAuthCardMode::StartSignIn) {
        Some(OAuthCardMode::StartSignIn)
    } else if name == mode_name(OAuthCardMode::CompleteSignIn) {
        Some(OAuthCardMode::CompleteSignIn)
    } else if name == mode_name(OAuthCardMode::EnsureToken) {
        Some(OAuthCardMode::EnsureToken)
    } else if name == mode_name(OAuthCardMode::Disconnect) {
        Some(OAuthCardMode::Disconnect)
    } else {
        None
    }
}

/// Reads a mode from its name.
pub fn parse_mode(name: &str) -> (r: Option<OAuthCardMode>)
    ensures
        r == mode_named(name@),
{
    if same_text(name, "status-card") {
        Some(OAuthCardMode::StatusCard)
    } else if same_text(name, "start-sign-in") {
        Some(OAuthCardMode::StartSignIn)
    } else if same_text(name, "complete-sign-in") {
        Some(OAuthCardMode::CompleteSignIn)
    } else if same_text(name, "ensure-token") {
        Some(OAuthCardMode::EnsureToken)
    } else if same_text(name, "disconnect") {
        Some(OAuthCardMode::Disconnect)
    } else {
        None
    }
}

/// A text that a request must have: the string under `key`. It is invalid
/// for the member to be missing, to be anything but a string, or to be the
/// empty string.
pub open spec fn required_text(v: serde_json::Value, key: Seq<char>) -> Result<Seq<char>, Flaw> {
    match present_member(v, key) {
        Some(x) => match json_of(x) {
            Json::Text(s) => if s.len() == 0 {
                Err(Flaw::Invalid(key + " must not be empty"@))
            } else {
                Ok(s)
            },
            _ => Err(Flaw::Invalid(key + " is required"@)),
        },
        None => Err(Flaw::Invalid(key + " is required"@)),
    }
}

/// Reads a text that a request must have.
fn read_required_text(v: &serde_json::Value, key: &str) -> (r: Result<String, OAuthCardError>)
    ensures
        agrees(r, required_text(*v, key@)),
{
    match present(v, key) {
        Some(x) => match as_text(x) {
            Some(s) => if s.is_empty() {
                Err(OAuthCardError::Invalid(String::from_str(key).concat(" must not be empty")))
            } else {
                Ok(s.to_owned())
            },
            None => Err(OAuthCardError::Invalid(String::from_str(key).concat(" is required"))),
        },
        None => Err(OAuthCardError::Invalid(String::from_str(key).concat(" is required"))),
    }
}

/// The request that a JSON value stands for, or the first thing that is
/// wrong with it. The members are read in the order in which they are
/// listed here; a request to complete a sign-in must bring its
/// authorization code.
pub open spec fn decoded_request(v: serde_json::Value) -> Result<InputView, Flaw> {
    if !(json_of(v) is Object) {
        Err(no_object("input json: "@))
    } else if required_text(v, "mode"@) is Err {
        Err(required_text(v, "mode"@)->Err_0)
    } else if mode_named(required_text(v, "mode"@)->Ok_0) is None {
        Err(Flaw::Invalid("mode is not known"@))
    } else if required_text(v, "provider_id"@) is Err {
        Err(required_text(v, "provider_id"@)->Err_0)
    } else if required_text(v, "subject"@) is Err {
        Err(required_text(v, "subject"@)->Err_0)
    } else if optional_text(v, "tenant"@, "input json: "@) is Err {
        Err(optional_text(v, "tenant"@, "input json: "@)->Err_0)
    } else if optional_text(v, "team"@, "input json: "@) is Err {
        Err(optional_text(v, "team"@, "input json: "@)->Err_0)
    } else if optional_texts(v, "scopes"@, "input json: "@) is Err {
        Err(optional_texts(v, "scopes"@, "input json: "@)->Err_0)
    } else if optional_text(v, "state_id"@, "input json: "@) is Err {
        Err(optional_text(v, "state_id"@, "input json: "@)->Err_0)
    } else if optional_text(v, "auth_code"@, "input json: "@) is Err {
        Err(optional_text(v, "auth_code"@, "input json: "@)->Err_0)
    } else if switch_or(v, "allow_auto_sign_in"@, false, "input json: "@) is Err {
        Err(switch_or(v, "allow_auto_sign_in"@, false, "input json: "@)->Err_0)
    } else if optional_text(v, "redirect_path"@, "input json: "@) is Err {
        Err(optional_text(v, "redirect_path"@, "input json: "@)->Err_0)
    } else if mode_named(required_text(v, "mode"@)->Ok_0) == Some(OAuthCardMode::CompleteSignIn)
        && optional_text(v, "auth_code"@, "input json: "@)->Ok_0 is None {
        Err(Flaw::Invalid("auth_code is required to complete sign-in"@))
    } else {
        Ok(
            InputView {
                mode: mode_named(required_text(v, "mode"@)->Ok_0)->0,
                provider_id: required_text(v, "provider_id"@)->Ok_0,
                subject: required_text(v, "subject"@)->Ok_0,
                tenant: optional_text(v, "tenant"@, "input json: "@)->Ok_0,
                team: optional_text(v, "team"@, "input json: "@)->Ok_0,
                scopes: optional_texts(v, "scopes"@, "input json: "@)->Ok_0,
                state_id: optional_text(v, "state_id"@, "input json: "@)->Ok_0,
                auth_code: optional_text(v, "auth_code"@, "input json: "@)->Ok_0,
                allow_auto_sign_in: switch_or(
                    v,
                    "allow_auto_sign_in"@,
                    false,
                    "input json: "@,
                )->Ok_0,
                redirect_path: optional_text(v, "redirect_path"@, "input json: "@)->Ok_0,
                extra_json: present_member(v, "extra_json"@),
            },
        )
    }
}

/// Reads a request from a JSON value.
pub fn decode_input(v: &serde_json::Value) -> (r: Result<OAuthCardInput, OAuthCardError>)
    ensures
        agrees(r, decoded_request(*v)),
{
    match check_object(v, "input json: ") {
        Ok(_) => {},
        Err(e) => {
            return Err(e);
        },
    }
    let mode_text = match read_required_text(v, "mode") {
        Ok(t) => t,
        Err(e) => {
            return Err(e);
        },
    };
    let mode = match parse_mode(mode_text.as_str()) {
        Some(m) => m,
        None => {
            return Err(OAuthCardError::Invalid(String::from_str("mode is not known")));
        },
    };
    let provider_id = match read_required_text(v, "provider_id") {
        Ok(t) => t,
        Err(e) => {
            return Err(e);
        },
    };
    let subject = match read_required_text(v, "subject") {
        Ok(t) => t,
        Err(e) => {
            return Err(e);
        },
    };
    let tenant = match read_optional_text(v, "tenant", "input json: ") {
        Ok(t) => t,
        Err(e) => {
            return Err(e);
        },
    };
    let team = match read_optional_text(v, "team", "input json: ") {
        Ok(t) => t,
        Err(e) => {
            return Err(e);
        },
    };
    let scopes = match read_optional_texts(v, "scopes", "input json: ") {
        Ok(t) => t,
        Err(e) => {
            return Err(e);
        },
    };
    let state_id = match read_optional_text(v, "state_id", "input json: ") {
        Ok(t) => t,
        Err(e) => {
            return Err(e);
        },
    };
    let auth_code = match read_optional_text(v, "auth_code", "input json: ") {
        Ok(t) => t,
        Err(e) => {
            return Err(e);
        },
    };
    let allow_auto_sign_in = match read_switch_or(v, "allow_auto_sign_in", false, "input json: ") {
        Ok(t) => t,
        Err(e) => {
            return Err(e);
        },
    };
    let redirect_path = match read_optional_text(v, "redirect_path", "input json: ") {
        Ok(t) => t,
        Err(e) => {
            return Err(e);
        },
    };
    let extra_json = read_present(v, "extra_json");
    let missing_code = match mode {
        OAuthCardMode::CompleteSignIn => auth_code.is_none(),
        _ => false,
    };
    if missing_code {
        return Err(
            OAuthCardError::Invalid(String::from_str("auth_code is required to complete sign-in")),
        );
    }
    Ok(
        OAuthCardInput {
            mode,
            provider_id,
            subject,
            tenant,
            team,
            scopes,
            state_id,
            auth_code,
            allow_auto_sign_in,
            redirect_path,
            extra_json,
        },
    )
}

/// What the text of a request decodes to: the text without the white space
/// around it must be JSON, and the value a request. Where the text is not
/// JSON the error is a parse error whose detail begins with `input json: `
/// and goes on with the parser's own words.
pub open spec fn is_parsed_input(
    text: Seq<char>,
    r: Result<OAuthCardInput, OAuthCardError>,
) -> bool {
    exists|t: Seq<char>| #[trigger]
        is_trim_of(t, text) && match parsed_json(t) {
            Some(v) => agrees(r, decoded_request(v)),
            None => r matches Err(OAuthCardError::Parse(m)) && "input json: "@.is_prefix_of(m@),
        }
}

/// Reads a request from its text.
pub fn parse_input(input: &str) -> (r: Result<OAuthCardInput, OAuthCardError>)
    ensures
        is_parsed_input(input@, r),
{
    let t = trim(input);
    let r = match parse_json(t) {
        Ok(v) => decode_input(&v),
        Err(err) => Err(
            OAuthCardError::Parse(
                String::from_str("input json: ").concat(error_text(&err).as_str()),
            ),
        ),
    };
    assert(is_trim_of(t@, input@));
    r
}

/// The token that a JSON value stands for, or the first thing that is wrong
/// with it; every flaw of a reply is a parse error, whose detail begins with
/// `context`.
pub open spec fn decoded_token(v: serde_json::Value, context: Seq<char>) -> Result<
    TokenView,
    Flaw,
> {
    if !(json_of(v) is Object) {
        Err(no_object(context))
    } else if needed_text(v, "access_token"@, context) is Err {
        Err(needed_text(v, "access_token"@, context)->Err_0)
    } else if optional_text(v, "refresh_token"@, context) is Err {
        Err(optional_text(v, "refresh_token"@, context)->Err_0)
    } else if optional_number(v, "expires_at"@, context) is Err {
        Err(optional_number(v, "expires_at"@, context)->Err_0)
    } else if optional_text(v, "token_type"@, context) is Err {
        Err(optional_text(v, "token_type"@, context)->Err_0)
    } else {
        Ok(
            TokenView {
                access_token: needed_text(v, "access_token"@, context)->Ok_0,
                refresh_token: optional_text(v, "refresh_token"@, context)->Ok_0,
                expires_at: optional_number(v, "expires_at"@, context)->Ok_0,
                token_type: optional_text(v, "token_type"@, context)->Ok_0,
                extra: present_member(v, "extra"@),
            },
        )
    }
}

/// Reads a token from a JSON value.
pub fn decode_token(v: &serde_json::Value, context: &str) -> (r: Result<TokenSet, OAuthCardError>)
    ensures
        agrees(r, decoded_token(*v, context@)),
{
    match check_object(v, context) {
        Ok(_) => {},
        Err(e) => {
            return Err(e);
        },
    }
    let access_token = match read_needed_text(v, "access_token", context) {
        Ok(t) => t,
        Err(e) => {
            return Err(e);
        },
    };
    let refresh_token = match read_optional_text(v, "refresh_token", context) {
        Ok(t) => t,
        Err(e) => {
            return Err(e);
        },
    };
    let expires_at = match read_optional_number(v, "expires_at", context) {
        Ok(t) => t,
        Err(e) => {
            return Err(e);
        },
    };
    let token_type = match read_optional_text(v, "token_type", context) {
        Ok(t) => t,
        Err(e) => {
            return Err(e);
        },
    };
    let extra = read_present(v, "extra");
    Ok(TokenSet { access_token, refresh_token, expires_at, token_type, extra })
}

/// What the text of a broker's reply decodes to under `context`: the token
/// that its JSON value stands for. Where the text is not JSON the error is
/// a parse error whose detail begins with `context` and goes on with the
/// parser's own words.
pub open spec fn is_parsed_token(
    text: Seq<char>,
    context: Seq<char>,
    r: Result<TokenSet, OAuthCardError>,
) -> bool {
    match parsed_json(text) {
        Some(v) => agrees(r, decoded_token(v, context)),
        None => r matches Err(OAuthCardError::Parse(m)) && context.is_prefix_of(m@),
    }
}

/// Reads a token from the text of a reply.
fn parse_token(text: &str, context: &str) -> (r: Result<TokenSet, OAuthCardError>)
    ensures
        is_parsed_token(text@, context@, r),
{
    match parse_json(text) {
        Ok(v) => decode_token(&v, context),
        Err(err) => Err(
            OAuthCardError::Parse(String::from_str(context).concat(error_text(&err).as_str())),
        ),
    }
}

/// What the broker's reply to the request for a token decodes to: an empty
/// reply means that there is no token; any other reply must be the JSON
/// text of a token.
pub open spec fn is_parsed_token_reply(
    reply: Seq<char>,
    r: Result<Option<TokenSet>, OAuthCardError>,
) -> bool {
    if reply.len() == 0 {
        r matches Ok(None)
    } else {
        match r {
            Ok(Some(t)) => is_parsed_token(reply, "token json: "@, Ok(t)),
            Ok(None) => false,
            Err(e) => is_parsed_token(reply, "token json: "@, Err(e)),
        }
    }
}

/// Reads the broker's reply to the request for a token.
pub fn parse_token_reply(reply: &str) -> (r: Result<Option<TokenSet>, OAuthCardError>)
    ensures
        is_parsed_token_reply(reply@, r),
{
    if reply.is_empty() {
        return Ok(None);
    }
    match parse_token(reply, "token json: ") {
        Ok(t) => Ok(Some(t)),
        Err(e) => Err(e),
    }
}

/// Reads the broker's reply to the exchange of a code, which must be the
/// JSON text of a token.
pub fn parse_exchange_reply(reply: &str) -> (r: Result<TokenSet, OAuthCardError>)
    ensures
        is_parsed_token(reply@, "exchange json: "@, r),
{
    parse_token(reply, "exchange json: ")
}

} // verus!
