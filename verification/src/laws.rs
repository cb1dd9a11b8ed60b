//! What holds of every answer, proved from the contracts of the flow engine.

use crate::broker::{MockBroker, NoopBroker, OAuthBackend};
use crate::component::{is_response, reports};
use crate::decode::is_parsed_input;
use crate::error::OAuthCardError;
use crate::json::{json_of, Json};
use crate::logic::{
    ends_request, ends_start_sign_in, follows_token_reply, is_complete_sign_in_answer,
    is_connected_output, is_post_back, is_sign_in_output, is_status_card_answer, mode_name,
    provider_of, redirect_of,
};
use crate::model::{
    opt_text, texts, Action, OAuthCardInput, OAuthCardMode, OAuthCardOutput, OAuthStatus,
    OauthProvider, TokenSet,
};
use crate::shape::member_of;
use crate::text::{ascii_lower, lower_char};
use vstd::prelude::*;

verus! {

/// Which of an answer's optional fields are set: the card, the context, the
/// header, the state and the error, in this order.
pub open spec fn fields_set(out: OAuthCardOutput) -> (bool, bool, bool, bool, bool) {
    (
        out.card is Some,
        out.auth_context is Some,
        out.auth_header is Some,
        out.state_id is Some,
        out.error is Some,
    )
}

/// The fields that an answer may have under each mode, and the status that
/// goes with them.
pub open spec fn fields_follow_mode(input: OAuthCardInput, out: OAuthCardOutput) -> bool {
    match input.mode {
        OAuthCardMode::StatusCard => {
            ||| out.status == OAuthStatus::Okay && fields_set(out) == (
                true,
                true,
                true,
                false,
                false,
            )
            ||| out.status == OAuthStatus::NeedsSignIn && fields_set(out) == (
                true,
                false,
                false,
                false,
                false,
            )
        },
        OAuthCardMode::StartSignIn => out.status == OAuthStatus::Okay && fields_set(out) == (
            true,
            false,
            false,
            true,
            false,
        ),
        OAuthCardMode::CompleteSignIn => out.status == OAuthStatus::Okay && fields_set(out) == (
            true,
            true,
            true,
            false,
            false,
        ),
        OAuthCardMode::EnsureToken => {
            ||| out.status == OAuthStatus::Okay && fields_set(out) == (
                false,
                true,
                true,
                false,
                false,
            )
            ||| out.status == OAuthStatus::NeedsSignIn && fields_set(out) == (
                input.allow_auto_sign_in,
                false,
                false,
                input.allow_auto_sign_in,
                false,
            )
        },
        OAuthCardMode::Disconnect => out.status == OAuthStatus::Okay && fields_set(out) == (
            true,
            false,
            false,
            false,
            false,
        ),
    }
}

/// Every answer that is no error has the status and exactly the fields that
/// its mode allows: a card with context and header for a connected account,
/// a card and the state for a sign-in, context and header alone for a token
/// that was asked for, and never an error text.
pub proof fn answer_fields_follow_mode<B: OAuthBackend>(
    backend: B,
    input: OAuthCardInput,
    out: OAuthCardOutput,
)
    requires
        ends_request(backend, input, Ok(out)),
    ensures
        fields_follow_mode(input, out),
        out.status != OAuthStatus::Error,
        out.error is None,
{
    let r: Result<OAuthCardOutput, OAuthCardError> = Ok(out);
    match input.mode {
        OAuthCardMode::StatusCard => {
            let reply = choose|reply: Result<Option<TokenSet>, OAuthCardError>|
                backend.may_hold(input.provider_id@, input.subject@, texts(input.scopes@), reply)
                    && is_status_card_answer(input, reply, r);
            assert(is_status_card_answer(input, reply, r));
        },
        OAuthCardMode::StartSignIn => {},
        OAuthCardMode::CompleteSignIn => {
            let reply = choose|reply: Result<TokenSet, OAuthCardError>|
                backend.may_exchange(
                    input.provider_id@,
                    input.subject@,
                    input.auth_code->0@,
                    redirect_of(input),
                    reply,
                ) && is_complete_sign_in_answer(input, reply, r);
            assert(is_complete_sign_in_answer(input, reply, r));
        },
        OAuthCardMode::EnsureToken => {
            let reply = choose|reply: Result<Option<TokenSet>, OAuthCardError>|
                backend.may_hold(input.provider_id@, input.subject@, texts(input.scopes@), reply)
                    && follows_token_reply(backend, input, reply, r);
            assert(follows_token_reply(backend, input, reply, r));
        },
        OAuthCardMode::Disconnect => {},
    }
}

/// The redirect path of a request that names none is `/oauth/callback/`
/// followed by the provider's identifier; a request that names one keeps it.
pub proof fn redirect_path_defaults(input: OAuthCardInput)
    ensures
        input.redirect_path is None ==> redirect_of(input) == "/oauth/callback/"@
            + input.provider_id@,
        input.redirect_path matches Some(p) ==> redirect_of(input) == p@,
{
}

/// The state that the answer to a started sign-in carries is the state in
/// the data of the card's `Continue` button, which is the card's last
/// button; it is the request's own state where the request has one.
pub proof fn sign_in_state_matches_card<B: OAuthBackend>(
    backend: B,
    input: OAuthCardInput,
    status: OAuthStatus,
    out: OAuthCardOutput,
)
    requires
        ends_start_sign_in(backend, input, status, Ok(out)),
    ensures
        out.state_id is Some,
        out.card is Some,
        out.card->0.actions@.len() > 0,
        out.card->0.actions@.last() matches Action::PostBack { title, data } && title@
            == "Continue"@ && (member_of(data, "state_id"@) matches Some(x) && json_of(x)
            == Json::Text(out.state_id->0@)) && (member_of(data, "mode"@) matches Some(m)
            && json_of(m) == Json::Text(mode_name(OAuthCardMode::CompleteSignIn))),
        input.state_id matches Some(s) ==> out.state_id->0@ == s@,
{
    let (id, consent) = choose|id: Seq<char>, consent: Result<String, OAuthCardError>|
        crate::logic::state_follows(input, id) && backend.may_consent(
            input.provider_id@,
            input.subject@,
            texts(input.scopes@),
            redirect_of(input),
            crate::logic::extra_of(input),
            consent,
        ) && #[trigger] is_sign_in_output(
            out,
            input,
            status,
            id,
            crate::logic::consent_of(consent),
            true,
        );
    assert(is_sign_in_output(out, input, status, id, crate::logic::consent_of(consent), true));
}

/// The action is a post-back button whose data names the mode `name`.
pub open spec fn names_mode(a: Action, name: Seq<char>) -> bool {
    a matches Action::PostBack { title, data } && member_of(data, "mode"@) matches Some(m)
        && json_of(m) == Json::Text(name)
}

/// A disconnect is always answered with status `ok` and a card that has a
/// post-back button whose data names the mode `start-sign-in`.
pub proof fn disconnect_offers_sign_in<B: OAuthBackend>(
    backend: B,
    input: OAuthCardInput,
    r: Result<OAuthCardOutput, OAuthCardError>,
)
    requires
        input.mode == OAuthCardMode::Disconnect,
        ends_request(backend, input, r),
    ensures
        r matches Ok(out) && out.status == OAuthStatus::Okay && out.card is Some && exists|i: int|
            0 <= i < out.card->0.actions@.len() && names_mode(
                #[trigger] out.card->0.actions@[i],
                "start-sign-in"@,
            ),
{
    let out = r->Ok_0;
    let card = out.card->0;
    assert(is_post_back(card.actions@[0], "Reconnect"@, OAuthCardMode::StartSignIn, input, None));
}

/// Lowering the case of a text twice is lowering it once.
pub proof fn ascii_lower_is_idempotent(s: Seq<char>)
    ensures
        ascii_lower(ascii_lower(s)) == ascii_lower(s),
{
    assert forall|i: int| 0 <= i < s.len() implies lower_char(lower_char(s[i])) == lower_char(
        s[i],
    ) by {
        let c = s[i];
        if 'A' <= c && c <= 'Z' {
            assert(lower_char(c) as u32 == c as u32 + 32);
        }
    }
    assert(ascii_lower(ascii_lower(s)) =~= ascii_lower(s));
}

/// The provider of an identifier does not depend on the case of its ASCII
/// letters: two identifiers with the same lower-case form name the same
/// provider, and an identifier names the provider of its lower-case form.
pub proof fn provider_ignores_case(a: Seq<char>, b: Seq<char>)
    ensures
        ascii_lower(a) == ascii_lower(b) ==> provider_of(a) == provider_of(b),
        provider_of(ascii_lower(a)) == provider_of(a),
{
    ascii_lower_is_idempotent(a);
}

/// An identifier whose lower-case form is none of the known names stands
/// for the provider `Custom`.
pub proof fn unknown_provider_is_custom(id: Seq<char>)
    requires
        ascii_lower(id) != "microsoft"@,
        ascii_lower(id) != "msgraph"@,
        ascii_lower(id) != "m365"@,
        ascii_lower(id) != "google"@,
        ascii_lower(id) != "github"@,
    ensures
        provider_of(id) == OauthProvider::Custom,
{
}

/// The card of every answer has no payload that is set to the JSON null:
/// `adaptive` is not set, and the metadata of the OAuth part is an object.
pub proof fn answer_cards_keep_payloads<B: OAuthBackend>(
    backend: B,
    input: OAuthCardInput,
    out: OAuthCardOutput,
)
    requires
        ends_request(backend, input, Ok(out)),
    ensures
        out.card matches Some(card) ==> card.adaptive is None && (card.oauth matches Some(o)
            && o.metadata matches Some(m) && json_of(m) is Object),
{
    let r: Result<OAuthCardOutput, OAuthCardError> = Ok(out);
    match input.mode {
        OAuthCardMode::StatusCard => {
            let reply = choose|reply: Result<Option<TokenSet>, OAuthCardError>|
                backend.may_hold(input.provider_id@, input.subject@, texts(input.scopes@), reply)
                    && is_status_card_answer(input, reply, r);
            assert(is_status_card_answer(input, reply, r));
        },
        OAuthCardMode::StartSignIn => {},
        OAuthCardMode::CompleteSignIn => {
            let reply = choose|reply: Result<TokenSet, OAuthCardError>|
                backend.may_exchange(
                    input.provider_id@,
                    input.subject@,
                    input.auth_code->0@,
                    redirect_of(input),
                    reply,
                ) && is_complete_sign_in_answer(input, reply, r);
            assert(is_complete_sign_in_answer(input, reply, r));
        },
        OAuthCardMode::EnsureToken => {
            let reply = choose|reply: Result<Option<TokenSet>, OAuthCardError>|
                backend.may_hold(input.provider_id@, input.subject@, texts(input.scopes@), reply)
                    && follows_token_reply(backend, input, reply, r);
            assert(follows_token_reply(backend, input, reply, r));
        },
        OAuthCardMode::Disconnect => {},
    }
}

/// With a broker that answers from memory, a status request shows the
/// connected account of the token that the broker holds: the status is
/// `ok`, and the header is `Authorization` with the token's type, `Bearer`
/// where it has none, a blank and the access token. Where the broker holds
/// no token the status says that a sign-in is needed, and the answer has a
/// card.
pub proof fn status_card_shows_held_token(
    broker: MockBroker,
    input: OAuthCardInput,
    r: Result<OAuthCardOutput, OAuthCardError>,
)
    requires
        input.mode == OAuthCardMode::StatusCard,
        ends_request(broker, input, r),
    ensures
        r is Ok,
        match broker.token {
            Some(held) => is_connected_output(r->Ok_0, input, held@) && r->Ok_0.auth_header->0@
                == seq![
                ("Authorization"@, (match held.token_type {
                    Some(t) => t@,
                    None => "Bearer"@,
                }) + " "@ + held.access_token@),
            ],
            None => r->Ok_0.status == OAuthStatus::NeedsSignIn && r->Ok_0.card is Some,
        },
{
    let reply = choose|reply: Result<Option<TokenSet>, OAuthCardError>|
        broker.may_hold(input.provider_id@, input.subject@, texts(input.scopes@), reply)
            && is_status_card_answer(input, reply, r);
    assert(is_status_card_answer(input, reply, r));
}

/// With a broker that answers from memory and holds no token, the request
/// for a token ends in the status that a sign-in is needed: with a card
/// whose start URL is the broker's consent URL, where the request allows a
/// sign-in to be started and the broker has such a URL; without a card
/// where the request does not allow it.
pub proof fn ensure_token_without_token(
    broker: MockBroker,
    input: OAuthCardInput,
    r: Result<OAuthCardOutput, OAuthCardError>,
)
    requires
        input.mode == OAuthCardMode::EnsureToken,
        broker.token is None,
        ends_request(broker, input, r),
    ensures
        r is Ok,
        r->Ok_0.status == OAuthStatus::NeedsSignIn,
        !input.allow_auto_sign_in ==> r->Ok_0.card is None,
        input.allow_auto_sign_in ==> r->Ok_0.card is Some && r->Ok_0.card->0.oauth is Some
            && opt_text(r->Ok_0.card->0.oauth->0.start_url) == (if broker.consent_url@.len() == 0 {
            None
        } else {
            Some(broker.consent_url@)
        }),
{
    let reply = choose|reply: Result<Option<TokenSet>, OAuthCardError>|
        broker.may_hold(input.provider_id@, input.subject@, texts(input.scopes@), reply)
            && follows_token_reply(broker, input, reply, r);
    assert(follows_token_reply(broker, input, reply, r));
    if input.allow_auto_sign_in {
        let out = r->Ok_0;
        let (id, consent) = choose|id: Seq<char>, consent: Result<String, OAuthCardError>|
            crate::logic::state_follows(input, id) && broker.may_consent(
                input.provider_id@,
                input.subject@,
                texts(input.scopes@),
                redirect_of(input),
                crate::logic::extra_of(input),
                consent,
            ) && #[trigger] is_sign_in_output(
                out,
                input,
                OAuthStatus::NeedsSignIn,
                id,
                crate::logic::consent_of(consent),
                true,
            );
        assert(is_sign_in_output(
            out,
            input,
            OAuthStatus::NeedsSignIn,
            id,
            crate::logic::consent_of(consent),
            true,
        ));
    }
}

/// The completion of a sign-in without an authorization code is invalid,
/// whatever the broker would have answered.
pub proof fn complete_sign_in_needs_code<B: OAuthBackend>(
    backend: B,
    input: OAuthCardInput,
    r: Result<OAuthCardOutput, OAuthCardError>,
)
    requires
        input.mode == OAuthCardMode::CompleteSignIn,
        input.auth_code is None,
        ends_request(backend, input, r),
    ensures
        r matches Err(OAuthCardError::Invalid(m)) && m@
            == "auth_code is required to complete sign-in"@,
{
}

/// A response has exactly one status. Its error text is set exactly when
/// the status is `error`, and a response with that status has nothing but
/// the text: no card, no context, no header and no state.
pub proof fn error_stands_alone(input: Seq<char>, out: OAuthCardOutput)
    requires
        is_response(input, out),
    ensures
        out.status == OAuthStatus::Error <==> out.error is Some,
        out.status == OAuthStatus::Error ==> fields_set(out) == (false, false, false, false, true),
{
    let (parsed, r) = choose|
        parsed: Result<OAuthCardInput, OAuthCardError>,
        r: Result<OAuthCardOutput, OAuthCardError>,
    |
        #![trigger is_parsed_input(input, parsed), reports(out, r)]
        is_parsed_input(input, parsed) && reports(out, r) && match parsed {
            Ok(request) => ends_request(NoopBroker, request, r),
            Err(e) => r == Err::<OAuthCardOutput, OAuthCardError>(e),
        };
    if r is Ok {
        answer_fields_follow_mode(NoopBroker, parsed->Ok_0, out);
    }
}

} // verus!
