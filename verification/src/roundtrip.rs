//! The boundary encoding loses nothing: what was encoded is read back as it
//! was.
//!
//! There is one exception. A payload of a card (`adaptive`, or the
//! `metadata` of its OAuth part) that is set to the JSON null is written as
//! null, and a null is read back as a payload that is not set. The laws
//! here speak of the responses without such a payload.

use crate::encode::{
    encodes_action, encodes_card, encodes_context, encodes_header, encodes_image, encodes_line,
    encodes_oauth, encodes_output, kind_name, prompt_name, provider_name, status_name,
};
use crate::broker::OAuthBackend;
use crate::error::Flaw;
use crate::json::json_of;
use crate::logic::ends_request;
use crate::model::{
    texts, Action, ActionView, AuthContext, AuthContextView, AuthHeader, CardView, ImageRef,
    ImageView, MessageCard, MessageCardKind, OAuthCardInput, OAuthCardOutput, OAuthStatus,
    OauthCard, OauthPrompt, OauthProvider, OauthView, OutputView,
};
use crate::reading::{listed_texts, text_items};
use crate::response::{
    decoded_action, decoded_actions, decoded_card, decoded_context, decoded_header,
    decoded_image, decoded_images, decoded_line, decoded_oauth, decoded_output, kind_named,
    prompt_named, provider_named, status_named,
};
use crate::shape::{holds_texts, member_of};
use vstd::prelude::*;

verus! {

/// A payload that is set is not the JSON null.
pub open spec fn is_kept(payload: Option<serde_json::Value>) -> bool {
    payload matches Some(x) ==> !(json_of(x) is Null)
}

/// No payload of the card is set to the JSON null.
pub open spec fn card_keeps_payloads(card: MessageCard) -> bool {
    &&& is_kept(card.adaptive)
    &&& card.oauth matches Some(o) ==> is_kept(o.metadata)
}

/// No payload of the response's card is set to the JSON null.
pub open spec fn keeps_payloads(out: OAuthCardOutput) -> bool {
    out.card matches Some(card) ==> card_keeps_payloads(card)
}

/// Each status, kind, provider and prompt is read back from its name.
pub proof fn names_round_trip()
    ensures
        forall|s: OAuthStatus| #[trigger] status_named(status_name(s)) == Some(s),
        forall|k: MessageCardKind| #[trigger] kind_named(kind_name(k)) == Some(k),
        forall|p: OauthProvider| #[trigger] provider_named(provider_name(p)) == Some(p),
        forall|p: OauthPrompt| #[trigger] prompt_named(prompt_name(p)) == Some(p),
{
    reveal_strlit("ok");
    reveal_strlit("needs-sign-in");
    reveal_strlit("error");
    reveal_strlit("standard");
    reveal_strlit("oauth");
    reveal_strlit("microsoft");
    reveal_strlit("google");
    reveal_strlit("github");
    reveal_strlit("custom");
    reveal_strlit("none");
    reveal_strlit("consent");
    reveal_strlit("login");
    assert("ok"@.len() == 2 && "needs-sign-in"@.len() == 13 && "error"@.len() == 5);
    assert("standard"@.len() == 8 && "oauth"@.len() == 5);
    assert("microsoft"@.len() == 9 && "google"@.len() == 6 && "github"@.len() == 6
        && "custom"@.len() == 6);
    assert("google"@[1] == 'o' && "github"@[1] == 'i' && "custom"@[1] == 'u');
    assert("none"@.len() == 4 && "consent"@.len() == 7 && "login"@.len() == 5);
}

/// A JSON array of strings is read back as the texts that it was built
/// from.
pub proof fn texts_round_trip(x: serde_json::Value, items: Seq<Seq<char>>)
    requires
        holds_texts(x, items),
    ensures
        listed_texts(x) == Some(items),
{
    let l = json_of(x)->List_0;
    assert(text_items(l) =~= items);
}

/// An image is read back as it was encoded.
pub proof fn image_round_trips(v: serde_json::Value, image: ImageRef)
    requires
        encodes_image(v, image),
    ensures
        decoded_image(v) == Ok::<ImageView, Flaw>(image@),
{
}

/// An action is read back as it was encoded.
pub proof fn action_round_trips(v: serde_json::Value, action: Action)
    requires
        encodes_action(v, action),
    ensures
        decoded_action(v) == Ok::<ActionView, Flaw>(action@),
{
    reveal_strlit("open_url");
    reveal_strlit("post_back");
    assert("open_url"@.len() == 8 && "post_back"@.len() == 9);
}

/// The OAuth part of a card is read back as it was encoded.
pub proof fn oauth_round_trips(v: serde_json::Value, o: OauthCard)
    requires
        encodes_oauth(v, o),
        is_kept(o.metadata),
    ensures
        decoded_oauth(v) == Ok::<OauthView, Flaw>(o@),
{
    names_round_trip();
    if o.scopes@.len() != 0 {
        texts_round_trip(member_of(v, "scopes"@)->0, texts(o.scopes@));
    } else {
        assert(texts(o.scopes@) =~= Seq::<Seq<char>>::empty());
    }
    assert(decoded_oauth(v)->Ok_0 == o@);
}

/// A card is read back as it was encoded.
pub proof fn card_round_trips(v: serde_json::Value, card: MessageCard)
    requires
        encodes_card(v, card),
        card_keeps_payloads(card),
    ensures
        decoded_card(v) == Ok::<CardView, Flaw>(card@),
{
    names_round_trip();
    if card.images@.len() != 0 {
        let l = json_of(member_of(v, "images"@)->0)->List_0;
        assert forall|i: int| 0 <= i < l.len() implies decoded_image(#[trigger] l[i]) == Ok::<
            ImageView,
            Flaw,
        >(card.images@[i]@) by {
            image_round_trips(l[i], card.images@[i]);
        }
        assert(decoded_images(v)->Ok_0 =~= card@.images);
    } else {
        assert(card@.images =~= Seq::<ImageView>::empty());
    }
    if card.actions@.len() != 0 {
        let l = json_of(member_of(v, "actions"@)->0)->List_0;
        assert forall|i: int| 0 <= i < l.len() implies decoded_action(#[trigger] l[i]) == Ok::<
            ActionView,
            Flaw,
        >(card.actions@[i]@) by {
            action_round_trips(l[i], card.actions@[i]);
        }
        assert(decoded_actions(v)->Ok_0 =~= card@.actions);
    } else {
        assert(card@.actions =~= Seq::<ActionView>::empty());
    }
    match card.oauth {
        Some(o) => {
            oauth_round_trips(member_of(v, "oauth"@)->0, o);
        },
        None => {},
    }
    assert(decoded_card(v)->Ok_0 == card@);
}

/// The context of a token is read back as it was encoded.
pub proof fn context_round_trips(v: serde_json::Value, c: AuthContext)
    requires
        encodes_context(v, c),
    ensures
        decoded_context(v) == Ok::<AuthContextView, Flaw>(c@),
{
    texts_round_trip(member_of(v, "scopes"@)->0, texts(c.scopes@));
}

/// The header lines are read back as they were encoded.
pub proof fn header_round_trips(v: serde_json::Value, h: AuthHeader)
    requires
        encodes_header(v, h),
    ensures
        decoded_header(v) == Ok::<Seq<(Seq<char>, Seq<char>)>, Flaw>(h@),
{
    let l = json_of(member_of(v, "headers"@)->0)->List_0;
    assert forall|i: int| 0 <= i < l.len() implies decoded_line(#[trigger] l[i]) == Some(
        (h.headers@[i].0@, h.headers@[i].1@),
    ) by {
        assert(encodes_line(l[i], h.headers@[i]));
    }
    assert(decoded_header(v)->Ok_0 =~= h@);
}

/// Round trip: a response that is encoded and read back is the response
/// that it was, text for text and part for part.
pub proof fn output_round_trips(v: serde_json::Value, out: OAuthCardOutput)
    requires
        encodes_output(v, out),
        keeps_payloads(out),
    ensures
        decoded_output(v) == Ok::<OutputView, Flaw>(out@),
{
    names_round_trip();
    match out.card {
        Some(card) => {
            card_round_trips(member_of(v, "card"@)->0, card);
        },
        None => {},
    }
    match out.auth_context {
        Some(c) => {
            context_round_trips(member_of(v, "auth_context"@)->0, c);
        },
        None => {},
    }
    match out.auth_header {
        Some(h) => {
            header_round_trips(member_of(v, "auth_header"@)->0, h);
        },
        None => {},
    }
    assert(decoded_output(v)->Ok_0 == out@);
}

/// Every answer of the flow engine is a response whose payloads are kept,
/// so it is read back as it was.
pub proof fn answers_keep_payloads<B: OAuthBackend>(
    backend: B,
    input: OAuthCardInput,
    out: OAuthCardOutput,
)
    requires
        ends_request(backend, input, Ok(out)),
    ensures
        keeps_payloads(out),
{
    crate::laws::answer_cards_keep_payloads(backend, input, out);
}

} // verus!
