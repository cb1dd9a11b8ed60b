//! Reading a response back from its boundary encoding.
//!
//! A member that the encoding leaves out where it is not set may be missing
//! or null here; a member that is not known is passed over. Every flaw is a
//! parse error whose detail begins with `output json: `.

use crate::encode::{kind_name, prompt_name, provider_name, status_name};
use crate::error::{Flaw, OAuthCardError};
use crate::json::{as_list, as_text, json_of, member, Json};
use crate::model::{
    Action, ActionView, AuthContext, AuthContextView, AuthHeader, CardView, ImageRef, ImageView,
    MessageCard, MessageCardKind, OAuthCardOutput, OAuthStatus, OauthCard, OauthPrompt,
    OauthProvider, OauthView, OutputView,
};
use crate::reading::{
    agrees, check_object, misfit, misfit_error, needed_text, needed_texts, no_object,
    optional_number, optional_text, optional_texts, present, present_member, read_needed_text,
    read_needed_texts, read_optional_number, read_optional_text, read_optional_texts,
    read_present, read_switch_or, switch_or,
};
use crate::shape::member_of;
use crate::text::same_text;
use vstd::prelude::*;
use vstd::string::StringExecFns;

verus! {

/// The words that begin the detail of every flaw of a response.
pub open spec fn output_context() -> Seq<char> {
    "output json: "@
}

/// The status that is written as `name`.
pub open spec fn status_named(name: Seq<char>) -> Option<OAuthStatus> {
    if name == status_name(OAuthStatus::Okay) {
        Some(OAuthStatus::Okay)
    } else if name == status_name(OAuthStatus::NeedsSignIn) {
        Some(OAuthStatus::NeedsSignIn)
    } else if name == status_name(OAuthStatus::Error) {
        Some(OAuthStatus::Error)
    } else {
        None
    }
}

/// Reads a status from its name.
pub fn parse_status(name: &str) -> (r: Option<OAuthStatus>)
    ensures
        r == status_named(name@),
{
    if same_text(name, "ok") {
        Some(OAuthStatus::Okay)
    } else if same_text(name, "needs-sign-in") {
        Some(OAuthStatus::NeedsSignIn)
    } else if same_text(name, "error") {
        Some(OAuthStatus::Error)
    } else {
        None
    }
}

/// The kind of card that is written as `name`.
pub open spec fn kind_named(name: Seq<char>) -> Option<MessageCardKind> {
    if name == kind_name(MessageCardKind::Standard) {
        Some(MessageCardKind::Standard)
    } else if name == kind_name(MessageCardKind::Oauth) {
        Some(MessageCardKind::Oauth)
    } else {
        None
    }
}

/// Reads a kind of card from its name.
pub fn parse_kind(name: &str) -> (r: Option<MessageCardKind>)
    ensures
        r == kind_named(name@),
{
    if same_text(name, "standard") {
        Some(MessageCardKind::Standard)
    } else if same_text(name, "oauth") {
        Some(MessageCardKind::Oauth)
    } else {
        None
    }
}

/// The provider that is written as `name`.
pub open spec fn provider_named(name: Seq<char>) -> Option<OauthProvider> {
    if name == provider_name(OauthProvider::Microsoft) {
        Some(OauthProvider::Microsoft)
    } else if name == provider_name(OauthProvider::Google) {
        Some(OauthProvider::Google)
    } else if name == provider_name(OauthProvider::Github) {
        Some(OauthProvider::Github)
    } else if name == provider_name(OauthProvider::Custom) {
        Some(OauthProvider::Custom)
    } else {
        None
    }
}

/// Reads a provider from its name.
pub fn parse_provider(name: &str) -> (r: Option<OauthProvider>)
    ensures
        r == provider_named(name@),
{
    if same_text(name, "microsoft") {
        Some(OauthProvider::Microsoft)
    } else if same_text(name, "google") {
        Some(OauthProvider::Google)
    } else if same_text(name, "github") {
        Some(OauthProvider::Github)
    } else if same_text(name, "custom") {
        Some(OauthProvider::Custom)
    } else {
        None
    }
}

/// The prompt that is written as `name`.
pub open spec fn prompt_named(name: Seq<char>) -> Option<OauthPrompt> {
    if name == prompt_name(OauthPrompt::NoPrompt) {
        Some(OauthPrompt::NoPrompt)
    } else if name == prompt_name(OauthPrompt::Consent) {
        Some(OauthPrompt::Consent)
    } else if name == prompt_name(OauthPrompt::Login) {
        Some(OauthPrompt::Login)
    } else {
        None
    }
}

/// Reads a prompt from its name.
pub fn parse_prompt(name: &str) -> (r: Option<OauthPrompt>)
    ensures
        r == prompt_named(name@),
{
    if same_text(name, "none") {
        Some(OauthPrompt::NoPrompt)
    } else if same_text(name, "consent") {
        Some(OauthPrompt::Consent)
    } else if same_text(name, "login") {
        Some(OauthPrompt::Login)
    } else {
        None
    }
}

/// The image that a value stands for: an object with the string `url` and,
/// where it is set, the string `alt`.
pub open spec fn decoded_image(v: serde_json::Value) -> Result<ImageView, Flaw> {
    if !(json_of(v) is Object) {
        Err(no_object(output_context()))
    } else if needed_text(v, "url"@, output_context()) is Err {
        Err(needed_text(v, "url"@, output_context())->Err_0)
    } else if optional_text(v, "alt"@, output_context()) is Err {
        Err(optional_text(v, "alt"@, output_context())->Err_0)
    } else {
        Ok(
            ImageView {
                url: needed_text(v, "url"@, output_context())->Ok_0,
                alt: optional_text(v, "alt"@, output_context())->Ok_0,
            },
        )
    }
}

/// Reads an image.
pub fn decode_image(v: &serde_json::Value) -> (r: Result<ImageRef, OAuthCardError>)
    ensures
        agrees(r, decoded_image(*v)),
{
    match check_object(v, "output json: ") {
        Ok(_) => {},
        Err(e) => {
            return Err(e);
        },
    }
    let url = match read_needed_text(v, "url", "output json: ") {
        Ok(t) => t,
        Err(e) => {
            return Err(e);
        },
    };
    let alt = match read_optional_text(v, "alt", "output json: ") {
        Ok(t) => t,
        Err(e) => {
            return Err(e);
        },
    };
    Ok(ImageRef { url, alt })
}

/// The action that a value stands for: an object whose `type` is
/// `open_url`, with the strings `title` and `url`, or `post_back`, with the
/// string `title` and the member `data`.
pub open spec fn decoded_action(v: serde_json::Value) -> Result<ActionView, Flaw> {
    if !(json_of(v) is Object) {
        Err(no_object(output_context()))
    } else if needed_text(v, "type"@, output_context()) is Err {
        Err(needed_text(v, "type"@, output_context())->Err_0)
    } else if needed_text(v, "type"@, output_context())->Ok_0 == "open_url"@ {
        if needed_text(v, "title"@, output_context()) is Err {
            Err(needed_text(v, "title"@, output_context())->Err_0)
        } else if needed_text(v, "url"@, output_context()) is Err {
            Err(needed_text(v, "url"@, output_context())->Err_0)
        } else {
            Ok(
                ActionView::OpenUrl {
                    title: needed_text(v, "title"@, output_context())->Ok_0,
                    url: needed_text(v, "url"@, output_context())->Ok_0,
                },
            )
        }
    } else if needed_text(v, "type"@, output_context())->Ok_0 == "post_back"@ {
        if needed_text(v, "title"@, output_context()) is Err {
            Err(needed_text(v, "title"@, output_context())->Err_0)
        } else if member_of(v, "data"@) is None {
            Err(misfit(output_context(), "data"@, " is required"@))
        } else {
            Ok(
                ActionView::PostBack {
                    title: needed_text(v, "title"@, output_context())->Ok_0,
                    data: member_of(v, "data"@)->0,
                },
            )
        }
    } else {
        Err(misfit(output_context(), "type"@, " is not known"@))
    }
}

/// Reads an action.
pub fn decode_action(v: &serde_json::Value) -> (r: Result<Action, OAuthCardError>)
    ensures
        agrees(r, decoded_action(*v)),
{
    match check_object(v, "output json: ") {
        Ok(_) => {},
        Err(e) => {
            return Err(e);
        },
    }
    let tag = match read_needed_text(v, "type", "output json: ") {
        Ok(t) => t,
        Err(e) => {
            return Err(e);
        },
    };
    if same_text(tag.as_str(), "open_url") {
        let title = match read_needed_text(v, "title", "output json: ") {
            Ok(t) => t,
            Err(e) => {
                return Err(e);
            },
        };
        let url = match read_needed_text(v, "url", "output json: ") {
            Ok(t) => t,
            Err(e) => {
                return Err(e);
            },
        };
        Ok(Action::OpenUrl { title, url })
    } else if same_text(tag.as_str(), "post_back") {
        let title = match read_needed_text(v, "title", "output json: ") {
            Ok(t) => t,
            Err(e) => {
                return Err(e);
            },
        };
        match member(v, "data") {
            Some(data) => Ok(Action::PostBack { title, data: data.clone() }),
            None => Err(misfit_error("output json: ", "data", " is required")),
        }
    } else {
        Err(misfit_error("output json: ", "type", " is not known"))
    }
}

/// Every item of a list stands for an image.
pub open spec fn all_images(items: Seq<serde_json::Value>) -> bool {
    forall|i: int| 0 <= i < items.len() ==> decoded_image(#[trigger] items[i]) is Ok
}

/// The images under `images`: those of the array, none where there is no
/// such member.
pub open spec fn decoded_images(v: serde_json::Value) -> Result<Seq<ImageView>, Flaw> {
    match member_of(v, "images"@) {
        Some(x) => match json_of(x) {
            Json::List(items) => if all_images(items) {
                Ok(Seq::new(items.len(), |i: int| decoded_image(items[i])->Ok_0))
            } else {
                Err(misfit(output_context(), "images"@, " must be a list of images"@))
            },
            _ => Err(misfit(output_context(), "images"@, " must be a list of images"@)),
        },
        None => Ok(Seq::empty()),
    }
}

/// The images of a list as their views.
pub open spec fn image_views(images: Seq<ImageRef>) -> Seq<ImageView> {
    Seq::new(images.len(), |i: int| images[i]@)
}

/// Reads the images of an array, or nothing where an item is no image.
fn read_images(items: &Vec<serde_json::Value>) -> (r: Option<Vec<ImageRef>>)
    ensures
        match r {
            Some(found) => all_images(items@) && image_views(found@) == Seq::new(
                items@.len(),
                |i: int| decoded_image(items@[i])->Ok_0,
            ),
            None => !all_images(items@),
        },
{
    let mut found: Vec<ImageRef> = Vec::new();
    let mut i: usize = 0;
    while i < items.len()
        invariant
            i <= items.len(),
            found.len() == i,
            forall|k: int| 0 <= k < i ==> decoded_image(#[trigger] items@[k]) == Ok::<
                ImageView,
                Flaw,
            >(found@[k]@),
        decreases items.len() - i,
    {
        match decode_image(&items[i]) {
            Ok(image) => {
                found.push(image);
            },
            Err(_) => {
                return None;
            },
        }
        i = i + 1;
    }
    assert(image_views(found@) =~= Seq::new(
        items@.len(),
        |i: int| decoded_image(items@[i])->Ok_0,
    ));
    Some(found)
}

/// Reads the images under `images`.
pub fn decode_images(v: &serde_json::Value) -> (r: Result<Vec<ImageRef>, OAuthCardError>)
    ensures
        match decoded_images(*v) {
            Ok(views) => r matches Ok(found) && image_views(found@) == views,
            Err(f) => r matches Err(e) && e@ == f,
        },
{
    match member(v, "images") {
        Some(x) => {
            let found = match as_list(x) {
                Some(items) => read_images(items),
                None => None,
            };
            match found {
                Some(found) => Ok(found),
                None => Err(misfit_error("output json: ", "images", " must be a list of images")),
            }
        },
        None => {
            let found: Vec<ImageRef> = Vec::new();
            assert(image_views(found@) =~= Seq::<ImageView>::empty());
            Ok(found)
        },
    }
}

/// Every item of a list stands for an action.
pub open spec fn all_actions(items: Seq<serde_json::Value>) -> bool {
    forall|i: int| 0 <= i < items.len() ==> decoded_action(#[trigger] items[i]) is Ok
}

/// The actions under `actions`: those of the array, in their order, none
/// where there is no such member.
pub open spec fn decoded_actions(v: serde_json::Value) -> Result<Seq<ActionView>, Flaw> {
    match member_of(v, "actions"@) {
        Some(x) => match json_of(x) {
            Json::List(items) => if all_actions(items) {
                Ok(Seq::new(items.len(), |i: int| decoded_action(items[i])->Ok_0))
            } else {
                Err(misfit(output_context(), "actions"@, " must be a list of actions"@))
            },
            _ => Err(misfit(output_context(), "actions"@, " must be a list of actions"@)),
        },
        None => Ok(Seq::empty()),
    }
}

/// The actions of a list as their views.
pub open spec fn action_views(actions: Seq<Action>) -> Seq<ActionView> {
    Seq::new(actions.len(), |i: int| actions[i]@)
}

/// Reads the actions of an array, or nothing where an item is no action.
fn read_actions(items: &Vec<serde_json::Value>) -> (r: Option<Vec<Action>>)
    ensures
        match r {
            Some(found) => all_actions(items@) && action_views(found@) == Seq::new(
                items@.len(),
                |i: int| decoded_action(items@[i])->Ok_0,
            ),
            None => !all_actions(items@),
        },
{
    let mut found: Vec<Action> = Vec::new();
    let mut i: usize = 0;
    while i < items.len()
        invariant
            i <= items.len(),
            found.len() == i,
            forall|k: int| 0 <= k < i ==> decoded_action(#[trigger] items@[k]) == Ok::<
                ActionView,
                Flaw,
            >(found@[k]@),
        decreases items.len() - i,
    {
        match decode_action(&items[i]) {
            Ok(action) => {
                found.push(action);
            },
            Err(_) => {
                return None;
            },
        }
        i = i + 1;
    }
    assert(action_views(found@) =~= Seq::new(
        items@.len(),
        |i: int| decoded_action(items@[i])->Ok_0,
    ));
    Some(found)
}

/// Reads the actions under `actions`.
pub fn decode_actions(v: &serde_json::Value) -> (r: Result<Vec<Action>, OAuthCardError>)
    ensures
        match decoded_actions(*v) {
            Ok(views) => r matches Ok(found) && action_views(found@) == views,
            Err(f) => r matches Err(e) && e@ == f,
        },
{
    match member(v, "actions") {
        Some(x) => {
            let found = match as_list(x) {
                Some(items) => read_actions(items),
                None => None,
            };
            match found {
                Some(found) => Ok(found),
                None => Err(
                    misfit_error("output json: ", "actions", " must be a list of actions"),
                ),
            }
        },
        None => {
            let found: Vec<Action> = Vec::new();
            assert(action_views(found@) =~= Seq::<ActionView>::empty());
            Ok(found)
        },
    }
}

/// A name that must be there: the string under `key`, which must be one of
/// the names that `known` knows.
pub open spec fn needed_name<T>(
    v: serde_json::Value,
    key: Seq<char>,
    known: spec_fn(Seq<char>) -> Option<T>,
) -> Result<T, Flaw> {
    match needed_text(v, key, output_context()) {
        Ok(name) => match known(name) {
            Some(x) => Ok(x),
            None => Err(misfit(output_context(), key, " is not known"@)),
        },
        Err(f) => Err(f),
    }
}

/// The prompt under `prompt`: none where the member is missing or null.
pub open spec fn decoded_prompt(v: serde_json::Value) -> Result<Option<OauthPrompt>, Flaw> {
    match optional_text(v, "prompt"@, output_context()) {
        Ok(Some(name)) => match prompt_named(name) {
            Some(p) => Ok(Some(p)),
            None => Err(misfit(output_context(), "prompt"@, " is not known"@)),
        },
        Ok(None) => Ok(None),
        Err(f) => Err(f),
    }
}

/// Reads the prompt under `prompt`.
fn decode_prompt(v: &serde_json::Value) -> (r: Result<Option<OauthPrompt>, OAuthCardError>)
    ensures
        match decoded_prompt(*v) {
            Ok(p) => r == Ok::<Option<OauthPrompt>, OAuthCardError>(p),
            Err(f) => r matches Err(e) && e@ == f,
        },
{
    match read_optional_text(v, "prompt", "output json: ") {
        Ok(Some(name)) => match parse_prompt(name.as_str()) {
            Some(p) => Ok(Some(p)),
            None => Err(misfit_error("output json: ", "prompt", " is not known")),
        },
        Ok(None) => Ok(None),
        Err(e) => Err(e),
    }
}

/// The OAuth part of a card that a value stands for.
pub open spec fn decoded_oauth(v: serde_json::Value) -> Result<OauthView, Flaw> {
    if !(json_of(v) is Object) {
        Err(no_object(output_context()))
    } else if needed_name(v, "provider"@, |n: Seq<char>| provider_named(n)) is Err {
        Err(needed_name(v, "provider"@, |n: Seq<char>| provider_named(n))->Err_0)
    } else if optional_texts(v, "scopes"@, output_context()) is Err {
        Err(optional_texts(v, "scopes"@, output_context())->Err_0)
    } else if optional_text(v, "resource"@, output_context()) is Err {
        Err(optional_text(v, "resource"@, output_context())->Err_0)
    } else if decoded_prompt(v) is Err {
        Err(decoded_prompt(v)->Err_0)
    } else if optional_text(v, "start_url"@, output_context()) is Err {
        Err(optional_text(v, "start_url"@, output_context())->Err_0)
    } else if optional_text(v, "connection_name"@, output_context()) is Err {
        Err(optional_text(v, "connection_name"@, output_context())->Err_0)
    } else {
        Ok(
            OauthView {
                provider: needed_name(v, "provider"@, |n: Seq<char>| provider_named(n))->Ok_0,
                scopes: optional_texts(v, "scopes"@, output_context())->Ok_0,
                resource: optional_text(v, "resource"@, output_context())->Ok_0,
                prompt: decoded_prompt(v)->Ok_0,
                start_url: optional_text(v, "start_url"@, output_context())->Ok_0,
                connection_name: optional_text(v, "connection_name"@, output_context())->Ok_0,
                metadata: present_member(v, "metadata"@),
            },
        )
    }
}

/// Reads the OAuth part of a card.
pub fn decode_oauth(v: &serde_json::Value) -> (r: Result<OauthCard, OAuthCardError>)
    ensures
        agrees(r, decoded_oauth(*v)),
{
    match check_object(v, "output json: ") {
        Ok(_) => {},
        Err(e) => {
            return Err(e);
        },
    }
    let provider_text = match read_needed_text(v, "provider", "output json: ") {
        Ok(t) => t,
        Err(e) => {
            return Err(e);
        },
    };
    let provider = match parse_provider(provider_text.as_str()) {
        Some(p) => p,
        None => {
            return Err(misfit_error("output json: ", "provider", " is not known"));
        },
    };
    let scopes = match read_optional_texts(v, "scopes", "output json: ") {
        Ok(t) => t,
        Err(e) => {
            return Err(e);
        },
    };
    let resource = match read_optional_text(v, "resource", "output json: ") {
        Ok(t) => t,
        Err(e) => {
            return Err(e);
        },
    };
    let prompt = match decode_prompt(v) {
        Ok(t) => t,
        Err(e) => {
            return Err(e);
        },
    };
    let start_url = match read_optional_text(v, "start_url", "output json: ") {
        Ok(t) => t,
        Err(e) => {
            return Err(e);
        },
    };
    let connection_name = match read_optional_text(v, "connection_name", "output json: ") {
        Ok(t) => t,
        Err(e) => {
            return Err(e);
        },
    };
    let metadata = read_present(v, "metadata");
    Ok(OauthCard { provider, scopes, resource, prompt, start_url, connection_name, metadata })
}

/// The kind under `kind`: `standard` where there is no such member.
pub open spec fn decoded_kind(v: serde_json::Value) -> Result<MessageCardKind, Flaw> {
    match member_of(v, "kind"@) {
        Some(_) => needed_name(v, "kind"@, |n: Seq<char>| kind_named(n)),
        None => Ok(MessageCardKind::Standard),
    }
}

/// Reads the kind under `kind`.
fn decode_kind(v: &serde_json::Value) -> (r: Result<MessageCardKind, OAuthCardError>)
    ensures
        match decoded_kind(*v) {
            Ok(k) => r == Ok::<MessageCardKind, OAuthCardError>(k),
            Err(f) => r matches Err(e) && e@ == f,
        },
{
    match member(v, "kind") {
        Some(_) => {
            let name = match read_needed_text(v, "kind", "output json: ") {
                Ok(t) => t,
                Err(e) => {
                    return Err(e);
                },
            };
            match parse_kind(name.as_str()) {
                Some(k) => Ok(k),
                None => Err(misfit_error("output json: ", "kind", " is not known")),
            }
        },
        None => Ok(MessageCardKind::Standard),
    }
}

/// The OAuth part under `oauth`: none where the member is missing or null.
pub open spec fn decoded_oauth_member(v: serde_json::Value) -> Result<Option<OauthView>, Flaw> {
    match present_member(v, "oauth"@) {
        Some(x) => match decoded_oauth(x) {
            Ok(o) => Ok(Some(o)),
            Err(f) => Err(f),
        },
        None => Ok(None),
    }
}

/// The view of an optional OAuth part.
pub open spec fn opt_oauth_view(o: Option<OauthCard>) -> Option<OauthView> {
    match o {
        Some(x) => Some(x@),
        None => None,
    }
}

/// Reads the OAuth part under `oauth`.
fn decode_oauth_member(v: &serde_json::Value) -> (r: Result<Option<OauthCard>, OAuthCardError>)
    ensures
        match decoded_oauth_member(*v) {
            Ok(o) => r matches Ok(found) && opt_oauth_view(found) == o,
            Err(f) => r matches Err(e) && e@ == f,
        },
{
    match present(v, "oauth") {
        Some(x) => match decode_oauth(x) {
            Ok(o) => Ok(Some(o)),
            Err(e) => Err(e),
        },
        None => Ok(None),
    }
}

/// The card that a value stands for. The kind is `standard` and markdown is
/// allowed where the value does not say; images and actions are none where
/// the value has none.
pub open spec fn decoded_card(v: serde_json::Value) -> Result<CardView, Flaw> {
    if !(json_of(v) is Object) {
        Err(no_object(output_context()))
    } else if decoded_kind(v) is Err {
        Err(decoded_kind(v)->Err_0)
    } else if optional_text(v, "title"@, output_context()) is Err {
        Err(optional_text(v, "title"@, output_context())->Err_0)
    } else if optional_text(v, "text"@, output_context()) is Err {
        Err(optional_text(v, "text"@, output_context())->Err_0)
    } else if optional_text(v, "footer"@, output_context()) is Err {
        Err(optional_text(v, "footer"@, output_context())->Err_0)
    } else if decoded_images(v) is Err {
        Err(decoded_images(v)->Err_0)
    } else if decoded_actions(v) is Err {
        Err(decoded_actions(v)->Err_0)
    } else if switch_or(v, "allow_markdown"@, true, output_context()) is Err {
        Err(switch_or(v, "allow_markdown"@, true, output_context())->Err_0)
    } else if decoded_oauth_member(v) is Err {
        Err(decoded_oauth_member(v)->Err_0)
    } else {
        Ok(
            CardView {
                kind: decoded_kind(v)->Ok_0,
                title: optional_text(v, "title"@, output_context())->Ok_0,
                text: optional_text(v, "text"@, output_context())->Ok_0,
                footer: optional_text(v, "footer"@, output_context())->Ok_0,
                images: decoded_images(v)->Ok_0,
                actions: decoded_actions(v)->Ok_0,
                allow_markdown: switch_or(v, "allow_markdown"@, true, output_context())->Ok_0,
                adaptive: present_member(v, "adaptive"@),
                oauth: decoded_oauth_member(v)->Ok_0,
            },
        )
    }
}

/// Reads a card.
pub fn decode_card(v: &serde_json::Value) -> (r: Result<MessageCard, OAuthCardError>)
    ensures
        agrees(r, decoded_card(*v)),
{
    match check_object(v, "output json: ") {
        Ok(_) => {},
        Err(e) => {
            return Err(e);
        },
    }
    let kind = match decode_kind(v) {
        Ok(t) => t,
        Err(e) => {
            return Err(e);
        },
    };
    let title = match read_optional_text(v, "title", "output json: ") {
        Ok(t) => t,
        Err(e) => {
            return Err(e);
        },
    };
    let text = match read_optional_text(v, "text", "output json: ") {
        Ok(t) => t,
        Err(e) => {
            return Err(e);
        },
    };
    let footer = match read_optional_text(v, "footer", "output json: ") {
        Ok(t) => t,
        Err(e) => {
            return Err(e);
        },
    };
    let images = match decode_images(v) {
        Ok(t) => t,
        Err(e) => {
            return Err(e);
        },
    };
    let actions = match decode_actions(v) {
        Ok(t) => t,
        Err(e) => {
            return Err(e);
        },
    };
    let allow_markdown = match read_switch_or(v, "allow_markdown", true, "output json: ") {
        Ok(t) => t,
        Err(e) => {
            return Err(e);
        },
    };
    let adaptive = read_present(v, "adaptive");
    let oauth = match decode_oauth_member(v) {
        Ok(t) => t,
        Err(e) => {
            return Err(e);
        },
    };
    Ok(
        MessageCard {
            kind,
            title,
            text,
            footer,
            images,
            actions,
            allow_markdown,
            adaptive,
            oauth,
        },
    )
}

/// The context of a token that a value stands for.
pub open spec fn decoded_context(v: serde_json::Value) -> Result<AuthContextView, Flaw> {
    if !(json_of(v) is Object) {
        Err(no_object(output_context()))
    } else if needed_text(v, "provider_id"@, output_context()) is Err {
        Err(needed_text(v, "provider_id"@, output_context())->Err_0)
    } else if needed_text(v, "subject"@, output_context()) is Err {
        Err(needed_text(v, "subject"@, output_context())->Err_0)
    } else if optional_text(v, "email"@, output_context()) is Err {
        Err(optional_text(v, "email"@, output_context())->Err_0)
    } else if optional_text(v, "tenant"@, output_context()) is Err {
        Err(optional_text(v, "tenant"@, output_context())->Err_0)
    } else if optional_text(v, "team"@, output_context()) is Err {
        Err(optional_text(v, "team"@, output_context())->Err_0)
    } else if needed_texts(v, "scopes"@, output_context()) is Err {
        Err(needed_texts(v, "scopes"@, output_context())->Err_0)
    } else if optional_number(v, "expires_at"@, output_context()) is Err {
        Err(optional_number(v, "expires_at"@, output_context())->Err_0)
    } else {
        Ok(
            AuthContextView {
                provider_id: needed_text(v, "provider_id"@, output_context())->Ok_0,
                subject: needed_text(v, "subject"@, output_context())->Ok_0,
                email: optional_text(v, "email"@, output_context())->Ok_0,
                tenant: optional_text(v, "tenant"@, output_context())->Ok_0,
                team: optional_text(v, "team"@, output_context())->Ok_0,
                scopes: needed_texts(v, "scopes"@, output_context())->Ok_0,
                expires_at: optional_number(v, "expires_at"@, output_context())->Ok_0,
            },
        )
    }
}

/// Reads the context of a token.
pub fn decode_context(v: &serde_json::Value) -> (r: Result<AuthContext, OAuthCardError>)
    ensures
        agrees(r, decoded_context(*v)),
{
    match check_object(v, "output json: ") {
        Ok(_) => {},
        Err(e) => {
            return Err(e);
        },
    }
    let provider_id = match read_needed_text(v, "provider_id", "output json: ") {
        Ok(t) => t,
        Err(e) => {
            return Err(e);
        },
    };
    let subject = match read_needed_text(v, "subject", "output json: ") {
        Ok(t) => t,
        Err(e) => {
            return Err(e);
        },
    };
    let email = match read_optional_text(v, "email", "output json: ") {
        Ok(t) => t,
        Err(e) => {
            return Err(e);
        },
    };
    let tenant = match read_optional_text(v, "tenant", "output json: ") {
        Ok(t) => t,
        Err(e) => {
            return Err(e);
        },
    };
    let team = match read_optional_text(v, "team", "output json: ") {
        Ok(t) => t,
        Err(e) => {
            return Err(e);
        },
    };
    let scopes = match read_needed_texts(v, "scopes", "output json: ") {
        Ok(t) => t,
        Err(e) => {
            return Err(e);
        },
    };
    let expires_at = match read_optional_number(v, "expires_at", "output json: ") {
        Ok(t) => t,
        Err(e) => {
            return Err(e);
        },
    };
    Ok(AuthContext { provider_id, subject, email, tenant, team, scopes, expires_at })
}

/// The header line that a value stands for: an array of two strings, the
/// name and the value.
pub open spec fn decoded_line(v: serde_json::Value) -> Option<(Seq<char>, Seq<char>)> {
    match json_of(v) {
        Json::List(pair) => if pair.len() == 2 && json_of(pair[0]) is Text && json_of(
            pair[1],
        ) is Text {
            Some((json_of(pair[0])->Text_0, json_of(pair[1])->Text_0))
        } else {
            None
        },
        _ => None,
    }
}

/// Reads a header line.
fn decode_line(v: &serde_json::Value) -> (r: Option<(String, String)>)
    ensures
        match decoded_line(*v) {
            Some(line) => r matches Some(found) && (found.0@, found.1@) == line,
            None => r is None,
        },
{
    let pair = match as_list(v) {
        Some(pair) => pair,
        None => {
            return None;
        },
    };
    if pair.len() != 2 {
        return None;
    }
    let name = match as_text(&pair[0]) {
        Some(t) => t,
        None => {
            return None;
        },
    };
    let value = match as_text(&pair[1]) {
        Some(t) => t,
        None => {
            return None;
        },
    };
    Some((name.to_owned(), value.to_owned()))
}

/// Every item of a list stands for a header line.
pub open spec fn all_lines(items: Seq<serde_json::Value>) -> bool {
    forall|i: int| 0 <= i < items.len() ==> decoded_line(#[trigger] items[i]) is Some
}

/// The header lines that a value stands for: an object whose member
/// `headers` is an array of lines.
pub open spec fn decoded_header(v: serde_json::Value) -> Result<Seq<(Seq<char>, Seq<char>)>, Flaw> {
    if !(json_of(v) is Object) {
        Err(no_object(output_context()))
    } else {
        match member_of(v, "headers"@) {
            Some(x) => match json_of(x) {
                Json::List(items) => if all_lines(items) {
                    Ok(Seq::new(items.len(), |i: int| decoded_line(items[i])->0))
                } else {
                    Err(misfit(output_context(), "headers"@, " must be a list of pairs"@))
                },
                _ => Err(misfit(output_context(), "headers"@, " must be a list of pairs"@)),
            },
            None => Err(misfit(output_context(), "headers"@, " must be a list of pairs"@)),
        }
    }
}

/// Reads the lines of an array, or nothing where an item is no line.
fn read_lines(items: &Vec<serde_json::Value>) -> (r: Option<AuthHeader>)
    ensures
        match r {
            Some(found) => all_lines(items@) && found@ == Seq::new(
                items@.len(),
                |i: int| decoded_line(items@[i])->0,
            ),
            None => !all_lines(items@),
        },
{
    let mut headers: Vec<(String, String)> = Vec::new();
    let mut i: usize = 0;
    while i < items.len()
        invariant
            i <= items.len(),
            headers.len() == i,
            forall|k: int| 0 <= k < i ==> decoded_line(#[trigger] items@[k]) == Some(
                (headers@[k].0@, headers@[k].1@),
            ),
        decreases items.len() - i,
    {
        match decode_line(&items[i]) {
            Some(line) => {
                headers.push(line);
            },
            None => {
                return None;
            },
        }
        i = i + 1;
    }
    let found = AuthHeader { headers };
    assert(found@ =~= Seq::new(items@.len(), |i: int| decoded_line(items@[i])->0));
    Some(found)
}

/// Reads the header lines.
pub fn decode_header(v: &serde_json::Value) -> (r: Result<AuthHeader, OAuthCardError>)
    ensures
        agrees(r, decoded_header(*v)),
{
    match check_object(v, "output json: ") {
        Ok(_) => {},
        Err(e) => {
            return Err(e);
        },
    }
    let found = match member(v, "headers") {
        Some(x) => match as_list(x) {
            Some(items) => read_lines(items),
            None => None,
        },
        None => None,
    };
    match found {
        Some(found) => Ok(found),
        None => Err(misfit_error("output json: ", "headers", " must be a list of pairs")),
    }
}

/// A part of a response that may be left out: what `decoded` makes of the
/// member under `key`, none where the member is missing or null.
pub open spec fn optional_part<V>(
    v: serde_json::Value,
    key: Seq<char>,
    decoded: spec_fn(serde_json::Value) -> Result<V, Flaw>,
) -> Result<Option<V>, Flaw> {
    match present_member(v, key) {
        Some(x) => match decoded(x) {
            Ok(part) => Ok(Some(part)),
            Err(f) => Err(f),
        },
        None => Ok(None),
    }
}

/// The response that a value stands for.
pub open spec fn decoded_output(v: serde_json::Value) -> Result<OutputView, Flaw> {
    if !(json_of(v) is Object) {
        Err(no_object(output_context()))
    } else if needed_name(v, "status"@, |n: Seq<char>| status_named(n)) is Err {
        Err(needed_name(v, "status"@, |n: Seq<char>| status_named(n))->Err_0)
    } else if optional_part(v, "card"@, |x: serde_json::Value| decoded_card(x)) is Err {
        Err(optional_part(v, "card"@, |x: serde_json::Value| decoded_card(x))->Err_0)
    } else if optional_part(v, "auth_context"@, |x: serde_json::Value| decoded_context(x)) is Err {
        Err(optional_part(v, "auth_context"@, |x: serde_json::Value| decoded_context(x))->Err_0)
    } else if optional_part(v, "auth_header"@, |x: serde_json::Value| decoded_header(x)) is Err {
        Err(optional_part(v, "auth_header"@, |x: serde_json::Value| decoded_header(x))->Err_0)
    } else if optional_text(v, "state_id"@, output_context()) is Err {
        Err(optional_text(v, "state_id"@, output_context())->Err_0)
    } else if optional_text(v, "error"@, output_context()) is Err {
        Err(optional_text(v, "error"@, output_context())->Err_0)
    } else {
        Ok(
            OutputView {
                status: needed_name(v, "status"@, |n: Seq<char>| status_named(n))->Ok_0,
                card: optional_part(v, "card"@, |x: serde_json::Value| decoded_card(x))->Ok_0,
                auth_context: optional_part(
                    v,
                    "auth_context"@,
                    |x: serde_json::Value| decoded_context(x),
                )->Ok_0,
                auth_header: optional_part(
                    v,
                    "auth_header"@,
                    |x: serde_json::Value| decoded_header(x),
                )->Ok_0,
                state_id: optional_text(v, "state_id"@, output_context())->Ok_0,
                error: optional_text(v, "error"@, output_context())->Ok_0,
            },
        )
    }
}

/// Reads a response.
pub fn decode_output(v: &serde_json::Value) -> (r: Result<OAuthCardOutput, OAuthCardError>)
    ensures
        agrees(r, decoded_output(*v)),
{
    match check_object(v, "output json: ") {
        Ok(_) => {},
        Err(e) => {
            return Err(e);
        },
    }
    let status_text = match read_needed_text(v, "status", "output json: ") {
        Ok(t) => t,
        Err(e) => {
            return Err(e);
        },
    };
    let status = match parse_status(status_text.as_str()) {
        Some(s) => s,
        None => {
            return Err(misfit_error("output json: ", "status", " is not known"));
        },
    };
    let card = match present(v, "card") {
        Some(x) => match decode_card(x) {
            Ok(card) => Some(card),
            Err(e) => {
                return Err(e);
            },
        },
        None => None,
    };
    let auth_context = match present(v, "auth_context") {
        Some(x) => match decode_context(x) {
            Ok(c) => Some(c),
            Err(e) => {
                return Err(e);
            },
        },
        None => None,
    };
    let auth_header = match present(v, "auth_header") {
        Some(x) => match decode_header(x) {
            Ok(h) => Some(h),
            Err(e) => {
                return Err(e);
            },
        },
        None => None,
    };
    let state_id = match read_optional_text(v, "state_id", "output json: ") {
        Ok(t) => t,
        Err(e) => {
            return Err(e);
        },
    };
    let error = match read_optional_text(v, "error", "output json: ") {
        Ok(t) => t,
        Err(e) => {
            return Err(e);
        },
    };
    Ok(OAuthCardOutput { status, card, auth_context, auth_header, state_id, error })
}

/// What the text of a response decodes to: the response that its JSON value
/// stands for. Where the text is not JSON the error is a parse error whose
/// detail begins with `output json: ` and goes on with the parser's own
/// words.
pub open spec fn is_parsed_output(
    text: Seq<char>,
    r: Result<OAuthCardOutput, OAuthCardError>,
) -> bool {
    match crate::json::parsed_json(text) {
        Some(v) => agrees(r, decoded_output(v)),
        None => r matches Err(OAuthCardError::Parse(m)) && output_context().is_prefix_of(m@),
    }
}

/// Reads a response from its text.
pub fn parse_output(text: &str) -> (r: Result<OAuthCardOutput, OAuthCardError>)
    ensures
        is_parsed_output(text@, r),
{
    match crate::json::parse_json(text) {
        Ok(v) => decode_output(&v),
        Err(err) => Err(
            OAuthCardError::Parse(
                String::from_str("output json: ").concat(crate::json::error_text(&err).as_str()),
            ),
        ),
    }
}

} // verus!
