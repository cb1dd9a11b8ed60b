//! The boundary of the component: a request comes in as text, and the
//! response goes out as text. Nothing fails here: what goes wrong on the
//! way becomes a response with the status `error`.

use crate::broker::{default_backend, NoopBroker};
use crate::decode::{is_parsed_input, parse_input};
use crate::encode::{encode_output, encodes_output, error_answer, is_error_output};
use crate::error::OAuthCardError;
use crate::json::{new_members, object_value, print_json, printed_json, put_member};
use crate::logic::{ends_request, handle};
use crate::model::{OAuthCardInput, OAuthCardOutput};
use crate::shape::{has_members, member_of, str_value, text_member};
use vstd::prelude::*;

verus! {

/// The value describes the component: under `component`, its name,
/// organisation, version and world, and under `schemas` the places of its
/// three schemas.
pub open spec fn is_description(v: serde_json::Value) -> bool {
    &&& has_members(v, set!["component"@])
    &&& member_of(v, "component"@) matches Some(c) && has_members(
        c,
        set!["name"@, "org"@, "version"@, "world"@, "schemas"@],
    ) && text_member(c, "name"@, "component-oauth-card"@) && text_member(c, "org"@, "ai.greentic"@)
        && text_member(c, "version"@, "0.1.0"@) && text_member(
        c,
        "world"@,
        "greentic:component/component@0.4.0"@,
    ) && (member_of(c, "schemas"@) matches Some(s) && has_members(
        s,
        set!["component"@, "input"@, "output"@],
    ) && text_member(s, "component"@, "schemas/component.schema.json"@) && text_member(
        s,
        "input"@,
        "schemas/io/input.schema.json"@,
    ) && text_member(s, "output"@, "schemas/io/output.schema.json"@))
}

/// The length of each member name of the description, which tells the
/// names of one object apart.
proof fn lemma_description_keys()
    ensures
        "name"@.len() == 4,
        "org"@.len() == 3,
        "version"@.len() == 7,
        "world"@.len() == 5,
        "schemas"@.len() == 7 && "schemas"@[0] == 's',
        "version"@[0] == 'v',
        "component"@.len() == 9,
        "input"@.len() == 5,
        "output"@.len() == 6,
{
    reveal_strlit("name");
    reveal_strlit("org");
    reveal_strlit("version");
    reveal_strlit("world");
    reveal_strlit("schemas");
    reveal_strlit("component");
    reveal_strlit("input");
    reveal_strlit("output");
}

/// Builds the description of the component.
pub fn description() -> (v: serde_json::Value)
    ensures
        is_description(v),
{
    proof {
        lemma_description_keys();
    }
    let mut schemas = new_members();
    put_member(&mut schemas, "component", str_value("schemas/component.schema.json"));
    put_member(&mut schemas, "input", str_value("schemas/io/input.schema.json"));
    put_member(&mut schemas, "output", str_value("schemas/io/output.schema.json"));
    let mut component = new_members();
    put_member(&mut component, "name", str_value("component-oauth-card"));
    put_member(&mut component, "org", str_value("ai.greentic"));
    put_member(&mut component, "version", str_value("0.1.0"));
    put_member(&mut component, "world", str_value("greentic:component/component@0.4.0"));
    put_member(&mut component, "schemas", object_value(schemas));
    let mut root = new_members();
    put_member(&mut root, "component", object_value(component));
    object_value(root)
}

/// The description of the component as JSON text.
pub fn describe_payload() -> (text: String)
    ensures
        exists|v: serde_json::Value| is_description(v) && text@ == #[trigger] printed_json(v),
{
    let v = description();
    print_json(&v)
}

/// The response to what became of a request: the answer itself, or the
/// report of the failure.
pub open spec fn reports(out: OAuthCardOutput, r: Result<OAuthCardOutput, OAuthCardError>) -> bool {
    match r {
        Ok(answer) => out == answer,
        Err(e) => is_error_output(out, e@),
    }
}

/// Turns what became of a request into a response.
pub fn response_for(r: Result<OAuthCardOutput, OAuthCardError>) -> (out: OAuthCardOutput)
    ensures
        reports(out, r),
{
    match r {
        Ok(answer) => answer,
        Err(e) => error_answer(&e),
    }
}

/// The response to the text of a request: where the text does not decode,
/// the report of that; else what the flow engine made of the request with
/// the broker that is used where no host provides one, a failure of it
/// reported likewise.
pub open spec fn is_response(input: Seq<char>, out: OAuthCardOutput) -> bool {
    exists|
        parsed: Result<OAuthCardInput, OAuthCardError>,
        r: Result<OAuthCardOutput, OAuthCardError>,
    |
        #![trigger is_parsed_input(input, parsed), reports(out, r)]
        is_parsed_input(input, parsed) && reports(out, r) && match parsed {
            Ok(request) => ends_request(NoopBroker, request, r),
            Err(e) => r == Err::<OAuthCardOutput, OAuthCardError>(e),
        }
}

/// Answers the text of a request with the broker that is used where no
/// host provides one.
pub fn respond(input: &str) -> (out: OAuthCardOutput)
    ensures
        is_response(input@, out),
{
    let backend = default_backend();
    let parsed = parse_input(input);
    let ghost seen = parsed;
    let r = match parsed {
        Ok(request) => handle(&backend, request),
        Err(e) => Err(e),
    };
    let out = response_for(r);
    assert(is_parsed_input(input@, seen) && reports(out, r));
    out
}

/// Answers the text of a request with the text of the response. The
/// operation's name is not looked at.
pub fn handle_message(operation: &str, input: &str) -> (text: String)
    ensures
        exists|out: OAuthCardOutput, v: serde_json::Value|
            #![trigger is_response(input@, out), encodes_output(v, out)]
            is_response(input@, out) && encodes_output(v, out) && text@ == printed_json(v),
{
    let out = respond(input);
    let v = encode_output(&out);
    let text = print_json(&v);
    assert(is_response(input@, out) && encodes_output(v, out));
    text
}

} // verus!
