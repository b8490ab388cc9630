//! The dispatcher: from an action and its payload to a response.
//!
//! [`outcome`] is the dispatch table as a mathematical function of the request;
//! [`exec`] computes it. The response of a recognised action that has what it
//! needs lists the effects for the host, in the order in which the host is to
//! apply them. Every other response carries an error code and no effect.

use vstd::prelude::*;
use crate::effect::{
    create_document, create_record, delete_record, error, navigate, post_data, put_kv,
    scrap_marker, show_toast, spec_create_document, spec_create_record, spec_delete_record,
    spec_error, spec_navigate, spec_post_data, spec_put_kv, spec_scrap_marker, spec_show_toast,
    spec_update_record, update_record,
};
use crate::json::{items_view, text_of, SpecValue, Value};

verus! {

/// A request: the action to run, its payload, and the host's context.
///
/// No action reads the context; it is carried for the host's sake.
#[derive(Debug, PartialEq, Eq)]
pub struct ExecInput {
    pub action: String,
    pub payload: Value,
    pub ctx: Value,
}

/// A response: whether the action was accepted, the effects that the host is
/// to apply in order, and the error where it was not accepted.
#[derive(Debug, PartialEq, Eq)]
pub struct ExecOutput {
    pub ok: bool,
    pub data: Option<Value>,
    pub effects: Vec<Value>,
    pub error: Option<Value>,
}

/// The mathematical content of a request.
pub ghost struct SpecInput {
    pub action: Seq<char>,
    pub payload: SpecValue,
    pub ctx: SpecValue,
}

/// The mathematical content of a response.
pub ghost struct SpecOutput {
    pub ok: bool,
    pub data: Option<SpecValue>,
    pub effects: Seq<SpecValue>,
    pub error: Option<SpecValue>,
}

/// The mathematical value of an optional value.
pub open spec fn optional_view(v: Option<Value>) -> Option<SpecValue> {
    match v {
        Some(x) => Some(x@),
        None => None,
    }
}

impl View for ExecInput {
    type V = SpecInput;

    open spec fn view(&self) -> SpecInput {
        SpecInput { action: self.action@, payload: self.payload@, ctx: self.ctx@ }
    }
}

impl Clone for ExecInput {
    /// A copy with the same action, payload and context.
    fn clone(&self) -> (r: ExecInput)
        ensures
            r@ == self@,
    {
        ExecInput {
            action: self.action.clone(),
            payload: self.payload.clone(),
            ctx: self.ctx.clone(),
        }
    }
}

impl View for ExecOutput {
    type V = SpecOutput;

    open spec fn view(&self) -> SpecOutput {
        SpecOutput {
            ok: self.ok,
            data: optional_view(self.data),
            effects: items_view(self.effects),
            error: optional_view(self.error),
        }
    }
}

/// The name of the action that greets.
pub open spec fn hello_action() -> Seq<char> {
    "scrap.hello"@
}

/// The name of the action that creates a scrap document.
pub open spec fn create_action() -> Seq<char> {
    "scrap.create"@
}

/// The name of the action that adds a record to a document.
pub open spec fn create_record_action() -> Seq<char> {
    "scrap.create_record"@
}

/// The name of the action that changes a record.
pub open spec fn update_record_action() -> Seq<char> {
    "scrap.update_record"@
}

/// The name of the action that removes a record.
pub open spec fn delete_record_action() -> Seq<char> {
    "scrap.delete_record"@
}

/// Whether `action` names one of the five actions of the dispatch table.
pub open spec fn is_known_action(action: Seq<char>) -> bool {
    ||| action == hello_action()
    ||| action == create_action()
    ||| action == create_record_action()
    ||| action == update_record_action()
    ||| action == delete_record_action()
}

/// The response that accepts an action and hands the host `effects`.
pub open spec fn accepted(effects: Seq<SpecValue>) -> SpecOutput {
    SpecOutput { ok: true, data: None, effects, error: None }
}

/// The response that rejects an action with the error `code`.
pub open spec fn rejected(code: Seq<char>) -> SpecOutput {
    SpecOutput { ok: false, data: None, effects: Seq::empty(), error: Some(spec_error(code)) }
}

/// The response to an action that lacks a required identifier.
pub open spec fn bad_request() -> SpecOutput {
    rejected("BAD_REQUEST"@)
}

/// The response to an action that the dispatch table does not hold.
pub open spec fn unknown_action() -> SpecOutput {
    rejected("UNKNOWN_ACTION"@)
}

/// The identifier that `payload` gives under `key`: the member's text where the
/// member exists, is a string and is not empty.
pub open spec fn identifier(payload: SpecValue, key: Seq<char>) -> Option<Seq<char>> {
    match payload.get_str(key) {
        Some(s) => if s.len() > 0 {
            Some(s)
        } else {
            None
        },
        None => None,
    }
}

/// The member `key` of `payload` as it stands, or the empty object where
/// `payload` has no such member.
pub open spec fn member_or_empty(payload: SpecValue, key: Seq<char>) -> SpecValue {
    match payload.get(key) {
        Some(v) => v,
        None => SpecValue::empty_object(),
    }
}

/// The title that `scrap.create` gives the new document: the payload's `title`
/// where it is a string, else `Scrap`.
pub open spec fn document_title(payload: SpecValue) -> Seq<char> {
    match payload.get_str("title"@) {
        Some(t) => t,
        None => "Scrap"@,
    }
}

/// The content of the first post that `scrap.create` is asked for: the string
/// `content` of the payload's member `firstPost`, where there is one.
pub open spec fn first_post_content(payload: SpecValue) -> Option<Seq<char>> {
    match payload.get("firstPost"@) {
        Some(post) => post.get_str("content"@),
        None => None,
    }
}

/// The response to `scrap.hello`: one toast.
pub open spec fn hello_outcome() -> SpecOutput {
    accepted(Seq::empty().push(spec_show_toast("success"@, "Hello from Scrap plugin!"@)))
}

/// The response to `scrap.create`: create the document, mark it as a scrap,
/// add the first post where one is asked for, and go to the new document.
pub open spec fn create_outcome(payload: SpecValue) -> SpecOutput {
    let document = spec_create_document(document_title(payload), "document"@);
    let marker = spec_put_kv("doc"@, "meta"@, spec_scrap_marker());
    let target = spec_navigate("/scrap/:createdDocId"@);
    match first_post_content(payload) {
        Some(content) => {
            let post = spec_create_record("doc"@, None, "post"@, spec_post_data(content));
            accepted(Seq::empty().push(document).push(marker).push(post).push(target))
        },
        None => accepted(Seq::empty().push(document).push(marker).push(target)),
    }
}

/// The response to `scrap.create_record`: one record in the document `docId`,
/// of the kind `kind`, or a bad request where either identifier is missing.
pub open spec fn create_record_outcome(payload: SpecValue) -> SpecOutput {
    match (identifier(payload, "docId"@), identifier(payload, "kind"@)) {
        (Some(doc_id), Some(kind)) => accepted(
            Seq::empty().push(
                spec_create_record("doc"@, Some(doc_id), kind, member_or_empty(payload, "data"@)),
            ),
        ),
        _ => bad_request(),
    }
}

/// The response to `scrap.update_record`: one update of the record `id`, or a
/// bad request where the identifier is missing.
pub open spec fn update_record_outcome(payload: SpecValue) -> SpecOutput {
    match identifier(payload, "id"@) {
        Some(id) => accepted(
            Seq::empty().push(spec_update_record(id, member_or_empty(payload, "patch"@))),
        ),
        None => bad_request(),
    }
}

/// The response to `scrap.delete_record`: one removal of the record `id`, or a
/// bad request where the identifier is missing.
pub open spec fn delete_record_outcome(payload: SpecValue) -> SpecOutput {
    match identifier(payload, "id"@) {
        Some(id) => accepted(Seq::empty().push(spec_delete_record(id))),
        None => bad_request(),
    }
}

/// The dispatch table: the response to a request. The first name that matches
/// the action decides; the context plays no part.
pub open spec fn outcome(input: SpecInput) -> SpecOutput {
    if input.action == hello_action() {
        hello_outcome()
    } else if input.action == create_action() {
        create_outcome(input.payload)
    } else if input.action == create_record_action() {
        create_record_outcome(input.payload)
    } else if input.action == update_record_action() {
        update_record_outcome(input.payload)
    } else if input.action == delete_record_action() {
        delete_record_outcome(input.payload)
    } else {
        unknown_action()
    }
}

/// The names of the five actions are pairwise different.
pub proof fn action_names_differ()
    ensures
        hello_action() != create_action(),
        hello_action() != create_record_action(),
        hello_action() != update_record_action(),
        hello_action() != delete_record_action(),
        create_action() != create_record_action(),
        create_action() != update_record_action(),
        create_action() != delete_record_action(),
        create_record_action() != update_record_action(),
        create_record_action() != delete_record_action(),
        update_record_action() != delete_record_action(),
{
    reveal_strlit("scrap.hello");
    reveal_strlit("scrap.create");
    reveal_strlit("scrap.create_record");
    reveal_strlit("scrap.update_record");
    reveal_strlit("scrap.delete_record");
    assert(hello_action().len() == 11);
    assert(create_action().len() == 12);
    assert(create_record_action()[6] == 'c');
    assert(update_record_action()[6] == 'u');
    assert(delete_record_action()[6] == 'd');
}

/// Every response is either an acceptance or a rejection: an accepted action
/// comes with at least one effect and no error, a rejected one with an error
/// and no effect, and neither carries data.
pub proof fn outcome_is_consistent(input: SpecInput)
    ensures
        outcome(input).ok ==> outcome(input).error is None && outcome(input).effects.len() >= 1,
        !outcome(input).ok ==> outcome(input).error is Some && outcome(input).effects.len() == 0,
        outcome(input).data is None,
{
}

impl ExecOutput {
    /// The response that accepts an action and hands the host `effects`.
    pub fn accepted(effects: Vec<Value>) -> (out: ExecOutput)
        ensures
            out@ == accepted(items_view(effects)),
    {
        ExecOutput { ok: true, data: None, effects, error: None }
    }

    /// The response that rejects an action with the error `code`.
    pub fn rejected(code: &str) -> (out: ExecOutput)
        ensures
            out@ == rejected(code@),
    {
        let effects: Vec<Value> = Vec::new();
        proof {
            assert(items_view(effects) =~= Seq::empty());
        }
        ExecOutput { ok: false, data: None, effects, error: Some(error(code)) }
    }
}

/// The list of effects of a response that is being built, still empty.
fn no_effects() -> (effects: Vec<Value>)
    ensures
        items_view(effects) == Seq::<SpecValue>::empty(),
{
    let effects: Vec<Value> = Vec::new();
    proof {
        assert(items_view(effects) =~= Seq::empty());
    }
    effects
}

/// Appends one effect.
fn emit(effects: &mut Vec<Value>, effect: Value)
    ensures
        items_view(*final(effects)) == items_view(*old(effects)).push(effect@),
{
    effects.push(effect);
    proof {
        assert(items_view(*final(effects)) =~= items_view(*old(effects)).push(effect@));
    }
}

/// Reads the identifier that `payload` gives under `key`: `None` where the
/// member is missing, is no string, or is the empty string.
pub fn identifier_of<'a>(payload: &'a Value, key: &str) -> (r: Option<&'a str>)
    ensures
        text_of(r) == identifier(payload@, key@),
{
    match payload.get_str(key) {
        Some(s) => if s.is_empty() {
            None
        } else {
            Some(s)
        },
        None => None,
    }
}

/// Copies the member `key` of `payload`, or gives the empty object where
/// `payload` has no such member.
pub fn member_or_empty_of(payload: &Value, key: &str) -> (r: Value)
    ensures
        r@ == member_or_empty(payload@, key@),
{
    match payload.get(key) {
        Some(v) => v.clone(),
        None => Value::empty_object(),
    }
}

/// Handles `scrap.hello`.
pub fn handle_hello() -> (out: ExecOutput)
    ensures
        out@ == hello_outcome(),
{
    let mut effects = no_effects();
    emit(&mut effects, show_toast("success", "Hello from Scrap plugin!"));
    ExecOutput::accepted(effects)
}

/// Handles `scrap.create`. Every payload is accepted.
pub fn handle_create(payload: &Value) -> (out: ExecOutput)
    ensures
        out@ == create_outcome(payload@),
{
    let title = match payload.get_str("title") {
        Some(t) => t,
        None => "Scrap",
    };
    let content = match payload.get("firstPost") {
        Some(post) => post.get_str("content"),
        None => None,
    };
    let mut effects = no_effects();
    emit(&mut effects, create_document(title, "document"));
    emit(&mut effects, put_kv("doc", "meta", scrap_marker()));
    match content {
        Some(c) => {
            emit(&mut effects, create_record("doc", None, "post", post_data(c)));
        },
        None => {},
    }
    emit(&mut effects, navigate("/scrap/:createdDocId"));
    ExecOutput::accepted(effects)
}

/// Handles `scrap.create_record`.
pub fn handle_create_record(payload: &Value) -> (out: ExecOutput)
    ensures
        out@ == create_record_outcome(payload@),
{
    let doc_id = identifier_of(payload, "docId");
    let kind = identifier_of(payload, "kind");
    match (doc_id, kind) {
        (Some(d), Some(k)) => {
            let data = member_or_empty_of(payload, "data");
            let mut effects = no_effects();
            emit(&mut effects, create_record("doc", Some(d), k, data));
            ExecOutput::accepted(effects)
        },
        _ => ExecOutput::rejected("BAD_REQUEST"),
    }
}

/// Handles `scrap.update_record`.
pub fn handle_update_record(payload: &Value) -> (out: ExecOutput)
    ensures
        out@ == update_record_outcome(payload@),
{
    match identifier_of(payload, "id") {
        Some(id) => {
            let patch = member_or_empty_of(payload, "patch");
            let mut effects = no_effects();
            emit(&mut effects, update_record(id, patch));
            ExecOutput::accepted(effects)
        },
        None => ExecOutput::rejected("BAD_REQUEST"),
    }
}

/// Handles `scrap.delete_record`.
pub fn handle_delete_record(payload: &Value) -> (out: ExecOutput)
    ensures
        out@ == delete_record_outcome(payload@),
{
    match identifier_of(payload, "id") {
        Some(id) => {
            let mut effects = no_effects();
            emit(&mut effects, delete_record(id));
            ExecOutput::accepted(effects)
        },
        None => ExecOutput::rejected("BAD_REQUEST"),
    }
}

/// Whether the action of a request is the one called `name`.
fn is_action(action: &String, name: &str) -> (r: bool)
    ensures
        r == (action@ == name@),
{
    let wanted = name.to_owned();
    *action == wanted
}

/// Answers a request.
///
/// The response is the one that the dispatch table [`outcome`] gives for the
/// request's action and payload. An accepted action comes back with its
/// effects and without an error; a rejected one with an error and without
/// effects. No response carries data.
pub fn exec(input: ExecInput) -> (out: ExecOutput)
    ensures
        out@ == outcome(input@),
        out.ok ==> out.error is None && out.effects.len() >= 1,
        !out.ok ==> out.error is Some && out.effects.len() == 0,
        out.data is None,
{
    let out = if is_action(&input.action, "scrap.hello") {
        handle_hello()
    } else if is_action(&input.action, "scrap.create") {
        handle_create(&input.payload)
    } else if is_action(&input.action, "scrap.create_record") {
        handle_create_record(&input.payload)
    } else if is_action(&input.action, "scrap.update_record") {
        handle_update_record(&input.payload)
    } else if is_action(&input.action, "scrap.delete_record") {
        handle_delete_record(&input.payload)
    } else {
        ExecOutput::rejected("UNKNOWN_ACTION")
    };
    proof {
        outcome_is_consistent(input@);
    }
    out
}

} // verus!
