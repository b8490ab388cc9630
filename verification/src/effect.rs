//! Effect descriptors: the objects by which the plugin tells the host what to do.
//!
//! Each descriptor is an object whose member `type` says which effect it is.
//! For every shape there is a spec function that says which value it is and a
//! constructor that builds exactly that value.

use vstd::prelude::*;
use crate::json::{members_view, SpecValue, Value};

verus! {

/// `{"type": "showToast", "level": level, "message": message}`
pub open spec fn spec_show_toast(level: Seq<char>, message: Seq<char>) -> SpecValue {
    SpecValue::Object(
        Seq::empty()
            .push(("type"@, SpecValue::String("showToast"@)))
            .push(("level"@, SpecValue::String(level)))
            .push(("message"@, SpecValue::String(message))),
    )
}

/// `{"type": "createDocument", "title": title, "docType": doc_type}`
pub open spec fn spec_create_document(title: Seq<char>, doc_type: Seq<char>) -> SpecValue {
    SpecValue::Object(
        Seq::empty()
            .push(("type"@, SpecValue::String("createDocument"@)))
            .push(("title"@, SpecValue::String(title)))
            .push(("docType"@, SpecValue::String(doc_type))),
    )
}

/// `{"type": "putKv", "scope": scope, "key": key, "value": value}`
pub open spec fn spec_put_kv(scope: Seq<char>, key: Seq<char>, value: SpecValue) -> SpecValue {
    SpecValue::Object(
        Seq::empty()
            .push(("type"@, SpecValue::String("putKv"@)))
            .push(("scope"@, SpecValue::String(scope)))
            .push(("key"@, SpecValue::String(key)))
            .push(("value"@, value)),
    )
}

/// `{"type": "createRecord", "scope": scope, "docId": doc_id, "kind": kind, "data": data}`,
/// without the member `docId` where `doc_id` is `None`.
pub open spec fn spec_create_record(
    scope: Seq<char>,
    doc_id: Option<Seq<char>>,
    kind: Seq<char>,
    data: SpecValue,
) -> SpecValue {
    match doc_id {
        Some(id) => SpecValue::Object(
            Seq::empty()
                .push(("type"@, SpecValue::String("createRecord"@)))
                .push(("scope"@, SpecValue::String(scope)))
                .push(("docId"@, SpecValue::String(id)))
                .push(("kind"@, SpecValue::String(kind)))
                .push(("data"@, data)),
        ),
        None => SpecValue::Object(
            Seq::empty()
                .push(("type"@, SpecValue::String("createRecord"@)))
                .push(("scope"@, SpecValue::String(scope)))
                .push(("kind"@, SpecValue::String(kind)))
                .push(("data"@, data)),
        ),
    }
}

/// `{"type": "updateRecord", "recordId": record_id, "patch": patch}`
pub open spec fn spec_update_record(record_id: Seq<char>, patch: SpecValue) -> SpecValue {
    SpecValue::Object(
        Seq::empty()
            .push(("type"@, SpecValue::String("updateRecord"@)))
            .push(("recordId"@, SpecValue::String(record_id)))
            .push(("patch"@, patch)),
    )
}

/// `{"type": "deleteRecord", "recordId": record_id}`
pub open spec fn spec_delete_record(record_id: Seq<char>) -> SpecValue {
    SpecValue::Object(
        Seq::empty()
            .push(("type"@, SpecValue::String("deleteRecord"@)))
            .push(("recordId"@, SpecValue::String(record_id))),
    )
}

/// `{"type": "navigate", "to": to}`
pub open spec fn spec_navigate(to: Seq<char>) -> SpecValue {
    SpecValue::Object(
        Seq::empty()
            .push(("type"@, SpecValue::String("navigate"@)))
            .push(("to"@, SpecValue::String(to))),
    )
}

/// `{"isScrap": true}`: what is stored under a document to mark it as a scrap.
pub open spec fn spec_scrap_marker() -> SpecValue {
    SpecValue::Object(Seq::empty().push(("isScrap"@, SpecValue::Bool(true))))
}

/// `{"content": content, "pinned": false}`: the data of a post.
pub open spec fn spec_post_data(content: Seq<char>) -> SpecValue {
    SpecValue::Object(
        Seq::empty()
            .push(("content"@, SpecValue::String(content)))
            .push(("pinned"@, SpecValue::Bool(false))),
    )
}

/// `{"code": code}`: the error of a response.
pub open spec fn spec_error(code: Seq<char>) -> SpecValue {
    SpecValue::Object(Seq::empty().push(("code"@, SpecValue::String(code))))
}

/// The list of members of an object that is being built, still empty.
fn no_members() -> (members: Vec<(String, Value)>)
    ensures
        members_view(members) == Seq::<(Seq<char>, SpecValue)>::empty(),
{
    let members: Vec<(String, Value)> = Vec::new();
    proof {
        assert(members_view(members) =~= Seq::empty());
    }
    members
}

/// Appends the member `key` with the given value.
fn put(members: &mut Vec<(String, Value)>, key: &str, value: Value)
    ensures
        members_view(*final(members)) == members_view(*old(members)).push((key@, value@)),
{
    members.push((key.to_owned(), value));
    proof {
        assert(members_view(*final(members)) =~= members_view(*old(members)).push(
            (key@, value@),
        ));
    }
}

/// Builds the `showToast` effect.
pub fn show_toast(level: &str, message: &str) -> (r: Value)
    ensures
        r@ == spec_show_toast(level@, message@),
{
    let mut members = no_members();
    put(&mut members, "type", Value::text("showToast"));
    put(&mut members, "level", Value::text(level));
    put(&mut members, "message", Value::text(message));
    Value::Object(members)
}

/// Builds the `createDocument` effect.
pub fn create_document(title: &str, doc_type: &str) -> (r: Value)
    ensures
        r@ == spec_create_document(title@, doc_type@),
{
    let mut members = no_members();
    put(&mut members, "type", Value::text("createDocument"));
    put(&mut members, "title", Value::text(title));
    put(&mut members, "docType", Value::text(doc_type));
    Value::Object(members)
}

/// Builds the `putKv` effect.
pub fn put_kv(scope: &str, key: &str, value: Value) -> (r: Value)
    ensures
        r@ == spec_put_kv(scope@, key@, value@),
{
    let mut members = no_members();
    put(&mut members, "type", Value::text("putKv"));
    put(&mut members, "scope", Value::text(scope));
    put(&mut members, "key", Value::text(key));
    put(&mut members, "value", value);
    Value::Object(members)
}

/// Builds the `createRecord` effect, with the member `docId` only where a
/// document is named.
pub fn create_record(scope: &str, doc_id: Option<&str>, kind: &str, data: Value) -> (r: Value)
    ensures
        r@ == spec_create_record(scope@, crate::json::text_of(doc_id), kind@, data@),
{
    let mut members = no_members();
    put(&mut members, "type", Value::text("createRecord"));
    put(&mut members, "scope", Value::text(scope));
    match doc_id {
        Some(id) => {
            put(&mut members, "docId", Value::text(id));
        },
        None => {},
    }
    put(&mut members, "kind", Value::text(kind));
    put(&mut members, "data", data);
    Value::Object(members)
}

/// Builds the `updateRecord` effect.
pub fn update_record(record_id: &str, patch: Value) -> (r: Value)
    ensures
        r@ == spec_update_record(record_id@, patch@),
{
    let mut members = no_members();
    put(&mut members, "type", Value::text("updateRecord"));
    put(&mut members, "recordId", Value::text(record_id));
    put(&mut members, "patch", patch);
    Value::Object(members)
}

/// Builds the `deleteRecord` effect.
pub fn delete_record(record_id: &str) -> (r: Value)
    ensures
        r@ == spec_delete_record(record_id@),
{
    let mut members = no_members();
    put(&mut members, "type", Value::text("deleteRecord"));
    put(&mut members, "recordId", Value::text(record_id));
    Value::Object(members)
}

/// Builds the `navigate` effect.
pub fn navigate(to: &str) -> (r: Value)
    ensures
        r@ == spec_navigate(to@),
{
    let mut members = no_members();
    put(&mut members, "type", Value::text("navigate"));
    put(&mut members, "to", Value::text(to));
    Value::Object(members)
}

/// Builds the marker that is stored under a scrap document.
pub fn scrap_marker() -> (r: Value)
    ensures
        r@ == spec_scrap_marker(),
{
    let mut members = no_members();
    put(&mut members, "isScrap", Value::Bool(true));
    Value::Object(members)
}

/// Builds the data of a post that is not pinned.
pub fn post_data(content: &str) -> (r: Value)
    ensures
        r@ == spec_post_data(content@),
{
    let mut members = no_members();
    put(&mut members, "content", Value::text(content));
    put(&mut members, "pinned", Value::Bool(false));
    Value::Object(members)
}

/// Builds the error of a response.
pub fn error(code: &str) -> (r: Value)
    ensures
        r@ == spec_error(code@),
{
    let mut members = no_members();
    put(&mut members, "code", Value::text(code));
    Value::Object(members)
}

} // verus!
