//! What holds of the dispatch table for every request.
//!
//! Each statement is a proof function over [`outcome`], the function that
//! [`crate::dispatch::exec`] is proved to compute.

use vstd::prelude::*;
use crate::dispatch::{
    action_names_differ, bad_request, create_action, create_record_action, delete_record_action,
    first_post_content, hello_action, identifier, is_known_action, outcome, unknown_action,
    update_record_action, ExecInput, ExecOutput, SpecInput, SpecOutput,
};
use crate::effect::spec_error;
use crate::json::{lookup, SpecValue};

verus! {

/// Whether `payload` has no usable text under `key`: the member is absent, is
/// not a string, or is the empty string.
pub open spec fn lacks_text(payload: SpecValue, key: Seq<char>) -> bool {
    match payload.get(key) {
        None => true,
        Some(v) => !(v is String) || v == SpecValue::String(Seq::empty()),
    }
}

/// Whether `payload` holds every identifier that `action` requires.
pub open spec fn has_required_identifiers(action: Seq<char>, payload: SpecValue) -> bool {
    if action == create_record_action() {
        !lacks_text(payload, "docId"@) && !lacks_text(payload, "kind"@)
    } else if action == update_record_action() || action == delete_record_action() {
        !lacks_text(payload, "id"@)
    } else {
        true
    }
}

/// The number of effects with which `action` is accepted on `payload`.
pub open spec fn effect_count(action: Seq<char>, payload: SpecValue) -> nat {
    if action == create_action() {
        if first_post_content(payload) is Some {
            4
        } else {
            3
        }
    } else {
        1
    }
}

/// An identifier is read exactly where the payload does not lack the text.
pub proof fn identifier_is_missing_iff_text_is_lacking(payload: SpecValue, key: Seq<char>)
    ensures
        identifier(payload, key) is None <==> lacks_text(payload, key),
{
    match payload.get(key) {
        Some(SpecValue::String(s)) => {
            assert(s.len() == 0 <==> s =~= Seq::empty());
        },
        _ => {},
    }
}

/// A lookup finds the first member with the key, and nothing exactly where no
/// member has the key.
pub proof fn lookup_finds_first(members: Seq<(Seq<char>, SpecValue)>, key: Seq<char>)
    ensures
        lookup(members, key) is None <==> forall|i: int|
            0 <= i < members.len() ==> (#[trigger] members[i]).0 != key,
        lookup(members, key) matches Some(v) ==> exists|i: int|
            0 <= i < members.len() && (#[trigger] members[i]) == (key, v) && forall|j: int|
                0 <= j < i ==> (#[trigger] members[j]).0 != key,
    decreases members.len(),
{
    if members.len() > 0 {
        let rest = members.drop_first();
        lookup_finds_first(rest, key);
        assert(forall|i: int| 0 <= i < rest.len() ==> rest[i] == members[i + 1]);
        if members[0].0 == key {
            assert(members[0] == (key, members[0].1));
        } else {
            if lookup(rest, key) is None {
                assert forall|i: int| 0 <= i < members.len() implies (#[trigger] members[i]).0
                    != key by {
                    if i > 0 {
                        assert(rest[i - 1] == members[i]);
                    }
                }
            } else {
                let v = lookup(rest, key)->Some_0;
                let k = choose|i: int|
                    0 <= i < rest.len() && (#[trigger] rest[i]) == (key, v) && forall|j: int|
                        0 <= j < i ==> (#[trigger] rest[j]).0 != key;
                assert(members[k + 1] == (key, v));
                assert forall|j: int| 0 <= j < k + 1 implies (#[trigger] members[j]).0 != key by {
                    if j > 0 {
                        assert(rest[j - 1] == members[j]);
                    }
                }
            }
        }
    }
}

/// A known action whose payload holds the identifiers it requires is accepted:
/// without an error, and with one effect, or for `scrap.create` with four
/// effects where a first post is asked for and three where none is.
pub proof fn well_formed_request_is_accepted(input: SpecInput)
    requires
        is_known_action(input.action),
        has_required_identifiers(input.action, input.payload),
    ensures
        outcome(input).ok,
        outcome(input).error is None,
        outcome(input).effects.len() == effect_count(input.action, input.payload),
{
    action_names_differ();
    identifier_is_missing_iff_text_is_lacking(input.payload, "docId"@);
    identifier_is_missing_iff_text_is_lacking(input.payload, "kind"@);
    identifier_is_missing_iff_text_is_lacking(input.payload, "id"@);
}

/// A known action is accepted only where its payload holds the identifiers
/// that it requires.
pub proof fn accepted_request_is_well_formed(input: SpecInput)
    requires
        outcome(input).ok,
    ensures
        is_known_action(input.action),
        has_required_identifiers(input.action, input.payload),
{
    action_names_differ();
    identifier_is_missing_iff_text_is_lacking(input.payload, "docId"@);
    identifier_is_missing_iff_text_is_lacking(input.payload, "kind"@);
    identifier_is_missing_iff_text_is_lacking(input.payload, "id"@);
}

/// An action that is none of the five is rejected as unknown, with no effect,
/// whatever the payload.
pub proof fn unknown_action_is_rejected(input: SpecInput)
    requires
        !is_known_action(input.action),
    ensures
        outcome(input) == unknown_action(),
        outcome(input) == (SpecOutput {
            ok: false,
            data: None,
            effects: Seq::empty(),
            error: Some(spec_error("UNKNOWN_ACTION"@)),
        }),
{
}

/// `scrap.create_record` without a usable `docId` or `kind`, and
/// `scrap.update_record` and `scrap.delete_record` without a usable `id`, are
/// rejected as bad requests, with no effect.
pub proof fn missing_identifier_is_bad_request(input: SpecInput)
    requires
        is_known_action(input.action),
        !has_required_identifiers(input.action, input.payload),
    ensures
        outcome(input) == bad_request(),
        outcome(input) == (SpecOutput {
            ok: false,
            data: None,
            effects: Seq::empty(),
            error: Some(spec_error("BAD_REQUEST"@)),
        }),
{
    action_names_differ();
    identifier_is_missing_iff_text_is_lacking(input.payload, "docId"@);
    identifier_is_missing_iff_text_is_lacking(input.payload, "kind"@);
    identifier_is_missing_iff_text_is_lacking(input.payload, "id"@);
}

/// The response depends on the action and the payload alone: two requests
/// that agree on both get the same response, whatever their contexts.
pub proof fn outcome_ignores_context(a: SpecInput, b: SpecInput)
    requires
        a.action == b.action,
        a.payload == b.payload,
    ensures
        outcome(a) == outcome(b),
{
}

/// Answering the same request twice gives the same response: any two
/// responses that `exec` may return for requests with the same content have
/// the same content.
pub proof fn same_request_same_response(
    first: ExecInput,
    second: ExecInput,
    first_out: ExecOutput,
    second_out: ExecOutput,
)
    requires
        first@ == second@,
        first_out@ == outcome(first@),
        second_out@ == outcome(second@),
    ensures
        first_out@ == second_out@,
{
}

} // verus!
