use scrap_backend::dispatch::{exec, ExecInput, ExecOutput};
use scrap_backend::json::{Number, Value};

fn text(s: &str) -> Value {
    Value::String(s.to_string())
}

fn object(members: Vec<(&str, Value)>) -> Value {
    Value::Object(members.into_iter().map(|(k, v)| (k.to_string(), v)).collect())
}

fn request(action: &str, payload: Value) -> ExecInput {
    ExecInput { action: action.to_string(), payload, ctx: object(vec![]) }
}

fn rejected(code: &str) -> ExecOutput {
    ExecOutput {
        ok: false,
        data: None,
        effects: vec![],
        error: Some(object(vec![("code", text(code))])),
    }
}

fn accepted(effects: Vec<Value>) -> ExecOutput {
    ExecOutput { ok: true, data: None, effects, error: None }
}

fn create_document(title: &str) -> Value {
    object(vec![
        ("type", text("createDocument")),
        ("title", text(title)),
        ("docType", text("document")),
    ])
}

fn scrap_marker() -> Value {
    object(vec![
        ("type", text("putKv")),
        ("scope", text("doc")),
        ("key", text("meta")),
        ("value", object(vec![("isScrap", Value::Bool(true))])),
    ])
}

fn first_post(content: &str) -> Value {
    object(vec![
        ("type", text("createRecord")),
        ("scope", text("doc")),
        ("kind", text("post")),
        ("data", object(vec![("content", text(content)), ("pinned", Value::Bool(false))])),
    ])
}

fn go_to_created() -> Value {
    object(vec![("type", text("navigate")), ("to", text("/scrap/:createdDocId"))])
}

#[test]
fn hello_emits_one_success_toast() {
    let out = exec(request("scrap.hello", object(vec![])));
    let toast = object(vec![
        ("type", text("showToast")),
        ("level", text("success")),
        ("message", text("Hello from Scrap plugin!")),
    ]);
    assert_eq!(out, accepted(vec![toast]));
}

#[test]
fn hello_does_not_read_its_payload() {
    let out = exec(request("scrap.hello", Value::Null));
    assert!(out.ok);
    assert_eq!(out.effects.len(), 1);
    assert_eq!(out.error, None);
    assert_eq!(out.data, None);
}

#[test]
fn create_with_title_and_first_post_emits_four_effects() {
    let payload = object(vec![
        ("title", text("My Doc")),
        ("firstPost", object(vec![("content", text("hi"))])),
    ]);
    let out = exec(request("scrap.create", payload));
    assert_eq!(
        out,
        accepted(vec![
            create_document("My Doc"),
            scrap_marker(),
            first_post("hi"),
            go_to_created(),
        ])
    );
}

#[test]
fn create_with_empty_payload_uses_the_default_title() {
    let out = exec(request("scrap.create", object(vec![])));
    assert_eq!(out, accepted(vec![create_document("Scrap"), scrap_marker(), go_to_created()]));
    assert_eq!(out.effects.len(), 3);
}

#[test]
fn create_treats_a_title_of_the_wrong_shape_as_absent() {
    let payload = object(vec![("title", Value::Number(Number::PosInt(7)))]);
    let out = exec(request("scrap.create", payload));
    assert_eq!(out, accepted(vec![create_document("Scrap"), scrap_marker(), go_to_created()]));
}

#[test]
fn create_keeps_an_empty_title() {
    let payload = object(vec![("title", text(""))]);
    let out = exec(request("scrap.create", payload));
    assert_eq!(out, accepted(vec![create_document(""), scrap_marker(), go_to_created()]));
}

#[test]
fn create_accepts_a_payload_that_is_no_object() {
    let out = exec(request("scrap.create", Value::Array(vec![text("title")])));
    assert_eq!(out, accepted(vec![create_document("Scrap"), scrap_marker(), go_to_created()]));
}

#[test]
fn create_skips_the_post_when_first_post_is_no_object() {
    let payload = object(vec![("firstPost", text("hi"))]);
    let out = exec(request("scrap.create", payload));
    assert_eq!(out.effects.len(), 3);
    assert_eq!(out.effects[2], go_to_created());
}

#[test]
fn create_skips_the_post_when_content_is_no_string() {
    let payload = object(vec![("firstPost", object(vec![("content", Value::Bool(true))]))]);
    let out = exec(request("scrap.create", payload));
    assert_eq!(out, accepted(vec![create_document("Scrap"), scrap_marker(), go_to_created()]));
}

#[test]
fn create_keeps_an_empty_first_post() {
    let payload = object(vec![("firstPost", object(vec![("content", text(""))]))]);
    let out = exec(request("scrap.create", payload));
    assert_eq!(
        out,
        accepted(vec![create_document("Scrap"), scrap_marker(), first_post(""), go_to_created()])
    );
}

#[test]
fn create_record_emits_the_record_with_its_data() {
    let data = object(vec![
        ("n", Value::Number(Number::NegInt(-3))),
        ("ratio", Value::Number(Number::Float(0x3FF8_0000_0000_0000))),
        ("tags", Value::Array(vec![text("a"), Value::Null])),
    ]);
    let payload = object(vec![
        ("docId", text("d1")),
        ("kind", text("note")),
        ("data", data),
    ]);
    let out = exec(request("scrap.create_record", payload));
    let expected = object(vec![
        ("type", text("createRecord")),
        ("scope", text("doc")),
        ("docId", text("d1")),
        ("kind", text("note")),
        (
            "data",
            object(vec![
                ("n", Value::Number(Number::NegInt(-3))),
                ("ratio", Value::Number(Number::Float(0x3FF8_0000_0000_0000))),
                ("tags", Value::Array(vec![text("a"), Value::Null])),
            ]),
        ),
    ]);
    assert_eq!(out, accepted(vec![expected]));
}

#[test]
fn create_record_defaults_data_to_the_empty_object() {
    let payload = object(vec![("docId", text("d1")), ("kind", text("note"))]);
    let out = exec(request("scrap.create_record", payload));
    let expected = object(vec![
        ("type", text("createRecord")),
        ("scope", text("doc")),
        ("docId", text("d1")),
        ("kind", text("note")),
        ("data", object(vec![])),
    ]);
    assert_eq!(out, accepted(vec![expected]));
}

#[test]
fn create_record_passes_data_of_any_shape() {
    let payload = object(vec![
        ("docId", text("d1")),
        ("kind", text("note")),
        ("data", Value::Null),
    ]);
    let out = exec(request("scrap.create_record", payload));
    assert!(out.ok);
    assert_eq!(out.effects[0].get("data"), Some(&Value::Null));
}

#[test]
fn create_record_without_doc_id_is_a_bad_request() {
    let payload = object(vec![("kind", text("note"))]);
    assert_eq!(exec(request("scrap.create_record", payload)), rejected("BAD_REQUEST"));
}

#[test]
fn create_record_without_kind_is_a_bad_request() {
    let payload = object(vec![("docId", text("d1"))]);
    assert_eq!(exec(request("scrap.create_record", payload)), rejected("BAD_REQUEST"));
}

#[test]
fn create_record_with_empty_kind_is_a_bad_request() {
    let payload = object(vec![("docId", text("d1")), ("kind", text(""))]);
    assert_eq!(exec(request("scrap.create_record", payload)), rejected("BAD_REQUEST"));
}

#[test]
fn create_record_with_a_doc_id_that_is_no_string_is_a_bad_request() {
    let payload =
        object(vec![("docId", Value::Number(Number::PosInt(1))), ("kind", text("note"))]);
    assert_eq!(exec(request("scrap.create_record", payload)), rejected("BAD_REQUEST"));
}

#[test]
fn update_record_emits_the_patch() {
    let payload = object(vec![
        ("id", text("r9")),
        ("patch", object(vec![("pinned", Value::Bool(true))])),
    ]);
    let out = exec(request("scrap.update_record", payload));
    let expected = object(vec![
        ("type", text("updateRecord")),
        ("recordId", text("r9")),
        ("patch", object(vec![("pinned", Value::Bool(true))])),
    ]);
    assert_eq!(out, accepted(vec![expected]));
}

#[test]
fn update_record_defaults_the_patch_to_the_empty_object() {
    let payload = object(vec![("id", text("r9"))]);
    let out = exec(request("scrap.update_record", payload));
    let expected = object(vec![
        ("type", text("updateRecord")),
        ("recordId", text("r9")),
        ("patch", object(vec![])),
    ]);
    assert_eq!(out, accepted(vec![expected]));
}

#[test]
fn update_record_without_id_is_a_bad_request() {
    let payload = object(vec![("patch", object(vec![]))]);
    assert_eq!(exec(request("scrap.update_record", payload)), rejected("BAD_REQUEST"));
    assert_eq!(exec(request("scrap.update_record", Value::Null)), rejected("BAD_REQUEST"));
}

#[test]
fn update_record_with_an_id_that_is_no_string_is_a_bad_request() {
    let payload = object(vec![("id", Value::Bool(true))]);
    assert_eq!(exec(request("scrap.update_record", payload)), rejected("BAD_REQUEST"));
}

#[test]
fn delete_record_emits_the_removal() {
    let payload = object(vec![("id", text("r9"))]);
    let out = exec(request("scrap.delete_record", payload));
    let expected = object(vec![("type", text("deleteRecord")), ("recordId", text("r9"))]);
    assert_eq!(out, accepted(vec![expected]));
}

#[test]
fn delete_record_with_empty_id_is_a_bad_request() {
    let payload = object(vec![("id", text(""))]);
    let out = exec(request("scrap.delete_record", payload));
    assert!(!out.ok);
    assert_eq!(out.error, Some(object(vec![("code", text("BAD_REQUEST"))])));
    assert!(out.effects.is_empty());
    assert_eq!(out.data, None);
}

#[test]
fn delete_record_without_id_is_a_bad_request() {
    assert_eq!(exec(request("scrap.delete_record", object(vec![]))), rejected("BAD_REQUEST"));
    let payload = object(vec![("id", Value::Null)]);
    assert_eq!(exec(request("scrap.delete_record", payload)), rejected("BAD_REQUEST"));
}

#[test]
fn nonexistent_action_is_unknown() {
    let out = exec(request("nonexistent", object(vec![])));
    assert!(!out.ok);
    assert_eq!(out.error, Some(object(vec![("code", text("UNKNOWN_ACTION"))])));
    assert!(out.effects.is_empty());
    assert_eq!(out, rejected("UNKNOWN_ACTION"));
}

#[test]
fn action_names_are_matched_whole_and_by_case() {
    let names = ["", "scrap", "scrap.", "scrap.Hello", "scrap.hello ", "scrap.create_", "hello"];
    for name in names {
        let payload = object(vec![("id", text("r1")), ("docId", text("d")), ("kind", text("k"))]);
        assert_eq!(exec(request(name, payload)), rejected("UNKNOWN_ACTION"));
    }
}

#[test]
fn every_known_action_is_accepted_with_its_number_of_effects() {
    let full = || {
        object(vec![
            ("id", text("r1")),
            ("docId", text("d1")),
            ("kind", text("note")),
            ("firstPost", object(vec![("content", text("x"))])),
        ])
    };
    let cases: [(&str, usize); 5] = [
        ("scrap.hello", 1),
        ("scrap.create", 4),
        ("scrap.create_record", 1),
        ("scrap.update_record", 1),
        ("scrap.delete_record", 1),
    ];
    for (action, count) in cases {
        let out = exec(request(action, full()));
        assert!(out.ok);
        assert_eq!(out.effects.len(), count);
        assert_eq!(out.error, None);
        assert_eq!(out.data, None);
    }
}

#[test]
fn the_same_request_gets_the_same_response() {
    let payload = object(vec![
        ("title", text("T")),
        ("firstPost", object(vec![("content", text("c"))])),
        ("id", text("r1")),
    ]);
    for action in ["scrap.hello", "scrap.create", "scrap.update_record", "scrap.create_record", "x"]
    {
        let first = request(action, payload.clone());
        let second = first.clone();
        assert_eq!(first, second);
        assert_eq!(exec(first), exec(second));
    }
}

#[test]
fn the_context_is_not_read() {
    let payload = object(vec![("id", text("r1"))]);
    let plain = request("scrap.delete_record", payload.clone());
    let with_ctx = ExecInput {
        action: "scrap.delete_record".to_string(),
        payload,
        ctx: object(vec![("id", text("")), ("user", text("u"))]),
    };
    assert_eq!(exec(plain), exec(with_ctx));
}
