use serde_json::Value;
use waypoint_rest::classify::{
    classify_document, classify_found_false_error, classify_text, empty_list_payload,
    parse_resource_output,
};
use waypoint_rest::error::ResourceReadError;
use waypoint_rest::json::{parse_document, Json, JsonNumber};
use waypoint_rest::resource::RestResource;

fn to_value(doc: &Json) -> Value {
    match doc {
        Json::Null => Value::Null,
        Json::Bool(b) => Value::Bool(*b),
        Json::Number(JsonNumber::PosInt(n)) => Value::from(*n),
        Json::Number(JsonNumber::NegInt(n)) => Value::from(*n),
        Json::Number(JsonNumber::Real(text)) => Value::Number(text.parse().unwrap()),
        Json::Str(s) => Value::String(s.clone()),
        Json::Array(items) => Value::Array(items.iter().map(to_value).collect()),
        Json::Object(members) => {
            Value::Object(members.iter().map(|(k, v)| (k.clone(), to_value(v))).collect())
        }
    }
}

fn value_of(text: &str) -> Value {
    serde_json::from_str(text).unwrap()
}

fn empty_array() -> Value {
    Value::Array(Vec::new())
}

#[test]
fn singular_resources_map_not_found_to_error() {
    let resource = RestResource::UserByFid { fid: 1 };
    let result = parse_resource_output(&resource, "No user data found for FID 1".to_string());
    assert!(matches!(result, Err(ResourceReadError::NotFound(_))));
}

#[test]
fn list_resources_map_not_found_to_empty_payload() {
    let resource = RestResource::CastsByFid { fid: 1 };
    let result =
        to_value(&parse_resource_output(&resource, "No casts found for FID 1".to_string()).unwrap());

    assert_eq!(result["fid"], 1);
    assert_eq!(result["count"], 0);
    assert_eq!(result["casts"], empty_array());
}

#[test]
fn username_not_found_json_maps_to_404() {
    let resource = RestResource::UserByUsername { username: "alice".to_string() };
    let output =
        value_of(r#"{"username": "alice", "found": false, "error": "Username not found"}"#)
            .to_string();

    let result = parse_resource_output(&resource, output);
    assert!(matches!(result, Err(ResourceReadError::NotFound(_))));
}

#[test]
fn username_lookup_upstream_errors_map_to_500() {
    let resource = RestResource::UserByUsername { username: "alice".to_string() };
    let output =
        value_of(r#"{"username": "alice", "found": false, "error": "Error: upstream timeout"}"#)
            .to_string();

    let result = parse_resource_output(&resource, output);
    assert!(matches!(result, Err(ResourceReadError::Internal(_))));
}

#[test]
fn verification_lookup_found_false_json_maps_to_404() {
    let resource = RestResource::VerificationByAddress { fid: 1, address: "0xabc".to_string() };
    let output = value_of(
        r#"{"fid": 1, "address": "0xabc", "found": false, "error": "Verification not found"}"#,
    )
    .to_string();

    let result = parse_resource_output(&resource, output);
    assert!(matches!(result, Err(ResourceReadError::NotFound(_))));
}

#[test]
fn username_proof_lookup_found_false_json_maps_to_404() {
    let resource = RestResource::UsernameProofByName { name: "alice".to_string() };
    let output =
        value_of(r#"{"name": "alice", "found": false, "error": "Username proof not found"}"#)
            .to_string();

    let result = parse_resource_output(&resource, output);
    assert!(matches!(result, Err(ResourceReadError::NotFound(_))));
}

#[test]
fn verification_messages_not_found_maps_to_empty_payload() {
    let resource = RestResource::AllVerificationMessagesByFid {
        fid: 1,
        start_time: Some(10),
        end_time: Some(20),
    };
    let result = to_value(
        &parse_resource_output(
            &resource,
            "No verification messages found for FID 1 between timestamps 10 and 20".to_string(),
        )
        .unwrap(),
    );

    assert_eq!(result["fid"], 1);
    assert_eq!(result["count"], 0);
    assert_eq!(result["start_time"], 10);
    assert_eq!(result["end_time"], 20);
    assert_eq!(result["verifications"], empty_array());
}

#[test]
fn username_proofs_not_found_maps_to_empty_payload() {
    let resource = RestResource::UsernameProofsByFid { fid: 1 };
    let result = to_value(
        &parse_resource_output(&resource, "No username proofs found for FID 1".to_string())
            .unwrap(),
    );

    assert_eq!(result["fid"], 1);
    assert_eq!(result["count"], 0);
    assert_eq!(result["proofs"], empty_array());
}

#[test]
fn mcp_json_payload_shape_is_preserved_for_rest_resources() {
    let cases = vec![
        (RestResource::UserByFid { fid: 1 }, value_of(r#"{ "fid": 1, "username": "alice" }"#)),
        (
            RestResource::UserByUsername { username: "alice".to_string() },
            value_of(r#"{ "fid": 1, "username": "alice", "display_name": "Alice" }"#),
        ),
        (
            RestResource::VerificationsByFid { fid: 2 },
            value_of(r#"{ "fid": 2, "count": 1, "verifications": [{ "address": "0xabc" }] }"#),
        ),
        (
            RestResource::VerificationByAddress { fid: 2, address: "0xabc".to_string() },
            value_of(
                r#"{
                    "fid": 2,
                    "address": "0xabc",
                    "found": true,
                    "verification": { "address": "0xabc" }
                }"#,
            ),
        ),
        (
            RestResource::AllVerificationMessagesByFid {
                fid: 2,
                start_time: Some(10),
                end_time: Some(20),
            },
            value_of(
                r#"{
                    "fid": 2,
                    "count": 1,
                    "start_time": 10,
                    "end_time": 20,
                    "verifications": [{ "address": "0xabc", "action": "add" }]
                }"#,
            ),
        ),
        (
            RestResource::Cast { fid: 3, hash: "0abc".to_string() },
            value_of(r#"{ "fid": 3, "hash": "0abc", "text": "hello" }"#),
        ),
        (
            RestResource::Conversation { fid: 4, hash: "0abc".to_string() },
            value_of(r#"{ "fid": 4, "hash": "0abc", "conversation": { "root": { "fid": 4 } } }"#),
        ),
        (
            RestResource::CastsByFid { fid: 5 },
            value_of(r#"{ "fid": 5, "count": 1, "casts": [{ "hash": "0def" }] }"#),
        ),
        (
            RestResource::CastsByMention { fid: 6 },
            value_of(r#"{ "fid": 6, "count": 1, "casts": [{ "hash": "0fed" }] }"#),
        ),
        (
            RestResource::CastsByParent { fid: 7, hash: "0abc".to_string() },
            value_of(
                r#"{
                    "parent": { "fid": 7, "hash": "0abc" },
                    "count": 1,
                    "replies": [{ "hash": "0aaa" }]
                }"#,
            ),
        ),
        (
            RestResource::CastsByParentUrl { url: "https://example.com".to_string() },
            value_of(
                r#"{
                    "parent_url": "https://example.com",
                    "count": 1,
                    "replies": [{ "hash": "0bbb" }]
                }"#,
            ),
        ),
        (
            RestResource::ReactionsByFid { fid: 8 },
            value_of(r#"{ "fid": 8, "count": 1, "reactions": [{ "reaction_type": "like" }] }"#),
        ),
        (
            RestResource::ReactionsByTargetCast { fid: 9, hash: "0abc".to_string() },
            value_of(
                r#"{
                    "target_cast": { "fid": 9, "hash": "0abc" },
                    "count": 1,
                    "reactions": [{ "reaction_type": "like" }]
                }"#,
            ),
        ),
        (
            RestResource::ReactionsByTargetUrl { url: "https://example.com".to_string() },
            value_of(
                r#"{
                    "target_url": "https://example.com",
                    "count": 1,
                    "reactions": [{ "reaction_type": "like" }]
                }"#,
            ),
        ),
        (
            RestResource::LinksByFid { fid: 10 },
            value_of(r#"{ "fid": 10, "count": 1, "links": [{ "target_fid": 77 }] }"#),
        ),
        (
            RestResource::LinksByTarget { fid: 11 },
            value_of(r#"{ "target_fid": 11, "count": 1, "links": [{ "fid": 99 }] }"#),
        ),
        (
            RestResource::LinkCompactStateByFid { fid: 12 },
            value_of(
                r#"{
                    "fid": 12,
                    "count": 1,
                    "compact_links": [{ "target_fid": 42, "state": "follow" }]
                }"#,
            ),
        ),
        (
            RestResource::UsernameProofByName { name: "alice".to_string() },
            value_of(
                r#"{
                    "name": "alice",
                    "found": true,
                    "type": "fname",
                    "fid": 12,
                    "timestamp": 1710000000,
                    "owner": "0xabc"
                }"#,
            ),
        ),
        (
            RestResource::UsernameProofsByFid { fid: 12 },
            value_of(
                r#"{
                    "fid": 12,
                    "count": 1,
                    "proofs": [{
                        "name": "alice",
                        "type": "fname",
                        "fid": 12,
                        "timestamp": 1710000000,
                        "owner": "0xabc"
                    }]
                }"#,
            ),
        ),
    ];

    for (resource, mcp_payload) in cases {
        let parsed = parse_resource_output(&resource, mcp_payload.to_string()).unwrap();
        assert_eq!(to_value(&parsed), mcp_payload);
    }
}

#[test]
fn singular_resources_never_get_an_empty_payload() {
    let singular = vec![
        RestResource::UserByFid { fid: 1 },
        RestResource::UserByUsername { username: "alice".to_string() },
        RestResource::VerificationByAddress { fid: 1, address: "0xabc".to_string() },
        RestResource::Cast { fid: 1, hash: "0abc".to_string() },
        RestResource::Conversation { fid: 1, hash: "0abc".to_string() },
        RestResource::UsernameProofByName { name: "alice".to_string() },
    ];
    for resource in singular {
        assert!(resource.is_singular());
        for text in ["No such thing", "NO DATA", "the cast was not found", "Cast Not Found here"] {
            match parse_resource_output(&resource, text.to_string()) {
                Err(ResourceReadError::NotFound(message)) => assert_eq!(message, text),
                other => panic!("expected NotFound for {:?}, got {:?}", text, other),
            }
        }
    }
}

#[test]
fn every_list_resource_gets_its_own_empty_payload() {
    let cases = vec![
        (
            RestResource::VerificationsByFid { fid: 7 },
            r#"{"fid": 7, "count": 0, "verifications": []}"#,
        ),
        (
            RestResource::AllVerificationMessagesByFid { fid: 7, start_time: None, end_time: Some(5) },
            r#"{"fid": 7, "count": 0, "start_time": null, "end_time": 5, "verifications": []}"#,
        ),
        (RestResource::CastsByFid { fid: 7 }, r#"{"fid": 7, "count": 0, "casts": []}"#),
        (RestResource::CastsByMention { fid: 7 }, r#"{"fid": 7, "count": 0, "casts": []}"#),
        (
            RestResource::CastsByParent { fid: 7, hash: "0abc".to_string() },
            r#"{"parent": {"fid": 7, "hash": "0abc"}, "count": 0, "replies": []}"#,
        ),
        (
            RestResource::CastsByParentUrl { url: "https://example.com/\"x\"".to_string() },
            r#"{"parent_url": "https://example.com/\"x\"", "count": 0, "replies": []}"#,
        ),
        (RestResource::ReactionsByFid { fid: 7 }, r#"{"fid": 7, "count": 0, "reactions": []}"#),
        (
            RestResource::ReactionsByTargetCast { fid: 7, hash: "0abc".to_string() },
            r#"{"target_cast": {"fid": 7, "hash": "0abc"}, "count": 0, "reactions": []}"#,
        ),
        (
            RestResource::ReactionsByTargetUrl { url: "https://example.com".to_string() },
            r#"{"target_url": "https://example.com", "count": 0, "reactions": []}"#,
        ),
        (RestResource::LinksByFid { fid: 7 }, r#"{"fid": 7, "count": 0, "links": []}"#),
        (RestResource::LinksByTarget { fid: 7 }, r#"{"target_fid": 7, "count": 0, "links": []}"#),
        (
            RestResource::LinkCompactStateByFid { fid: 7 },
            r#"{"fid": 7, "count": 0, "compact_links": []}"#,
        ),
        (RestResource::UsernameProofsByFid { fid: 7 }, r#"{"fid": 7, "count": 0, "proofs": []}"#),
    ];
    for (resource, expected) in cases {
        assert!(!resource.is_singular());
        assert_eq!(to_value(&empty_list_payload(&resource)), value_of(expected));
        let classified = parse_resource_output(&resource, "nothing here was not found".to_string());
        assert_eq!(to_value(&classified.unwrap()), value_of(expected));
    }
}

#[test]
fn empty_payload_of_a_singular_resource_is_the_empty_object() {
    let payload = empty_list_payload(&RestResource::UserByFid { fid: 1 });
    assert_eq!(payload, Json::Object(Vec::new()));
}

#[test]
fn complaints_are_invalid_params_for_every_kind() {
    let resources = vec![
        RestResource::UserByFid { fid: 1 },
        RestResource::CastsByFid { fid: 1 },
        RestResource::UsernameProofByName { name: "alice".to_string() },
    ];
    for resource in resources {
        for text in ["Invalid hash", "INVALID FID", "request is Missing fid", "No fid: missing value"]
        {
            match parse_resource_output(&resource, text.to_string()) {
                Err(ResourceReadError::InvalidParams(message)) => assert_eq!(message, text),
                other => panic!("expected InvalidParams for {:?}, got {:?}", text, other),
            }
        }
    }
}

#[test]
fn reported_failures_and_unmatched_text_are_internal() {
    let resource = RestResource::CastsByFid { fid: 1 };
    for text in ["Error: not found", "ERROR fetching", "something odd", "", "xnot found"] {
        match parse_resource_output(&resource, text.to_string()) {
            Err(ResourceReadError::Internal(message)) => assert_eq!(message, text),
            other => panic!("expected Internal for {:?}, got {:?}", text, other),
        }
    }
}

#[test]
fn text_rules_apply_to_the_lowered_text_that_is_handed_in() {
    let resource = RestResource::UserByFid { fid: 1 };
    let result = classify_text(&resource, "No User".to_string(), "no user");
    assert!(matches!(result, Err(ResourceReadError::NotFound(m)) if m == "No User"));
    let result = classify_text(&resource, "No User".to_string(), "No User");
    assert!(matches!(result, Err(ResourceReadError::Internal(m)) if m == "No User"));
}

#[test]
fn found_false_is_read_only_for_lookups_by_alternate_key() {
    let text = r#"{"found": false, "error": "gone"}"#;
    let by_fid = parse_resource_output(&RestResource::UserByFid { fid: 1 }, text.to_string());
    assert_eq!(to_value(&by_fid.unwrap()), value_of(text));

    let by_name = parse_resource_output(
        &RestResource::UserByUsername { username: "alice".to_string() },
        text.to_string(),
    );
    assert!(matches!(by_name, Err(ResourceReadError::NotFound(m)) if m == "gone"));
}

#[test]
fn found_false_without_a_message_has_the_default_message() {
    let resource = RestResource::UsernameProofByName { name: "alice".to_string() };
    for text in [r#"{"found": false}"#, r#"{"found": false, "error": 5}"#] {
        let doc = parse_document(text).unwrap();
        let result = classify_document(&resource, doc);
        assert!(matches!(result, Err(ResourceReadError::NotFound(m)) if m == "Resource not found"));
    }
}

#[test]
fn found_that_is_no_boolean_false_passes_through() {
    let resource = RestResource::UsernameProofByName { name: "alice".to_string() };
    for text in [r#"{"found": "false"}"#, r#"{"found": 0}"#, r#"{"found": null}"#, r#"[1, 2]"#] {
        let doc = parse_document(text).unwrap();
        let result = classify_document(&resource, doc).unwrap();
        assert_eq!(to_value(&result), value_of(text));
    }
}

#[test]
fn leading_word_error_is_found_without_regard_to_case_and_leading_space() {
    for text in ["error", "Error: x", "  ERRORS happen", "\terror"] {
        assert!(matches!(
            classify_found_false_error(text.to_string()),
            ResourceReadError::Internal(m) if m == text
        ));
    }
    for text in ["", "erro", "an error", "Username not found"] {
        assert!(matches!(
            classify_found_false_error(text.to_string()),
            ResourceReadError::NotFound(m) if m == text
        ));
    }
}

#[test]
fn documents_are_read_with_their_numbers_and_nesting() {
    let doc = parse_document(r#"{"a": [1, -2, 1.5, "x", true, null], "b": {"c": 18446744073709551615}}"#)
        .unwrap();
    let expected = Json::Object(vec![
        (
            "a".to_string(),
            Json::Array(vec![
                Json::Number(JsonNumber::PosInt(1)),
                Json::Number(JsonNumber::NegInt(-2)),
                Json::Number(JsonNumber::Real("1.5".to_string())),
                Json::Str("x".to_string()),
                Json::Bool(true),
                Json::Null,
            ]),
        ),
        (
            "b".to_string(),
            Json::Object(vec![("c".to_string(), Json::Number(JsonNumber::PosInt(u64::MAX)))]),
        ),
    ]);
    assert_eq!(doc, expected);
    assert_eq!(doc.get("b").unwrap().get("c"), Some(&Json::Number(JsonNumber::PosInt(u64::MAX))));
    assert_eq!(doc.get("missing"), None);
    assert_eq!(Json::Bool(false).as_bool(), Some(false));
    assert_eq!(Json::Null.as_bool(), None);
    assert_eq!(Json::Str("x".to_string()).as_str(), Some("x"));
    assert!(parse_document("not json").is_none());
    assert!(parse_document("").is_none());
}

#[test]
fn a_copy_of_a_document_is_equal_to_it() {
    let doc = parse_document(r#"{"a": [1, -2, 1.5, {"b": null}], "c": "x", "d": true}"#).unwrap();
    let copy = doc.clone();
    assert_eq!(copy, doc);
    assert_eq!(to_value(&copy), to_value(&doc));
    assert_eq!(JsonNumber::Real("2.5".to_string()).clone(), JsonNumber::Real("2.5".to_string()));
}

#[test]
fn documents_are_built_from_plain_values() {
    assert_eq!(Json::from_u64(7), Json::Number(JsonNumber::PosInt(7)));
    assert_eq!(Json::from_optional_u64(Some(7)), Json::Number(JsonNumber::PosInt(7)));
    assert_eq!(Json::from_optional_u64(None), Json::Null);
    assert_eq!(Json::from_text("x"), Json::Str("x".to_string()));
    assert_eq!(Json::empty_list(), Json::Array(Vec::new()));
    let members = vec![("k".to_string(), Json::Bool(true)), ("k".to_string(), Json::Bool(false))];
    let object = Json::object(members);
    assert_eq!(object.get("k"), Some(&Json::Bool(true)));
    assert_eq!(Json::Array(Vec::new()).get("k"), None);
}

#[test]
fn a_parsed_document_survives_the_round_trip_through_text() {
    let texts = [
        r#"{"fid":1,"username":"alice","nested":{"list":[1,2,3],"flag":false}}"#,
        r#"[]"#,
        r#""plain text that says not found""#,
        r#"12"#,
        r#"null"#,
    ];
    for text in texts {
        let resource = RestResource::CastsByFid { fid: 1 };
        let payload = parse_resource_output(&resource, text.to_string()).unwrap();
        let again = parse_resource_output(&resource, to_value(&payload).to_string()).unwrap();
        assert_eq!(again, payload);
        assert_eq!(to_value(&payload), value_of(text));
    }
}

#[test]
fn leading_word_is_judged_as_trimming_and_lowering_would() {
    let messages = [
        "error", "ERROR", "eRrOr: x", " error", "\u{a0}\u{2003}Error", "\u{feff}error", "error ",
        "  error  ", "err", "erro r", "an error", "", " ", "\n\terror: timeout\n", "érror",
        "ERROŔ", "Errors", "e\u{301}rror", "\u{200b}error", "\u{3000}ERROR",
    ];
    for message in messages {
        let expected = message.trim().to_ascii_lowercase().starts_with("error");
        let internal = matches!(
            classify_found_false_error(message.to_string()),
            ResourceReadError::Internal(_)
        );
        assert_eq!(internal, expected, "for {:?}", message);
    }
}

#[test]
fn text_rules_see_the_unicode_lower_case_form() {
    let resource = RestResource::UserByFid { fid: 1 };
    let cases = [
        ("INVALID İD", "InvalidParams"),
        ("İnvalid", "Internal"),
        ("MİSSİNG fid", "Internal"),
        ("NO ΣΑΣ", "NotFound"),
        ("ΟΔΌΣ NOT FOUND", "NotFound"),
        ("ERROR", "Internal"),
    ];
    for (text, expected) in cases {
        let kind = match parse_resource_output(&resource, text.to_string()) {
            Err(ResourceReadError::InvalidParams(_)) => "InvalidParams",
            Err(ResourceReadError::NotFound(_)) => "NotFound",
            Err(ResourceReadError::Internal(_)) => "Internal",
            Ok(_) => "Ok",
        };
        assert_eq!(kind, expected, "for {:?}", text);
    }
}
