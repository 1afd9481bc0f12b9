//! Classification of what the upstream service answered: a JSON payload, an
//! empty list in the shape of the resource, or one of three kinds of error.
use vstd::prelude::*;
use vstd::string::StringExecFns;
use crate::error::{ErrorKind, ErrorModel, ResourceReadError};
use crate::json::{
    distinct_keys, json_document, members_model, parse_document, push_member, Json, JsonModel,
};
use crate::resource::{ResourceModel, RestResource};
use crate::text::{
    ascii_lower, chars_of, contains, has_infix, has_prefix, leading_white_space, starts_with,
    starts_with_lowered, to_lowercase, trim_start, unicode_lowercase,
};

verus! {

/// The model of a classified answer.
pub open spec fn outcome_model(r: Result<Json, ResourceReadError>) -> Result<
    JsonModel,
    ErrorModel,
> {
    match r {
        Ok(payload) => Ok(payload@),
        Err(e) => Err(e@),
    }
}

/// The object `{fid, hash}` that names a cast.
pub open spec fn cast_reference(fid: u64, hash: Seq<char>) -> JsonModel {
    JsonModel::Object(seq![("fid"@, JsonModel::number(fid)), ("hash"@, JsonModel::Str(hash))])
}

/// The object that echoes one parameter under `key`, has the count 0 and
/// an empty list under `list`.
pub open spec fn empty_listing(key: Seq<char>, echoed: JsonModel, list: Seq<char>) -> JsonModel {
    JsonModel::Object(
        seq![(key, echoed), ("count"@, JsonModel::number(0)), (list, JsonModel::empty_list())],
    )
}

/// The payload that stands for "no entries" of a resource: the keys of a
/// non-empty answer of that resource, the count 0 and an empty list. A
/// resource that is no list has the empty object.
pub open spec fn empty_payload(resource: ResourceModel) -> JsonModel {
    match resource {
        ResourceModel::VerificationsByFid { fid } => empty_listing(
            "fid"@,
            JsonModel::number(fid),
            "verifications"@,
        ),
        ResourceModel::AllVerificationMessagesByFid { fid, start_time, end_time } => {
            JsonModel::Object(
                seq![
                    ("fid"@, JsonModel::number(fid)),
                    ("count"@, JsonModel::number(0)),
                    ("start_time"@, JsonModel::optional_number(start_time)),
                    ("end_time"@, JsonModel::optional_number(end_time)),
                    ("verifications"@, JsonModel::empty_list()),
                ],
            )
        },
        ResourceModel::CastsByFid { fid } => empty_listing("fid"@, JsonModel::number(fid), "casts"@),
        ResourceModel::CastsByMention { fid } => empty_listing(
            "fid"@,
            JsonModel::number(fid),
            "casts"@,
        ),
        ResourceModel::CastsByParent { fid, hash } => empty_listing(
            "parent"@,
            cast_reference(fid, hash),
            "replies"@,
        ),
        ResourceModel::CastsByParentUrl { url } => empty_listing(
            "parent_url"@,
            JsonModel::Str(url),
            "replies"@,
        ),
        ResourceModel::ReactionsByFid { fid } => empty_listing(
            "fid"@,
            JsonModel::number(fid),
            "reactions"@,
        ),
        ResourceModel::ReactionsByTargetCast { fid, hash } => empty_listing(
            "target_cast"@,
            cast_reference(fid, hash),
            "reactions"@,
        ),
        ResourceModel::ReactionsByTargetUrl { url } => empty_listing(
            "target_url"@,
            JsonModel::Str(url),
            "reactions"@,
        ),
        ResourceModel::LinksByFid { fid } => empty_listing("fid"@, JsonModel::number(fid), "links"@),
        ResourceModel::LinksByTarget { fid } => empty_listing(
            "target_fid"@,
            JsonModel::number(fid),
            "links"@,
        ),
        ResourceModel::LinkCompactStateByFid { fid } => empty_listing(
            "fid"@,
            JsonModel::number(fid),
            "compact_links"@,
        ),
        ResourceModel::UsernameProofsByFid { fid } => empty_listing(
            "fid"@,
            JsonModel::number(fid),
            "proofs"@,
        ),
        _ => JsonModel::Object(Seq::empty()),
    }
}

/// The document says that nothing was found: its member `found` is the
/// truth value `false`.
pub open spec fn found_false(doc: JsonModel) -> bool {
    doc.get("found"@) == Some(JsonModel::Bool(false))
}

/// The message of a document that says that nothing was found: the text
/// under `error`, or a fixed message where there is no text there.
pub open spec fn failure_message(doc: JsonModel) -> Seq<char> {
    match doc.get("error"@) {
        Some(JsonModel::Str(message)) => message,
        _ => "Resource not found"@,
    }
}

/// The message begins, after its leading white space and without regard
/// to the case of ASCII letters, with the word `error`.
pub open spec fn leads_with_error(message: Seq<char>) -> bool {
    has_prefix(ascii_lower(trim_start(message)), "error"@)
}

/// The error that a "nothing found" document stands for: an upstream
/// failure where its message begins with `error`, an absent entity
/// otherwise.
pub open spec fn found_false_error(message: Seq<char>) -> ErrorModel {
    ErrorModel {
        kind: if leads_with_error(message) {
            ErrorKind::Internal
        } else {
            ErrorKind::NotFound
        },
        message,
    }
}

/// How a JSON answer is classified: a lookup by an alternate key whose
/// document says that nothing was found is an error; any other document is
/// the payload.
pub open spec fn document_outcome(resource: ResourceModel, doc: JsonModel) -> Result<
    JsonModel,
    ErrorModel,
> {
    if resource.by_alternate_key() && found_false(doc) {
        Err(found_false_error(failure_message(doc)))
    } else {
        Ok(doc)
    }
}

/// The text complains about the request: it begins with `invalid` or
/// holds `missing `.
pub open spec fn reports_invalid(lowered: Seq<char>) -> bool {
    has_prefix(lowered, "invalid"@) || has_infix(lowered, "missing "@)
}

/// The text reports a failure: it begins with `error`.
pub open spec fn reports_failure(lowered: Seq<char>) -> bool {
    has_prefix(lowered, "error"@)
}

/// The text says that there is nothing: it begins with `no ` or holds
/// ` not found`.
pub open spec fn reports_absence(lowered: Seq<char>) -> bool {
    has_prefix(lowered, "no "@) || has_infix(lowered, " not found"@)
}

/// How an answer that is no JSON document is classified, given the text
/// and its lower-case form. The rules apply in this order.
pub open spec fn text_outcome(resource: ResourceModel, output: Seq<char>, lowered: Seq<char>)
    -> Result<JsonModel, ErrorModel> {
    if reports_invalid(lowered) {
        Err(ErrorModel { kind: ErrorKind::InvalidParams, message: output })
    } else if reports_failure(lowered) {
        Err(ErrorModel { kind: ErrorKind::Internal, message: output })
    } else if reports_absence(lowered) {
        if resource.singular() {
            Err(ErrorModel { kind: ErrorKind::NotFound, message: output })
        } else {
            Ok(empty_payload(resource))
        }
    } else {
        Err(ErrorModel { kind: ErrorKind::Internal, message: output })
    }
}

/// How an upstream answer is classified.
pub open spec fn outcome(resource: ResourceModel, output: Seq<char>) -> Result<
    JsonModel,
    ErrorModel,
> {
    match json_document(output) {
        Some(doc) => document_outcome(resource, doc),
        None => text_outcome(resource, output, unicode_lowercase(output)),
    }
}

/// An object of two members with different keys and well-formed values
/// is well formed.
proof fn lemma_pair_wf(k1: Seq<char>, v1: JsonModel, k2: Seq<char>, v2: JsonModel)
    requires
        k1 != k2,
        v1.wf(),
        v2.wf(),
    ensures
        JsonModel::Object(seq![(k1, v1), (k2, v2)]).wf(),
{
    let members = seq![(k1, v1), (k2, v2)];
    assert(distinct_keys(members));
    assert forall|i: int| 0 <= i < members.len() implies (#[trigger] members[i]).1.wf() by {}
}

/// An object of three members with different keys and well-formed values
/// is well formed.
proof fn lemma_triple_wf(
    k1: Seq<char>,
    v1: JsonModel,
    k2: Seq<char>,
    v2: JsonModel,
    k3: Seq<char>,
    v3: JsonModel,
)
    requires
        k1 != k2,
        k1 != k3,
        k2 != k3,
        v1.wf(),
        v2.wf(),
        v3.wf(),
    ensures
        JsonModel::Object(seq![(k1, v1), (k2, v2), (k3, v3)]).wf(),
{
    let members = seq![(k1, v1), (k2, v2), (k3, v3)];
    assert(distinct_keys(members));
    assert forall|i: int| 0 <= i < members.len() implies (#[trigger] members[i]).1.wf() by {}
}

/// The keys of the empty payloads differ from one another wherever two of
/// them stand in one object.
proof fn lemma_keys_differ()
    ensures
        "fid"@ != "hash"@,
        "fid"@ != "count"@,
        "parent"@ != "count"@,
        "parent_url"@ != "count"@,
        "target_cast"@ != "count"@,
        "target_url"@ != "count"@,
        "target_fid"@ != "count"@,
        "verifications"@ != "count"@,
        "casts"@ != "count"@,
        "replies"@ != "count"@,
        "reactions"@ != "count"@,
        "links"@ != "count"@,
        "compact_links"@ != "count"@,
        "proofs"@ != "count"@,
        "start_time"@ != "count"@,
        "end_time"@ != "count"@,
        "fid"@ != "verifications"@,
        "fid"@ != "casts"@,
        "fid"@ != "reactions"@,
        "fid"@ != "links"@,
        "fid"@ != "compact_links"@,
        "fid"@ != "proofs"@,
        "fid"@ != "start_time"@,
        "fid"@ != "end_time"@,
        "parent"@ != "replies"@,
        "parent_url"@ != "replies"@,
        "target_cast"@ != "reactions"@,
        "target_url"@ != "reactions"@,
        "target_fid"@ != "links"@,
        "start_time"@ != "end_time"@,
        "start_time"@ != "verifications"@,
        "end_time"@ != "verifications"@,
{
    reveal_strlit("fid");
    reveal_strlit("hash");
    reveal_strlit("count");
    reveal_strlit("parent");
    reveal_strlit("parent_url");
    reveal_strlit("target_cast");
    reveal_strlit("target_url");
    reveal_strlit("target_fid");
    reveal_strlit("verifications");
    reveal_strlit("casts");
    reveal_strlit("replies");
    reveal_strlit("reactions");
    reveal_strlit("links");
    reveal_strlit("compact_links");
    reveal_strlit("proofs");
    reveal_strlit("start_time");
    reveal_strlit("end_time");
    assert("fid"@.len() == 3);
    assert("hash"@.len() == 4);
    assert("count"@.len() == 5);
    assert("parent"@.len() == 6);
    assert("parent_url"@.len() == 10);
    assert("target_cast"@.len() == 11);
    assert("target_url"@.len() == 10);
    assert("target_fid"@.len() == 10);
    assert("verifications"@.len() == 13);
    assert("casts"@.len() == 5);
    assert("replies"@.len() == 7);
    assert("reactions"@.len() == 9);
    assert("links"@.len() == 5);
    assert("compact_links"@.len() == 13);
    assert("proofs"@.len() == 6);
    assert("start_time"@.len() == 10);
    assert("end_time"@.len() == 8);
    assert("casts"@[1] != "count"@[1]);
    assert("links"@[0] != "count"@[0]);
}

/// The object that names a cast is well formed.
proof fn lemma_cast_reference_wf(fid: u64, hash: Seq<char>)
    ensures
        cast_reference(fid, hash).wf(),
{
    lemma_keys_differ();
    lemma_pair_wf("fid"@, JsonModel::number(fid), "hash"@, JsonModel::Str(hash));
}

/// The object `{fid, hash}` that names a cast.
fn cast_reference_payload(fid: u64, hash: &str) -> (r: Json)
    ensures
        r@ == cast_reference(fid, hash@),
        r@.wf(),
{
    let mut members: Vec<(String, Json)> = Vec::new();
    assert(members_model(members@) =~= Seq::empty());
    push_member(&mut members, "fid", Json::from_u64(fid));
    push_member(&mut members, "hash", Json::from_text(hash));
    assert(members_model(members@) =~= seq![
        ("fid"@, JsonModel::number(fid)),
        ("hash"@, JsonModel::Str(hash@)),
    ]);
    proof {
        lemma_cast_reference_wf(fid, hash@);
    }
    Json::object(members)
}

/// The object that echoes one parameter under `key`, has the count 0 and
/// an empty list under `list`.
fn empty_listing_payload(key: &str, echoed: Json, list: &str) -> (r: Json)
    ensures
        r@ == empty_listing(key@, echoed@, list@),
{
    let ghost echoed_model = echoed@;
    let mut members: Vec<(String, Json)> = Vec::new();
    assert(members_model(members@) =~= Seq::empty());
    push_member(&mut members, key, echoed);
    push_member(&mut members, "count", Json::from_u64(0));
    push_member(&mut members, list, Json::empty_list());
    assert(members_model(members@) =~= seq![
        (key@, echoed_model),
        ("count"@, JsonModel::number(0)),
        (list@, JsonModel::empty_list()),
    ]);
    Json::object(members)
}

/// An empty listing is well formed where its three keys differ and the
/// echoed value is well formed.
proof fn lemma_listing_wf(key: Seq<char>, echoed: JsonModel, list: Seq<char>)
    requires
        key != "count"@,
        list != "count"@,
        key != list,
        echoed.wf(),
    ensures
        empty_listing(key, echoed, list).wf(),
{
    assert(JsonModel::empty_list().wf());
    lemma_triple_wf(
        key,
        echoed,
        "count"@,
        JsonModel::number(0),
        list,
        JsonModel::empty_list(),
    );
}

/// Builds the payload that stands for "no entries" of a resource.
pub fn empty_list_payload(resource: &RestResource) -> (r: Json)
    ensures
        r@ == empty_payload(resource@),
        r@.wf(),
{
    proof {
        lemma_keys_differ();
    }
    match resource {
        RestResource::VerificationsByFid { fid } => {
            proof {
                lemma_listing_wf("fid"@, JsonModel::number(*fid), "verifications"@);
            }
            empty_listing_payload("fid", Json::from_u64(*fid), "verifications")
        },
        RestResource::AllVerificationMessagesByFid { fid, start_time, end_time } => {
            let mut members: Vec<(String, Json)> = Vec::new();
            assert(members_model(members@) =~= Seq::empty());
            push_member(&mut members, "fid", Json::from_u64(*fid));
            push_member(&mut members, "count", Json::from_u64(0));
            push_member(&mut members, "start_time", Json::from_optional_u64(*start_time));
            push_member(&mut members, "end_time", Json::from_optional_u64(*end_time));
            push_member(&mut members, "verifications", Json::empty_list());
            let ghost expected = seq![
                ("fid"@, JsonModel::number(*fid)),
                ("count"@, JsonModel::number(0)),
                ("start_time"@, JsonModel::optional_number(*start_time)),
                ("end_time"@, JsonModel::optional_number(*end_time)),
                ("verifications"@, JsonModel::empty_list()),
            ];
            assert(members_model(members@) =~= expected);
            proof {
                assert(JsonModel::empty_list().wf());
                assert(JsonModel::optional_number(*start_time).wf());
                assert(JsonModel::optional_number(*end_time).wf());
                assert(distinct_keys(expected));
                assert forall|i: int| 0 <= i < expected.len() implies (#[trigger] expected[i]).1.wf() by {}
            }
            Json::object(members)
        },
        RestResource::CastsByFid { fid } => {
            proof {
                lemma_listing_wf("fid"@, JsonModel::number(*fid), "casts"@);
            }
            empty_listing_payload("fid", Json::from_u64(*fid), "casts")
        },
        RestResource::CastsByMention { fid } => {
            proof {
                lemma_listing_wf("fid"@, JsonModel::number(*fid), "casts"@);
            }
            empty_listing_payload("fid", Json::from_u64(*fid), "casts")
        },
        RestResource::CastsByParent { fid, hash } => {
            proof {
                lemma_cast_reference_wf(*fid, hash@);
                lemma_listing_wf("parent"@, cast_reference(*fid, hash@), "replies"@);
            }
            empty_listing_payload("parent", cast_reference_payload(*fid, hash.as_str()), "replies")
        },
        RestResource::CastsByParentUrl { url } => {
            proof {
                lemma_listing_wf("parent_url"@, JsonModel::Str(url@), "replies"@);
            }
            empty_listing_payload("parent_url", Json::from_text(url.as_str()), "replies")
        },
        RestResource::ReactionsByFid { fid } => {
            proof {
                lemma_listing_wf("fid"@, JsonModel::number(*fid), "reactions"@);
            }
            empty_listing_payload("fid", Json::from_u64(*fid), "reactions")
        },
        RestResource::ReactionsByTargetCast { fid, hash } => {
            proof {
                lemma_cast_reference_wf(*fid, hash@);
                lemma_listing_wf("target_cast"@, cast_reference(*fid, hash@), "reactions"@);
            }
            empty_listing_payload(
                "target_cast",
                cast_reference_payload(*fid, hash.as_str()),
                "reactions",
            )
        },
        RestResource::ReactionsByTargetUrl { url } => {
            proof {
                lemma_listing_wf("target_url"@, JsonModel::Str(url@), "reactions"@);
            }
            empty_listing_payload("target_url", Json::from_text(url.as_str()), "reactions")
        },
        RestResource::LinksByFid { fid } => {
            proof {
                lemma_listing_wf("fid"@, JsonModel::number(*fid), "links"@);
            }
            empty_listing_payload("fid", Json::from_u64(*fid), "links")
        },
        RestResource::LinksByTarget { fid } => {
            proof {
                lemma_listing_wf("target_fid"@, JsonModel::number(*fid), "links"@);
            }
            empty_listing_payload("target_fid", Json::from_u64(*fid), "links")
        },
        RestResource::LinkCompactStateByFid { fid } => {
            proof {
                lemma_listing_wf("fid"@, JsonModel::number(*fid), "compact_links"@);
            }
            empty_listing_payload("fid", Json::from_u64(*fid), "compact_links")
        },
        RestResource::UsernameProofsByFid { fid } => {
            proof {
                lemma_listing_wf("fid"@, JsonModel::number(*fid), "proofs"@);
            }
            empty_listing_payload("fid", Json::from_u64(*fid), "proofs")
        },
        _ => {
            let members: Vec<(String, Json)> = Vec::new();
            assert(members_model(members@) =~= Seq::empty());
            proof {
                let none = Seq::<(Seq<char>, JsonModel)>::empty();
                assert(distinct_keys(none));
                assert(JsonModel::Object(none).wf());
            }
            Json::object(members)
        },
    }
}

/// Classifies the message of a document that says that nothing was found:
/// an upstream failure where the message begins with the word `error`, an
/// absent entity otherwise. The message is kept as it is.
pub fn classify_found_false_error(message: String) -> (e: ResourceReadError)
    ensures
        e@ == found_false_error(message@),
{
    let chars = chars_of(message.as_str());
    let from = leading_white_space(&chars);
    let word = chars_of("error");
    if starts_with_lowered(&chars, from, &word) {
        ResourceReadError::Internal(message)
    } else {
        ResourceReadError::NotFound(message)
    }
}

/// Classifies an answer that is a JSON document. For a lookup by username,
/// address or proof name, a document whose member `found` is `false` is an
/// error with the text under `error` as its message; any other document is
/// handed back as the payload, unchanged.
pub fn classify_document(resource: &RestResource, doc: Json) -> (r: Result<
    Json,
    ResourceReadError,
>)
    ensures
        outcome_model(r) == document_outcome(resource@, doc@),
        r matches Ok(payload) ==> payload == doc,
{
    if resource.is_by_alternate_key() {
        let found = match doc.get("found") {
            Some(flag) => flag.as_bool(),
            None => None,
        };
        let says_absent = match found {
            Some(flag) => !flag,
            None => false,
        };
        assert(says_absent == found_false(doc@));
        if says_absent {
            let text = match doc.get("error") {
                Some(value) => value.as_str(),
                None => None,
            };
            let message = match text {
                Some(m) => String::from_str(m),
                None => String::from_str("Resource not found"),
            };
            assert(message@ == failure_message(doc@));
            return Err(classify_found_false_error(message));
        }
    }
    Ok(doc)
}

/// Classifies an answer that is no JSON document, given the text and its
/// lower-case form. The rules apply in this order: a complaint about the
/// request, a reported failure, a report of absence (an error for a
/// singular resource, an empty list for any other), and as the last resort
/// an internal error. Every error carries the text as it came.
pub fn classify_text(resource: &RestResource, output: String, lowered: &str) -> (r: Result<
    Json,
    ResourceReadError,
>)
    ensures
        outcome_model(r) == text_outcome(resource@, output@, lowered@),
        r matches Ok(payload) ==> payload@.wf(),
{
    let text = chars_of(lowered);
    if starts_with(&text, &chars_of("invalid")) || contains(&text, &chars_of("missing ")) {
        return Err(ResourceReadError::InvalidParams(output));
    }
    if starts_with(&text, &chars_of("error")) {
        return Err(ResourceReadError::Internal(output));
    }
    if starts_with(&text, &chars_of("no ")) || contains(&text, &chars_of(" not found")) {
        if resource.is_singular() {
            return Err(ResourceReadError::NotFound(output));
        }
        return Ok(empty_list_payload(resource));
    }
    Err(ResourceReadError::Internal(output))
}

/// Classifies what the upstream service answered for a resource. The
/// answer is read as a JSON document; where it is none, its lower-case form
/// goes through the rules for plain text.
pub fn parse_resource_output(resource: &RestResource, output: String) -> (r: Result<
    Json,
    ResourceReadError,
>)
    ensures
        outcome_model(r) == outcome(resource@, output@),
        r matches Ok(payload) ==> payload@.wf(),
{
    match parse_document(output.as_str()) {
        Some(doc) => classify_document(resource, doc),
        None => {
            let lowered = to_lowercase(output.as_str());
            classify_text(resource, output, lowered.as_str())
        },
    }
}

/// An empty listing whose first key is not `count` has the count 0.
proof fn lemma_listing_count(key: Seq<char>, echoed: JsonModel, list: Seq<char>)
    requires
        key != "count"@,
    ensures
        empty_listing(key, echoed, list).get("count"@) == Some(JsonModel::number(0)),
{
    let members = seq![(key, echoed), ("count"@, JsonModel::number(0)), (list, JsonModel::empty_list())];
    assert(members.drop_first()[0] == ("count"@, JsonModel::number(0)));
    reveal_with_fuel(crate::json::lookup, 3);
}

/// The empty payload of every resource that is a list has the count 0.
pub proof fn lemma_empty_payload_count(resource: ResourceModel)
    requires
        !resource.singular(),
    ensures
        empty_payload(resource).get("count"@) == Some(JsonModel::number(0)),
{
    lemma_keys_differ();
    match resource {
        ResourceModel::VerificationsByFid { fid } => {
            lemma_listing_count("fid"@, JsonModel::number(fid), "verifications"@);
        },
        ResourceModel::AllVerificationMessagesByFid { fid, start_time, end_time } => {
            let members = empty_payload(resource)->Object_0;
            assert(members.drop_first()[0] == ("count"@, JsonModel::number(0)));
            reveal_with_fuel(crate::json::lookup, 3);
        },
        ResourceModel::CastsByFid { fid } => {
            lemma_listing_count("fid"@, JsonModel::number(fid), "casts"@);
        },
        ResourceModel::CastsByMention { fid } => {
            lemma_listing_count("fid"@, JsonModel::number(fid), "casts"@);
        },
        ResourceModel::CastsByParent { fid, hash } => {
            lemma_listing_count("parent"@, cast_reference(fid, hash), "replies"@);
        },
        ResourceModel::CastsByParentUrl { url } => {
            lemma_listing_count("parent_url"@, JsonModel::Str(url), "replies"@);
        },
        ResourceModel::ReactionsByFid { fid } => {
            lemma_listing_count("fid"@, JsonModel::number(fid), "reactions"@);
        },
        ResourceModel::ReactionsByTargetCast { fid, hash } => {
            lemma_listing_count("target_cast"@, cast_reference(fid, hash), "reactions"@);
        },
        ResourceModel::ReactionsByTargetUrl { url } => {
            lemma_listing_count("target_url"@, JsonModel::Str(url), "reactions"@);
        },
        ResourceModel::LinksByFid { fid } => {
            lemma_listing_count("fid"@, JsonModel::number(fid), "links"@);
        },
        ResourceModel::LinksByTarget { fid } => {
            lemma_listing_count("target_fid"@, JsonModel::number(fid), "links"@);
        },
        ResourceModel::LinkCompactStateByFid { fid } => {
            lemma_listing_count("fid"@, JsonModel::number(fid), "compact_links"@);
        },
        ResourceModel::UsernameProofsByFid { fid } => {
            lemma_listing_count("fid"@, JsonModel::number(fid), "proofs"@);
        },
        _ => {},
    }
}

/// Absence of a singular resource is an error. Where the answer for a
/// singular resource is no JSON document, makes no complaint about the
/// request, reports no failure, and says that there is nothing (its
/// lower-case form begins with `no ` or holds ` not found`), it is
/// classified as `NotFound` with the answer as its message, never as a
/// payload.
pub proof fn lemma_singular_absence_is_not_found(resource: ResourceModel, output: Seq<char>)
    requires
        resource.singular(),
        json_document(output) is None,
        !reports_invalid(unicode_lowercase(output)),
        !reports_failure(unicode_lowercase(output)),
        reports_absence(unicode_lowercase(output)),
    ensures
        outcome(resource, output) == Err::<JsonModel, ErrorModel>(
            ErrorModel { kind: ErrorKind::NotFound, message: output },
        ),
{
}

/// Absence in a list is an empty list. Where the answer for a resource
/// that is a list is no JSON document, makes no complaint about the
/// request, reports no failure, and says that there is nothing, it is
/// classified as the empty payload of that resource, whose count is 0.
pub proof fn lemma_list_absence_is_empty_payload(resource: ResourceModel, output: Seq<char>)
    requires
        !resource.singular(),
        json_document(output) is None,
        !reports_invalid(unicode_lowercase(output)),
        !reports_failure(unicode_lowercase(output)),
        reports_absence(unicode_lowercase(output)),
    ensures
        outcome(resource, output) == Ok::<JsonModel, ErrorModel>(empty_payload(resource)),
        empty_payload(resource).get("count"@) == Some(JsonModel::number(0)),
{
    lemma_empty_payload_count(resource);
}

/// A complaint about the request is `InvalidParams` for every resource.
/// Where the answer is no JSON document and its lower-case form begins
/// with `invalid` or holds `missing `, it is classified as `InvalidParams`
/// with the answer as its message, whatever the resource.
pub proof fn lemma_complaint_is_invalid_params(resource: ResourceModel, output: Seq<char>)
    requires
        json_document(output) is None,
        reports_invalid(unicode_lowercase(output)),
    ensures
        outcome(resource, output) == Err::<JsonModel, ErrorModel>(
            ErrorModel { kind: ErrorKind::InvalidParams, message: output },
        ),
{
}

/// A JSON document passes through. Where the answer is a JSON document
/// whose member `found` is not `false`, the document itself is the
/// payload, whatever the resource.
pub proof fn lemma_document_passes_through(
    resource: ResourceModel,
    output: Seq<char>,
    doc: JsonModel,
)
    requires
        json_document(output) == Some(doc),
        !found_false(doc),
    ensures
        outcome(resource, output) == Ok::<JsonModel, ErrorModel>(doc),
{
}

/// A JSON document passes through for every resource that is not looked
/// up by username, address or proof name, whatever the document holds.
pub proof fn lemma_document_passes_through_by_kind(
    resource: ResourceModel,
    output: Seq<char>,
    doc: JsonModel,
)
    requires
        json_document(output) == Some(doc),
        !resource.by_alternate_key(),
    ensures
        outcome(resource, output) == Ok::<JsonModel, ErrorModel>(doc),
{
}

/// A document that says that nothing was found is an error for a lookup
/// by username, address or proof name: an internal error where its
/// message begins with the word `error`, `NotFound` otherwise, with the
/// message of the document in either case.
pub proof fn lemma_found_false_is_an_error(
    resource: ResourceModel,
    output: Seq<char>,
    doc: JsonModel,
)
    requires
        resource.by_alternate_key(),
        json_document(output) == Some(doc),
        found_false(doc),
    ensures
        outcome(resource, output) == Err::<JsonModel, ErrorModel>(
            ErrorModel {
                kind: if leads_with_error(failure_message(doc)) {
                    ErrorKind::Internal
                } else {
                    ErrorKind::NotFound
                },
                message: failure_message(doc),
            },
        ),
{
}

/// A text that fits no rule is an internal error, never a payload.
pub proof fn lemma_unmatched_text_is_internal(resource: ResourceModel, output: Seq<char>)
    requires
        json_document(output) is None,
        !reports_invalid(unicode_lowercase(output)),
        !reports_absence(unicode_lowercase(output)),
    ensures
        outcome(resource, output) == Err::<JsonModel, ErrorModel>(
            ErrorModel { kind: ErrorKind::Internal, message: output },
        ),
{
}

} // verus!
