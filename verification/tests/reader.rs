use waypoint_rest::error::RestError;
use waypoint_rest::json::{Json, JsonNumber};
use waypoint_rest::reader::{
    normalize_limit, read_result, upstream_call, McpResourceReader, UpstreamCall,
};
use waypoint_rest::resource::{ResourceReadOptions, RestResource};

fn absent() -> ResourceReadOptions {
    ResourceReadOptions::default()
}

#[test]
fn reader_limit_falls_back_to_ten() {
    assert_eq!(normalize_limit(None), 10);
    assert_eq!(normalize_limit(Some(0)), 10);
    assert_eq!(normalize_limit(Some(1)), 1);
    assert_eq!(normalize_limit(Some(999)), 999);
}

#[test]
fn conversation_defaults_are_filled_in_by_the_reader() {
    let resource = RestResource::Conversation { fid: 4, hash: "0abc".to_string() };
    assert_eq!(
        upstream_call(&resource, absent()).unwrap(),
        UpstreamCall::Conversation {
            fid: 4,
            hash: "0abc".to_string(),
            recursive: true,
            max_depth: 5,
            limit: 10,
        }
    );
    let options = ResourceReadOptions { limit: Some(9), recursive: Some(false), max_depth: Some(7) };
    assert_eq!(
        upstream_call(&resource, options).unwrap(),
        UpstreamCall::Conversation {
            fid: 4,
            hash: "0abc".to_string(),
            recursive: false,
            max_depth: 7,
            limit: 9,
        }
    );
}

#[test]
fn links_are_of_the_type_follow() {
    assert_eq!(
        upstream_call(&RestResource::LinksByFid { fid: 10 }, ResourceReadOptions::with_limit(3))
            .unwrap(),
        UpstreamCall::LinksByFid { fid: 10, link_type: "follow".to_string(), limit: 3 }
    );
    assert_eq!(
        upstream_call(&RestResource::LinksByTarget { fid: 11 }, absent()).unwrap(),
        UpstreamCall::LinksByTarget { fid: 11, link_type: "follow".to_string(), limit: 10 }
    );
}

#[test]
fn reaction_target_hash_goes_on_as_bytes() {
    let resource = RestResource::ReactionsByTargetCast { fid: 9, hash: "0x0abc".to_string() };
    assert_eq!(
        upstream_call(&resource, ResourceReadOptions::with_limit(2)).unwrap(),
        UpstreamCall::ReactionsByTargetCast { fid: 9, hash: vec![0x0a, 0xbc], limit: 2 }
    );
    let resource = RestResource::ReactionsByTargetCast { fid: 9, hash: "zz".to_string() };
    match upstream_call(&resource, absent()) {
        Err(RestError::InvalidParams(m)) => assert_eq!(m, "Invalid hash format: zz"),
        other => panic!("expected InvalidParams, got {:?}", other),
    }
}

#[test]
fn every_other_resource_has_its_lookup() {
    let options = ResourceReadOptions::with_limit(4);
    let cases = vec![
        (RestResource::UserByFid { fid: 1 }, UpstreamCall::UserByFid { fid: 1 }),
        (
            RestResource::UserByUsername { username: "alice".to_string() },
            UpstreamCall::UserByUsername { username: "alice".to_string() },
        ),
        (
            RestResource::VerificationsByFid { fid: 2 },
            UpstreamCall::VerificationsByFid { fid: 2, limit: 4 },
        ),
        (
            RestResource::VerificationByAddress { fid: 2, address: "0xabc".to_string() },
            UpstreamCall::Verification { fid: 2, address: "0xabc".to_string() },
        ),
        (
            RestResource::AllVerificationMessagesByFid {
                fid: 2,
                start_time: Some(10),
                end_time: None,
            },
            UpstreamCall::AllVerificationMessagesByFid {
                fid: 2,
                limit: 4,
                start_time: Some(10),
                end_time: None,
            },
        ),
        (
            RestResource::Cast { fid: 3, hash: "0abc".to_string() },
            UpstreamCall::Cast { fid: 3, hash: "0abc".to_string() },
        ),
        (RestResource::CastsByFid { fid: 5 }, UpstreamCall::CastsByFid { fid: 5, limit: 4 }),
        (RestResource::CastsByMention { fid: 6 }, UpstreamCall::CastsByMention { fid: 6, limit: 4 }),
        (
            RestResource::CastsByParent { fid: 7, hash: "0abc".to_string() },
            UpstreamCall::CastsByParent { fid: 7, hash: "0abc".to_string(), limit: 4 },
        ),
        (
            RestResource::CastsByParentUrl { url: "https://example.com".to_string() },
            UpstreamCall::CastsByParentUrl { url: "https://example.com".to_string(), limit: 4 },
        ),
        (RestResource::ReactionsByFid { fid: 8 }, UpstreamCall::ReactionsByFid { fid: 8, limit: 4 }),
        (
            RestResource::ReactionsByTargetUrl { url: "https://example.com".to_string() },
            UpstreamCall::ReactionsByTargetUrl { url: "https://example.com".to_string(), limit: 4 },
        ),
        (
            RestResource::LinkCompactStateByFid { fid: 12 },
            UpstreamCall::LinkCompactStateByFid { fid: 12 },
        ),
        (
            RestResource::UsernameProofByName { name: "alice".to_string() },
            UpstreamCall::UsernameProof { name: "alice".to_string() },
        ),
        (
            RestResource::UsernameProofsByFid { fid: 12 },
            UpstreamCall::UsernameProofsByFid { fid: 12 },
        ),
    ];
    for (resource, expected) in cases {
        assert_eq!(upstream_call(&resource, options).unwrap(), expected);
    }
}

#[test]
fn read_result_keeps_kind_and_message() {
    let resource = RestResource::UserByFid { fid: 1 };
    match read_result(&resource, "No user data found for FID 1".to_string()) {
        Err(RestError::NotFound(m)) => assert_eq!(m, "No user data found for FID 1"),
        other => panic!("expected NotFound, got {:?}", other),
    }
    match read_result(&resource, "Invalid fid".to_string()) {
        Err(e) => assert_eq!(e.status_code(), 400),
        other => panic!("expected an error, got {:?}", other),
    }
    match read_result(&resource, "boom".to_string()) {
        Err(e) => assert_eq!(e.status_code(), 500),
        other => panic!("expected an error, got {:?}", other),
    }
    assert_eq!(
        read_result(&resource, "{\"fid\": 1}".to_string()).unwrap(),
        Json::Object(vec![("fid".to_string(), Json::Number(JsonNumber::PosInt(1)))])
    );
}

#[test]
fn reader_holds_its_service() {
    let reader = McpResourceReader::new(17u32);
    assert_eq!(*reader.service(), 17);
}
