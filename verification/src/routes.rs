//! The binding of each route to a resource query: from the path and query
//! parameters of a request to the resource and the options of the read, or
//! to the refusal of the first parameter that is not valid.
use vstd::prelude::*;
use crate::error::{ErrorModel, RestError};
use crate::params::{
    address_message, bytes_of, fid_refusal, hash_message, identifier_of, limit_in_force,
    normalize_limit, parse_fid, range_in_order, refusal, required_url, validate_address,
    validate_hash, validate_max_depth, validate_time_range,
};
use crate::resource::{ResourceModel, ResourceReadOptions, RestResource};
use crate::text::is_blank;

verus! {

/// What a route asks the reader for.
#[derive(Debug, Clone, PartialEq, Eq)]
pub struct ReadRequest {
    pub resource: RestResource,
    pub options: ResourceReadOptions,
}

/// The refusal of an identifier, if it is refused.
pub open spec fn fid_check(fid: Seq<char>) -> Option<ErrorModel> {
    if identifier_of(fid) is None {
        Some(fid_refusal(fid))
    } else {
        None
    }
}

/// The refusal of a hash, if it is refused.
pub open spec fn hash_check(hash: Seq<char>) -> Option<ErrorModel> {
    if bytes_of(hash) is Some {
        None
    } else {
        Some(refusal(hash_message(hash)))
    }
}

/// The refusal of an address, if it is refused.
pub open spec fn address_check(address: Seq<char>) -> Option<ErrorModel> {
    if bytes_of(address) is Some {
        None
    } else {
        Some(refusal(address_message(address)))
    }
}

/// The refusal of a limit, if it is refused: only a limit of 0 is.
pub open spec fn limit_check(limit: Option<usize>) -> Option<ErrorModel> {
    if limit == Some(0usize) {
        Some(refusal("limit must be greater than 0"@))
    } else {
        None
    }
}

/// The refusal of a URL, if it is refused: an absent or blank one is.
pub open spec fn url_check(url: Option<String>) -> Option<ErrorModel> {
    match url {
        Some(value) => if is_blank(value@) {
            Some(refusal("Missing required query parameter: url"@))
        } else {
            None
        },
        None => Some(refusal("Missing required query parameter: url"@)),
    }
}

/// The refusal of a time range, if it is refused.
pub open spec fn range_check(start_time: Option<u64>, end_time: Option<u64>) -> Option<
    ErrorModel,
> {
    if range_in_order(start_time, end_time) {
        None
    } else {
        Some(refusal("start_time must be less than or equal to end_time"@))
    }
}

/// The refusal of a depth, if it is refused: only a depth of 0 is.
pub open spec fn depth_check(max_depth: Option<usize>) -> Option<ErrorModel> {
    if max_depth == Some(0usize) {
        Some(refusal("max_depth must be greater than 0"@))
    } else {
        None
    }
}

/// The first of two refusals: the checks of a route run in order, and the
/// first that fails decides.
pub open spec fn first_of(first: Option<ErrorModel>, second: Option<ErrorModel>) -> Option<
    ErrorModel,
> {
    match first {
        Some(e) => Some(e),
        None => second,
    }
}

/// `r` is the answer of a route whose checks give `refused` and which asks
/// for `resource` with `options` where nothing is refused. The options of
/// a request are well formed.
pub open spec fn bound(
    r: Result<ReadRequest, RestError>,
    refused: Option<ErrorModel>,
    resource: ResourceModel,
    options: ResourceReadOptions,
) -> bool {
    match r {
        Ok(request) => {
            &&& refused is None
            &&& request.resource@ == resource
            &&& request.options == options
            &&& request.options.wf()
        },
        Err(e) => refused == Some(e@),
    }
}

/// The options of a route that takes a limit and nothing else.
pub open spec fn limited_options(limit: Option<usize>, max_limit: usize) -> ResourceReadOptions {
    ResourceReadOptions { limit: limit_in_force(limit, max_limit), recursive: None, max_depth: None }
}

/// The identifier that a text denotes, or 0 where it denotes none.
pub open spec fn fid_of(fid: Seq<char>) -> u64 {
    match identifier_of(fid) {
        Some(value) => value,
        None => 0,
    }
}

/// `/users/{fid}`: the user with an identifier.
pub fn get_user_by_fid(fid: &str) -> (r: Result<ReadRequest, RestError>)
    ensures
        bound(
            r,
            fid_check(fid@),
            ResourceModel::UserByFid { fid: fid_of(fid@) },
            ResourceReadOptions::absent(),
        ),
{
    let fid = match parse_fid(fid) {
        Ok(value) => value,
        Err(e) => { return Err(e); },
    };
    Ok(ReadRequest { resource: RestResource::UserByFid { fid }, options: Default::default() })
}

/// `/users/by-username/{username}`: the user with a username. Nothing is
/// checked.
pub fn get_user_by_username(username: String) -> (r: Result<ReadRequest, RestError>)
    ensures
        bound(
            r,
            None,
            ResourceModel::UserByUsername { username: username@ },
            ResourceReadOptions::absent(),
        ),
{
    Ok(
        ReadRequest {
            resource: RestResource::UserByUsername { username },
            options: Default::default(),
        },
    )
}

/// `/verifications/{fid}`: the verifications of a user.
pub fn get_verifications_by_fid(fid: &str, limit: Option<usize>, max_limit: usize) -> (r: Result<
    ReadRequest,
    RestError,
>)
    ensures
        bound(
            r,
            first_of(fid_check(fid@), limit_check(limit)),
            ResourceModel::VerificationsByFid { fid: fid_of(fid@) },
            limited_options(limit, max_limit),
        ),
{
    let fid = match parse_fid(fid) {
        Ok(value) => value,
        Err(e) => { return Err(e); },
    };
    let limit = match normalize_limit(limit, max_limit) {
        Ok(value) => value,
        Err(e) => { return Err(e); },
    };
    Ok(
        ReadRequest {
            resource: RestResource::VerificationsByFid { fid },
            options: ResourceReadOptions::with_limit(limit),
        },
    )
}

/// `/verifications/{fid}/{address}`: one verification of a user.
pub fn get_verification_by_address(fid: &str, address: String) -> (r: Result<
    ReadRequest,
    RestError,
>)
    ensures
        bound(
            r,
            first_of(fid_check(fid@), address_check(address@)),
            ResourceModel::VerificationByAddress { fid: fid_of(fid@), address: address@ },
            ResourceReadOptions::absent(),
        ),
{
    let fid = match parse_fid(fid) {
        Ok(value) => value,
        Err(e) => { return Err(e); },
    };
    match validate_address(address.as_str()) {
        Ok(_) => {},
        Err(e) => { return Err(e); },
    }
    Ok(
        ReadRequest {
            resource: RestResource::VerificationByAddress { fid, address },
            options: Default::default(),
        },
    )
}

/// `/verifications/all-by-fid/{fid}`: the verification messages of a
/// user, within a time range where one is given.
pub fn get_all_verification_messages_by_fid(
    fid: &str,
    limit: Option<usize>,
    start_time: Option<u64>,
    end_time: Option<u64>,
    max_limit: usize,
) -> (r: Result<ReadRequest, RestError>)
    ensures
        bound(
            r,
            first_of(
                fid_check(fid@),
                first_of(limit_check(limit), range_check(start_time, end_time)),
            ),
            ResourceModel::AllVerificationMessagesByFid { fid: fid_of(fid@), start_time, end_time },
            limited_options(limit, max_limit),
        ),
{
    let fid = match parse_fid(fid) {
        Ok(value) => value,
        Err(e) => { return Err(e); },
    };
    let limit = match normalize_limit(limit, max_limit) {
        Ok(value) => value,
        Err(e) => { return Err(e); },
    };
    match validate_time_range(start_time, end_time) {
        Ok(_) => {},
        Err(e) => { return Err(e); },
    }
    Ok(
        ReadRequest {
            resource: RestResource::AllVerificationMessagesByFid { fid, start_time, end_time },
            options: ResourceReadOptions::with_limit(limit),
        },
    )
}

/// `/casts/{fid}/{hash}`: one cast.
pub fn get_cast(fid: &str, hash: String) -> (r: Result<ReadRequest, RestError>)
    ensures
        bound(
            r,
            first_of(fid_check(fid@), hash_check(hash@)),
            ResourceModel::Cast { fid: fid_of(fid@), hash: hash@ },
            ResourceReadOptions::absent(),
        ),
{
    let fid = match parse_fid(fid) {
        Ok(value) => value,
        Err(e) => { return Err(e); },
    };
    match validate_hash(hash.as_str()) {
        Ok(_) => {},
        Err(e) => { return Err(e); },
    }
    Ok(ReadRequest { resource: RestResource::Cast { fid, hash }, options: Default::default() })
}

/// `/casts/by-fid/{fid}`: the casts of a user.
pub fn get_casts_by_fid(fid: &str, limit: Option<usize>, max_limit: usize) -> (r: Result<
    ReadRequest,
    RestError,
>)
    ensures
        bound(
            r,
            first_of(fid_check(fid@), limit_check(limit)),
            ResourceModel::CastsByFid { fid: fid_of(fid@) },
            limited_options(limit, max_limit),
        ),
{
    let fid = match parse_fid(fid) {
        Ok(value) => value,
        Err(e) => { return Err(e); },
    };
    let limit = match normalize_limit(limit, max_limit) {
        Ok(value) => value,
        Err(e) => { return Err(e); },
    };
    Ok(
        ReadRequest {
            resource: RestResource::CastsByFid { fid },
            options: ResourceReadOptions::with_limit(limit),
        },
    )
}

/// `/casts/by-mention/{fid}`: the casts that mention a user.
pub fn get_casts_by_mention(fid: &str, limit: Option<usize>, max_limit: usize) -> (r: Result<
    ReadRequest,
    RestError,
>)
    ensures
        bound(
            r,
            first_of(fid_check(fid@), limit_check(limit)),
            ResourceModel::CastsByMention { fid: fid_of(fid@) },
            limited_options(limit, max_limit),
        ),
{
    let fid = match parse_fid(fid) {
        Ok(value) => value,
        Err(e) => { return Err(e); },
    };
    let limit = match normalize_limit(limit, max_limit) {
        Ok(value) => value,
        Err(e) => { return Err(e); },
    };
    Ok(
        ReadRequest {
            resource: RestResource::CastsByMention { fid },
            options: ResourceReadOptions::with_limit(limit),
        },
    )
}

/// `/casts/by-parent/{fid}/{hash}`: the replies to a cast.
pub fn get_casts_by_parent(fid: &str, hash: String, limit: Option<usize>, max_limit: usize) -> (r:
    Result<ReadRequest, RestError>)
    ensures
        bound(
            r,
            first_of(fid_check(fid@), first_of(hash_check(hash@), limit_check(limit))),
            ResourceModel::CastsByParent { fid: fid_of(fid@), hash: hash@ },
            limited_options(limit, max_limit),
        ),
{
    let fid = match parse_fid(fid) {
        Ok(value) => value,
        Err(e) => { return Err(e); },
    };
    match validate_hash(hash.as_str()) {
        Ok(_) => {},
        Err(e) => { return Err(e); },
    }
    let limit = match normalize_limit(limit, max_limit) {
        Ok(value) => value,
        Err(e) => { return Err(e); },
    };
    Ok(
        ReadRequest {
            resource: RestResource::CastsByParent { fid, hash },
            options: ResourceReadOptions::with_limit(limit),
        },
    )
}

/// `/casts/by-parent-url`: the replies to a URL.
pub fn get_casts_by_parent_url(url: Option<String>, limit: Option<usize>, max_limit: usize) -> (r:
    Result<ReadRequest, RestError>)
    ensures
        bound(
            r,
            first_of(url_check(url), limit_check(limit)),
            ResourceModel::CastsByParentUrl { url: url.unwrap()@ },
            limited_options(limit, max_limit),
        ),
{
    let url = match required_url(url) {
        Ok(value) => value,
        Err(e) => { return Err(e); },
    };
    let limit = match normalize_limit(limit, max_limit) {
        Ok(value) => value,
        Err(e) => { return Err(e); },
    };
    Ok(
        ReadRequest {
            resource: RestResource::CastsByParentUrl { url },
            options: ResourceReadOptions::with_limit(limit),
        },
    )
}

/// `/conversations/{fid}/{hash}`: the thread under a cast. The flag and
/// the depth go to the reader as they came: an absent one stays absent.
pub fn get_conversation(
    fid: &str,
    hash: String,
    recursive: Option<bool>,
    max_depth: Option<usize>,
    limit: Option<usize>,
    max_limit: usize,
) -> (r: Result<ReadRequest, RestError>)
    ensures
        bound(
            r,
            first_of(
                fid_check(fid@),
                first_of(hash_check(hash@), first_of(limit_check(limit), depth_check(max_depth))),
            ),
            ResourceModel::Conversation { fid: fid_of(fid@), hash: hash@ },
            ResourceReadOptions { limit: limit_in_force(limit, max_limit), recursive, max_depth },
        ),
{
    let fid = match parse_fid(fid) {
        Ok(value) => value,
        Err(e) => { return Err(e); },
    };
    match validate_hash(hash.as_str()) {
        Ok(_) => {},
        Err(e) => { return Err(e); },
    }
    let limit = match normalize_limit(limit, max_limit) {
        Ok(value) => value,
        Err(e) => { return Err(e); },
    };
    match validate_max_depth(max_depth) {
        Ok(_) => {},
        Err(e) => { return Err(e); },
    }
    Ok(
        ReadRequest {
            resource: RestResource::Conversation { fid, hash },
            options: ResourceReadOptions { limit: Some(limit), recursive, max_depth },
        },
    )
}

/// `/reactions/by-fid/{fid}`: the reactions of a user.
pub fn get_reactions_by_fid(fid: &str, limit: Option<usize>, max_limit: usize) -> (r: Result<
    ReadRequest,
    RestError,
>)
    ensures
        bound(
            r,
            first_of(fid_check(fid@), limit_check(limit)),
            ResourceModel::ReactionsByFid { fid: fid_of(fid@) },
            limited_options(limit, max_limit),
        ),
{
    let fid = match parse_fid(fid) {
        Ok(value) => value,
        Err(e) => { return Err(e); },
    };
    let limit = match normalize_limit(limit, max_limit) {
        Ok(value) => value,
        Err(e) => { return Err(e); },
    };
    Ok(
        ReadRequest {
            resource: RestResource::ReactionsByFid { fid },
            options: ResourceReadOptions::with_limit(limit),
        },
    )
}

/// `/reactions/by-target-cast/{fid}/{hash}`: the reactions to a cast.
pub fn get_reactions_by_target_cast(
    fid: &str,
    hash: String,
    limit: Option<usize>,
    max_limit: usize,
) -> (r: Result<ReadRequest, RestError>)
    ensures
        bound(
            r,
            first_of(fid_check(fid@), first_of(hash_check(hash@), limit_check(limit))),
            ResourceModel::ReactionsByTargetCast { fid: fid_of(fid@), hash: hash@ },
            limited_options(limit, max_limit),
        ),
{
    let fid = match parse_fid(fid) {
        Ok(value) => value,
        Err(e) => { return Err(e); },
    };
    match validate_hash(hash.as_str()) {
        Ok(_) => {},
        Err(e) => { return Err(e); },
    }
    let limit = match normalize_limit(limit, max_limit) {
        Ok(value) => value,
        Err(e) => { return Err(e); },
    };
    Ok(
        ReadRequest {
            resource: RestResource::ReactionsByTargetCast { fid, hash },
            options: ResourceReadOptions::with_limit(limit),
        },
    )
}

/// `/reactions/by-target-url`: the reactions to a URL.
pub fn get_reactions_by_target_url(url: Option<String>, limit: Option<usize>, max_limit: usize)
    -> (r: Result<ReadRequest, RestError>)
    ensures
        bound(
            r,
            first_of(url_check(url), limit_check(limit)),
            ResourceModel::ReactionsByTargetUrl { url: url.unwrap()@ },
            limited_options(limit, max_limit),
        ),
{
    let url = match required_url(url) {
        Ok(value) => value,
        Err(e) => { return Err(e); },
    };
    let limit = match normalize_limit(limit, max_limit) {
        Ok(value) => value,
        Err(e) => { return Err(e); },
    };
    Ok(
        ReadRequest {
            resource: RestResource::ReactionsByTargetUrl { url },
            options: ResourceReadOptions::with_limit(limit),
        },
    )
}

/// `/links/by-fid/{fid}`: the links that start at a user.
pub fn get_links_by_fid(fid: &str, limit: Option<usize>, max_limit: usize) -> (r: Result<
    ReadRequest,
    RestError,
>)
    ensures
        bound(
            r,
            first_of(fid_check(fid@), limit_check(limit)),
            ResourceModel::LinksByFid { fid: fid_of(fid@) },
            limited_options(limit, max_limit),
        ),
{
    let fid = match parse_fid(fid) {
        Ok(value) => value,
        Err(e) => { return Err(e); },
    };
    let limit = match normalize_limit(limit, max_limit) {
        Ok(value) => value,
        Err(e) => { return Err(e); },
    };
    Ok(
        ReadRequest {
            resource: RestResource::LinksByFid { fid },
            options: ResourceReadOptions::with_limit(limit),
        },
    )
}

/// `/links/by-target/{fid}`: the links that end at a user.
pub fn get_links_by_target(fid: &str, limit: Option<usize>, max_limit: usize) -> (r: Result<
    ReadRequest,
    RestError,
>)
    ensures
        bound(
            r,
            first_of(fid_check(fid@), limit_check(limit)),
            ResourceModel::LinksByTarget { fid: fid_of(fid@) },
            limited_options(limit, max_limit),
        ),
{
    let fid = match parse_fid(fid) {
        Ok(value) => value,
        Err(e) => { return Err(e); },
    };
    let limit = match normalize_limit(limit, max_limit) {
        Ok(value) => value,
        Err(e) => { return Err(e); },
    };
    Ok(
        ReadRequest {
            resource: RestResource::LinksByTarget { fid },
            options: ResourceReadOptions::with_limit(limit),
        },
    )
}

/// `/links/compact-state/{fid}`: the compact link state of a user.
pub fn get_link_compact_state(fid: &str) -> (r: Result<ReadRequest, RestError>)
    ensures
        bound(
            r,
            fid_check(fid@),
            ResourceModel::LinkCompactStateByFid { fid: fid_of(fid@) },
            ResourceReadOptions::absent(),
        ),
{
    let fid = match parse_fid(fid) {
        Ok(value) => value,
        Err(e) => { return Err(e); },
    };
    Ok(
        ReadRequest {
            resource: RestResource::LinkCompactStateByFid { fid },
            options: Default::default(),
        },
    )
}

/// `/username-proofs/by-name/{name}`: the proof of a username. Nothing is
/// checked.
pub fn get_username_proof_by_name(name: String) -> (r: Result<ReadRequest, RestError>)
    ensures
        bound(
            r,
            None,
            ResourceModel::UsernameProofByName { name: name@ },
            ResourceReadOptions::absent(),
        ),
{
    Ok(
        ReadRequest {
            resource: RestResource::UsernameProofByName { name },
            options: Default::default(),
        },
    )
}

/// `/username-proofs/{fid}`: the username proofs of a user.
pub fn get_username_proofs_by_fid(fid: &str) -> (r: Result<ReadRequest, RestError>)
    ensures
        bound(
            r,
            fid_check(fid@),
            ResourceModel::UsernameProofsByFid { fid: fid_of(fid@) },
            ResourceReadOptions::absent(),
        ),
{
    let fid = match parse_fid(fid) {
        Ok(value) => value,
        Err(e) => { return Err(e); },
    };
    Ok(
        ReadRequest {
            resource: RestResource::UsernameProofsByFid { fid },
            options: Default::default(),
        },
    )
}

} // verus!
