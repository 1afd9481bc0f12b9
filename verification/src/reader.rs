//! The production reader: which upstream lookup stands for a resource, with
//! which arguments, and what becomes of its answer.
use vstd::prelude::*;
use vstd::string::StringExecFns;
use crate::classify::{outcome, parse_resource_output};
use crate::error::{ErrorModel, ResourceReadError, RestError};
use crate::json::{Json, JsonModel};
use crate::params::{bytes_of, hash_message, parse_hash_bytes, refusal, DEFAULT_LIMIT};
use crate::resource::{ResourceModel, ResourceReadOptions, RestResource};

verus! {

/// The relationship type that link lookups ask for.
pub const DEFAULT_LINK_TYPE: &'static str = "follow";

/// The depth of a conversation lookup that names none.
pub const DEFAULT_MAX_DEPTH: usize = 5;

/// One lookup of the upstream service with its arguments.
#[derive(Debug, Clone, PartialEq, Eq)]
pub enum UpstreamCall {
    UserByFid { fid: u64 },
    UserByUsername { username: String },
    VerificationsByFid { fid: u64, limit: usize },
    Verification { fid: u64, address: String },
    AllVerificationMessagesByFid {
        fid: u64,
        limit: usize,
        start_time: Option<u64>,
        end_time: Option<u64>,
    },
    Cast { fid: u64, hash: String },
    Conversation { fid: u64, hash: String, recursive: bool, max_depth: usize, limit: usize },
    CastsByFid { fid: u64, limit: usize },
    CastsByMention { fid: u64, limit: usize },
    CastsByParent { fid: u64, hash: String, limit: usize },
    CastsByParentUrl { url: String, limit: usize },
    ReactionsByFid { fid: u64, limit: usize },
    ReactionsByTargetCast { fid: u64, hash: Vec<u8>, limit: usize },
    ReactionsByTargetUrl { url: String, limit: usize },
    LinksByFid { fid: u64, link_type: String, limit: usize },
    LinksByTarget { fid: u64, link_type: String, limit: usize },
    LinkCompactStateByFid { fid: u64 },
    UsernameProof { name: String },
    UsernameProofsByFid { fid: u64 },
}

/// The limit that the reader hands on: the one in the options, or 10 where
/// there is none or it is 0.
pub open spec fn limit_or_default(limit: Option<usize>) -> usize {
    match limit {
        Some(value) => if value == 0 {
            DEFAULT_LIMIT
        } else {
            value
        },
        None => DEFAULT_LIMIT,
    }
}

/// The model of an [`UpstreamCall`]: the same lookup with its texts and
/// bytes as sequences.
pub enum CallModel {
    UserByFid { fid: u64 },
    UserByUsername { username: Seq<char> },
    VerificationsByFid { fid: u64, limit: usize },
    Verification { fid: u64, address: Seq<char> },
    AllVerificationMessagesByFid { fid: u64, limit: usize, start_time: Option<u64>, end_time: Option<u64> },
    Cast { fid: u64, hash: Seq<char> },
    Conversation { fid: u64, hash: Seq<char>, recursive: bool, max_depth: usize, limit: usize },
    CastsByFid { fid: u64, limit: usize },
    CastsByMention { fid: u64, limit: usize },
    CastsByParent { fid: u64, hash: Seq<char>, limit: usize },
    CastsByParentUrl { url: Seq<char>, limit: usize },
    ReactionsByFid { fid: u64, limit: usize },
    ReactionsByTargetCast { fid: u64, hash: Seq<u8>, limit: usize },
    ReactionsByTargetUrl { url: Seq<char>, limit: usize },
    LinksByFid { fid: u64, link_type: Seq<char>, limit: usize },
    LinksByTarget { fid: u64, link_type: Seq<char>, limit: usize },
    LinkCompactStateByFid { fid: u64 },
    UsernameProof { name: Seq<char> },
    UsernameProofsByFid { fid: u64 },
}

impl View for UpstreamCall {
    type V = CallModel;

    open spec fn view(&self) -> CallModel {
        match *self {
            UpstreamCall::UserByFid { fid } => CallModel::UserByFid { fid },
            UpstreamCall::UserByUsername { username } => CallModel::UserByUsername { username: username@ },
            UpstreamCall::VerificationsByFid { fid, limit } => CallModel::VerificationsByFid { fid, limit },
            UpstreamCall::Verification { fid, address } => CallModel::Verification { fid, address: address@ },
            UpstreamCall::AllVerificationMessagesByFid { fid, limit, start_time, end_time } => CallModel::AllVerificationMessagesByFid { fid, limit, start_time, end_time },
            UpstreamCall::Cast { fid, hash } => CallModel::Cast { fid, hash: hash@ },
            UpstreamCall::Conversation { fid, hash, recursive, max_depth, limit } => CallModel::Conversation { fid, hash: hash@, recursive, max_depth, limit },
            UpstreamCall::CastsByFid { fid, limit } => CallModel::CastsByFid { fid, limit },
            UpstreamCall::CastsByMention { fid, limit } => CallModel::CastsByMention { fid, limit },
            UpstreamCall::CastsByParent { fid, hash, limit } => CallModel::CastsByParent { fid, hash: hash@, limit },
            UpstreamCall::CastsByParentUrl { url, limit } => CallModel::CastsByParentUrl { url: url@, limit },
            UpstreamCall::ReactionsByFid { fid, limit } => CallModel::ReactionsByFid { fid, limit },
            UpstreamCall::ReactionsByTargetCast { fid, hash, limit } => CallModel::ReactionsByTargetCast { fid, hash: hash@, limit },
            UpstreamCall::ReactionsByTargetUrl { url, limit } => CallModel::ReactionsByTargetUrl { url: url@, limit },
            UpstreamCall::LinksByFid { fid, link_type, limit } => CallModel::LinksByFid { fid, link_type: link_type@, limit },
            UpstreamCall::LinksByTarget { fid, link_type, limit } => CallModel::LinksByTarget { fid, link_type: link_type@, limit },
            UpstreamCall::LinkCompactStateByFid { fid } => CallModel::LinkCompactStateByFid { fid },
            UpstreamCall::UsernameProof { name } => CallModel::UsernameProof { name: name@ },
            UpstreamCall::UsernameProofsByFid { fid } => CallModel::UsernameProofsByFid { fid },
        }
    }
}

/// The upstream lookup that stands for a resource under the options of a
/// read: the lookup of the same kind with the parameters of the resource,
/// the limit of [`limit_or_default`] where the lookup takes one, and the
/// defaults of the resource in place of absent options (a conversation is
/// read recursively to the depth 5, links are of the type `follow`). The
/// hash of a reaction target is handed on as bytes; where it is no
/// hexadecimal string, the read is refused.
pub open spec fn lookup_for(resource: ResourceModel, options: ResourceReadOptions) -> Result<
    CallModel,
    ErrorModel,
> {
    let limit = limit_or_default(options.limit);
    match resource {
        ResourceModel::UserByFid { fid } => Ok(CallModel::UserByFid { fid }),
        ResourceModel::UserByUsername { username } => Ok(CallModel::UserByUsername { username }),
        ResourceModel::VerificationsByFid { fid } => Ok(
            CallModel::VerificationsByFid { fid, limit },
        ),
        ResourceModel::VerificationByAddress { fid, address } => Ok(
            CallModel::Verification { fid, address },
        ),
        ResourceModel::AllVerificationMessagesByFid { fid, start_time, end_time } => Ok(
            CallModel::AllVerificationMessagesByFid { fid, limit, start_time, end_time },
        ),
        ResourceModel::Cast { fid, hash } => Ok(CallModel::Cast { fid, hash }),
        ResourceModel::Conversation { fid, hash } => Ok(
            CallModel::Conversation {
                fid,
                hash,
                recursive: match options.recursive {
                    Some(flag) => flag,
                    None => true,
                },
                max_depth: match options.max_depth {
                    Some(depth) => depth,
                    None => DEFAULT_MAX_DEPTH,
                },
                limit,
            },
        ),
        ResourceModel::CastsByFid { fid } => Ok(CallModel::CastsByFid { fid, limit }),
        ResourceModel::CastsByMention { fid } => Ok(CallModel::CastsByMention { fid, limit }),
        ResourceModel::CastsByParent { fid, hash } => Ok(
            CallModel::CastsByParent { fid, hash, limit },
        ),
        ResourceModel::CastsByParentUrl { url } => Ok(CallModel::CastsByParentUrl { url, limit }),
        ResourceModel::ReactionsByFid { fid } => Ok(CallModel::ReactionsByFid { fid, limit }),
        ResourceModel::ReactionsByTargetCast { fid, hash } => match bytes_of(hash) {
            Some(bytes) => Ok(CallModel::ReactionsByTargetCast { fid, hash: bytes, limit }),
            None => Err(refusal(hash_message(hash))),
        },
        ResourceModel::ReactionsByTargetUrl { url } => Ok(
            CallModel::ReactionsByTargetUrl { url, limit },
        ),
        ResourceModel::LinksByFid { fid } => Ok(
            CallModel::LinksByFid { fid, link_type: "follow"@, limit },
        ),
        ResourceModel::LinksByTarget { fid } => Ok(
            CallModel::LinksByTarget { fid, link_type: "follow"@, limit },
        ),
        ResourceModel::LinkCompactStateByFid { fid } => Ok(
            CallModel::LinkCompactStateByFid { fid },
        ),
        ResourceModel::UsernameProofByName { name } => Ok(CallModel::UsernameProof { name }),
        ResourceModel::UsernameProofsByFid { fid } => Ok(CallModel::UsernameProofsByFid { fid }),
    }
}

/// The model of what [`upstream_call`] gives.
pub open spec fn call_model(r: Result<UpstreamCall, RestError>) -> Result<CallModel, ErrorModel> {
    match r {
        Ok(call) => Ok(call@),
        Err(e) => Err(e@),
    }
}

/// The limit that the reader hands on: the one asked for, or 10 where none
/// is asked for or 0 is.
pub fn normalize_limit(limit: Option<usize>) -> (n: usize)
    ensures
        n == limit_or_default(limit),
        n >= 1,
{
    match limit {
        Some(value) => {
            if value == 0 {
                DEFAULT_LIMIT
            } else {
                value
            }
        },
        None => DEFAULT_LIMIT,
    }
}

/// Chooses the upstream lookup for a resource and fills in the defaults
/// of the resource for the options that are absent. The one resource that
/// can be refused here is a reaction target whose hash is no hexadecimal
/// string.
pub fn upstream_call(resource: &RestResource, options: ResourceReadOptions) -> (r: Result<
    UpstreamCall,
    RestError,
>)
    ensures
        call_model(r) == lookup_for(resource@, options),
{
    let limit = normalize_limit(options.limit);
    match resource {
        RestResource::UserByFid { fid } => Ok(UpstreamCall::UserByFid { fid: *fid }),
        RestResource::UserByUsername { username } => Ok(
            UpstreamCall::UserByUsername { username: username.clone() },
        ),
        RestResource::VerificationsByFid { fid } => Ok(
            UpstreamCall::VerificationsByFid { fid: *fid, limit },
        ),
        RestResource::VerificationByAddress { fid, address } => Ok(
            UpstreamCall::Verification { fid: *fid, address: address.clone() },
        ),
        RestResource::AllVerificationMessagesByFid { fid, start_time, end_time } => Ok(
            UpstreamCall::AllVerificationMessagesByFid {
                fid: *fid,
                limit,
                start_time: *start_time,
                end_time: *end_time,
            },
        ),
        RestResource::Cast { fid, hash } => Ok(UpstreamCall::Cast { fid: *fid, hash: hash.clone() }),
        RestResource::Conversation { fid, hash } => {
            let recursive = match options.recursive {
                Some(flag) => flag,
                None => true,
            };
            let max_depth = match options.max_depth {
                Some(depth) => depth,
                None => DEFAULT_MAX_DEPTH,
            };
            Ok(
                UpstreamCall::Conversation {
                    fid: *fid,
                    hash: hash.clone(),
                    recursive,
                    max_depth,
                    limit,
                },
            )
        },
        RestResource::CastsByFid { fid } => Ok(UpstreamCall::CastsByFid { fid: *fid, limit }),
        RestResource::CastsByMention { fid } => Ok(
            UpstreamCall::CastsByMention { fid: *fid, limit },
        ),
        RestResource::CastsByParent { fid, hash } => Ok(
            UpstreamCall::CastsByParent { fid: *fid, hash: hash.clone(), limit },
        ),
        RestResource::CastsByParentUrl { url } => Ok(
            UpstreamCall::CastsByParentUrl { url: url.clone(), limit },
        ),
        RestResource::ReactionsByFid { fid } => Ok(
            UpstreamCall::ReactionsByFid { fid: *fid, limit },
        ),
        RestResource::ReactionsByTargetCast { fid, hash } => {
            match parse_hash_bytes(hash.as_str()) {
                Ok(bytes) => Ok(UpstreamCall::ReactionsByTargetCast { fid: *fid, hash: bytes, limit }),
                Err(message) => Err(RestError::from(ResourceReadError::InvalidParams(message))),
            }
        },
        RestResource::ReactionsByTargetUrl { url } => Ok(
            UpstreamCall::ReactionsByTargetUrl { url: url.clone(), limit },
        ),
        RestResource::LinksByFid { fid } => Ok(
            UpstreamCall::LinksByFid {
                fid: *fid,
                link_type: String::from_str(DEFAULT_LINK_TYPE),
                limit,
            },
        ),
        RestResource::LinksByTarget { fid } => Ok(
            UpstreamCall::LinksByTarget {
                fid: *fid,
                link_type: String::from_str(DEFAULT_LINK_TYPE),
                limit,
            },
        ),
        RestResource::LinkCompactStateByFid { fid } => Ok(
            UpstreamCall::LinkCompactStateByFid { fid: *fid },
        ),
        RestResource::UsernameProofByName { name } => Ok(
            UpstreamCall::UsernameProof { name: name.clone() },
        ),
        RestResource::UsernameProofsByFid { fid } => Ok(
            UpstreamCall::UsernameProofsByFid { fid: *fid },
        ),
    }
}

/// The model of what [`read_result`] gives.
pub open spec fn read_model(r: Result<Json, RestError>) -> Result<JsonModel, ErrorModel> {
    match r {
        Ok(payload) => Ok(payload@),
        Err(e) => Err(e@),
    }
}

/// What a read gives once the upstream service has answered: the
/// classification of the answer, an error keeping its kind and message.
pub fn read_result(resource: &RestResource, output: String) -> (r: Result<Json, RestError>)
    ensures
        read_model(r) == outcome(resource@, output@),
        r matches Ok(payload) ==> payload@.wf(),
{
    match parse_resource_output(resource, output) {
        Ok(payload) => Ok(payload),
        Err(e) => Err(RestError::from(e)),
    }
}

/// The production reader: it holds the handle of the upstream service.
/// A read is [`upstream_call`], the lookup itself, and [`read_result`].
#[derive(Clone)]
pub struct McpResourceReader<S> {
    service: S,
}

impl<S> McpResourceReader<S> {
    /// The handle that the reader holds.
    pub closed spec fn handle(self) -> S {
        self.service
    }

    /// A reader over the given upstream service.
    pub fn new(service: S) -> (reader: Self)
        ensures
            reader.handle() == service,
    {
        McpResourceReader { service }
    }

    /// The upstream service that the reader holds.
    pub fn service(&self) -> (service: &S)
        ensures
            *service == self.handle(),
    {
        &self.service
    }
}

} // verus!
