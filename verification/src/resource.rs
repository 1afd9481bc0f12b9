//! What can be asked for: the closed set of resource queries and the options
//! of a read.
use vstd::prelude::*;

verus! {

/// The options of a read. A field that is absent asks for the default of
/// the resource, not for the behaviour to be left out.
#[derive(Debug, Clone, Copy, PartialEq, Eq)]
pub struct ResourceReadOptions {
    pub limit: Option<usize>,
    pub recursive: Option<bool>,
    pub max_depth: Option<usize>,
}

impl ResourceReadOptions {
    /// A limit that is present is at least 1, and so is a depth.
    pub open spec fn wf(self) -> bool {
        &&& self.limit matches Some(limit) ==> limit >= 1
        &&& self.max_depth matches Some(depth) ==> depth >= 1
    }

    /// The options in which every field is absent.
    pub open spec fn absent() -> ResourceReadOptions {
        ResourceReadOptions { limit: None, recursive: None, max_depth: None }
    }

    /// The options that hold a limit and nothing else.
    pub open spec fn limited(limit: usize) -> ResourceReadOptions {
        ResourceReadOptions { limit: Some(limit), recursive: None, max_depth: None }
    }

    /// Options that hold a limit and nothing else.
    pub fn with_limit(limit: usize) -> (options: ResourceReadOptions)
        ensures
            options == Self::limited(limit),
    {
        ResourceReadOptions { limit: Some(limit), recursive: None, max_depth: None }
    }
}

impl Default for ResourceReadOptions {
    fn default() -> (options: ResourceReadOptions)
        ensures
            options == ResourceReadOptions::absent(),
    {
        ResourceReadOptions { limit: None, recursive: None, max_depth: None }
    }
}

/// One query of the catalogue with the parameters that identify it.
#[derive(Debug, Clone, PartialEq, Eq)]
pub enum RestResource {
    UserByFid { fid: u64 },
    UserByUsername { username: String },
    VerificationsByFid { fid: u64 },
    VerificationByAddress { fid: u64, address: String },
    AllVerificationMessagesByFid { fid: u64, start_time: Option<u64>, end_time: Option<u64> },
    Cast { fid: u64, hash: String },
    Conversation { fid: u64, hash: String },
    CastsByFid { fid: u64 },
    CastsByMention { fid: u64 },
    CastsByParent { fid: u64, hash: String },
    CastsByParentUrl { url: String },
    ReactionsByFid { fid: u64 },
    ReactionsByTargetCast { fid: u64, hash: String },
    ReactionsByTargetUrl { url: String },
    LinksByFid { fid: u64 },
    LinksByTarget { fid: u64 },
    LinkCompactStateByFid { fid: u64 },
    UsernameProofByName { name: String },
    UsernameProofsByFid { fid: u64 },
}

/// The model of a [`RestResource`]: the same query with its texts as
/// sequences of characters.
pub enum ResourceModel {
    UserByFid { fid: u64 },
    UserByUsername { username: Seq<char> },
    VerificationsByFid { fid: u64 },
    VerificationByAddress { fid: u64, address: Seq<char> },
    AllVerificationMessagesByFid { fid: u64, start_time: Option<u64>, end_time: Option<u64> },
    Cast { fid: u64, hash: Seq<char> },
    Conversation { fid: u64, hash: Seq<char> },
    CastsByFid { fid: u64 },
    CastsByMention { fid: u64 },
    CastsByParent { fid: u64, hash: Seq<char> },
    CastsByParentUrl { url: Seq<char> },
    ReactionsByFid { fid: u64 },
    ReactionsByTargetCast { fid: u64, hash: Seq<char> },
    ReactionsByTargetUrl { url: Seq<char> },
    LinksByFid { fid: u64 },
    LinksByTarget { fid: u64 },
    LinkCompactStateByFid { fid: u64 },
    UsernameProofByName { name: Seq<char> },
    UsernameProofsByFid { fid: u64 },
}

impl View for RestResource {
    type V = ResourceModel;

    open spec fn view(&self) -> ResourceModel {
        match *self {
            RestResource::UserByFid { fid } => ResourceModel::UserByFid { fid },
            RestResource::UserByUsername { username } => ResourceModel::UserByUsername { username: username@ },
            RestResource::VerificationsByFid { fid } => ResourceModel::VerificationsByFid { fid },
            RestResource::VerificationByAddress { fid, address } => ResourceModel::VerificationByAddress { fid, address: address@ },
            RestResource::AllVerificationMessagesByFid { fid, start_time, end_time } => ResourceModel::AllVerificationMessagesByFid { fid, start_time, end_time },
            RestResource::Cast { fid, hash } => ResourceModel::Cast { fid, hash: hash@ },
            RestResource::Conversation { fid, hash } => ResourceModel::Conversation { fid, hash: hash@ },
            RestResource::CastsByFid { fid } => ResourceModel::CastsByFid { fid },
            RestResource::CastsByMention { fid } => ResourceModel::CastsByMention { fid },
            RestResource::CastsByParent { fid, hash } => ResourceModel::CastsByParent { fid, hash: hash@ },
            RestResource::CastsByParentUrl { url } => ResourceModel::CastsByParentUrl { url: url@ },
            RestResource::ReactionsByFid { fid } => ResourceModel::ReactionsByFid { fid },
            RestResource::ReactionsByTargetCast { fid, hash } => ResourceModel::ReactionsByTargetCast { fid, hash: hash@ },
            RestResource::ReactionsByTargetUrl { url } => ResourceModel::ReactionsByTargetUrl { url: url@ },
            RestResource::LinksByFid { fid } => ResourceModel::LinksByFid { fid },
            RestResource::LinksByTarget { fid } => ResourceModel::LinksByTarget { fid },
            RestResource::LinkCompactStateByFid { fid } => ResourceModel::LinkCompactStateByFid { fid },
            RestResource::UsernameProofByName { name } => ResourceModel::UsernameProofByName { name: name@ },
            RestResource::UsernameProofsByFid { fid } => ResourceModel::UsernameProofsByFid { fid },
        }
    }
}

impl ResourceModel {
    /// The query identifies at most one entity: its absence is a failure,
    /// not an empty list.
    pub open spec fn singular(self) -> bool {
        match self {
            ResourceModel::UserByFid { .. } => true,
            ResourceModel::UserByUsername { .. } => true,
            ResourceModel::VerificationByAddress { .. } => true,
            ResourceModel::Cast { .. } => true,
            ResourceModel::Conversation { .. } => true,
            ResourceModel::UsernameProofByName { .. } => true,
            _ => false,
        }
    }

    /// The query looks one entity up by a key other than its numeric
    /// identifier: by username, by address, or by proof name.
    pub open spec fn by_alternate_key(self) -> bool {
        match self {
            ResourceModel::UserByUsername { .. } => true,
            ResourceModel::VerificationByAddress { .. } => true,
            ResourceModel::UsernameProofByName { .. } => true,
            _ => false,
        }
    }
}

impl RestResource {
    /// Tells whether the query identifies at most one entity.
    pub fn is_singular(&self) -> (b: bool)
        ensures
            b == self@.singular(),
    {
        match self {
            RestResource::UserByFid { .. } => true,
            RestResource::UserByUsername { .. } => true,
            RestResource::VerificationByAddress { .. } => true,
            RestResource::Cast { .. } => true,
            RestResource::Conversation { .. } => true,
            RestResource::UsernameProofByName { .. } => true,
            _ => false,
        }
    }

    /// Tells whether the query looks one entity up by username, address or
    /// proof name.
    pub fn is_by_alternate_key(&self) -> (b: bool)
        ensures
            b == self@.by_alternate_key(),
    {
        match self {
            RestResource::UserByUsername { .. } => true,
            RestResource::VerificationByAddress { .. } => true,
            RestResource::UsernameProofByName { .. } => true,
            _ => false,
        }
    }
}

/// A query by an alternate key is a singular one.
pub proof fn lemma_alternate_key_is_singular(resource: ResourceModel)
    requires
        resource.by_alternate_key(),
    ensures
        resource.singular(),
{
}

} // verus!
