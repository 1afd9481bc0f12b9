//! The shapes of the answers on the wire, as plain data.
use vstd::prelude::*;
use vstd::string::StringExecFns;
use crate::error::{code_of, text_of, RestError};
use crate::json::Json;

verus! {

/// The body of every answer that reports an error.
#[derive(Debug)]
pub struct ErrorEnvelopeDoc {
    pub error: ErrorBodyDoc,
}

/// The code and the message of an error on the wire.
#[derive(Debug)]
pub struct ErrorBodyDoc {
    pub code: String,
    pub message: String,
}

impl RestError {
    /// The wire form of the error: the code of its kind, which does not
    /// depend on the message, and its full text.
    pub fn envelope(&self) -> (doc: ErrorEnvelopeDoc)
        ensures
            doc.error.code@ == code_of(self@.kind),
            doc.error.message@ == text_of(self@),
    {
        ErrorEnvelopeDoc {
            error: ErrorBodyDoc { code: String::from_str(self.code()), message: self.to_text() },
        }
    }
}

/// The profile of a user.
#[derive(Debug)]
pub struct UserProfileResponseDoc {
    pub fid: u64,
    pub display_name: Option<String>,
    pub username: Option<String>,
    pub bio: Option<String>,
    pub pfp: Option<String>,
    pub url: Option<String>,
    pub location: Option<String>,
    pub twitter: Option<String>,
    pub github: Option<String>,
}

/// One verified address of a user.
#[derive(Debug)]
pub struct VerificationItemDoc {
    pub fid: u64,
    pub address: String,
    pub protocol: String,
    pub verification_type: String,
    pub chain_id: Option<u64>,
    pub timestamp: Option<u64>,
}

/// The verifications of a user.
#[derive(Debug)]
pub struct VerificationsResponseDoc {
    pub fid: u64,
    pub count: usize,
    pub verifications: Vec<VerificationItemDoc>,
}

/// One cast in short.
#[derive(Debug)]
pub struct CastSummaryDoc {
    pub fid: u64,
    pub hash: String,
    pub timestamp: Option<u64>,
    pub text: Option<String>,
}

/// The casts of a user, or those that mention one.
#[derive(Debug)]
pub struct CastListResponseDoc {
    pub fid: u64,
    pub count: usize,
    pub casts: Vec<CastSummaryDoc>,
}

/// The replies to a cast.
#[derive(Debug)]
pub struct CastRepliesByParentResponseDoc {
    pub parent: ParentCastDoc,
    pub count: usize,
    pub replies: Vec<CastSummaryDoc>,
}

/// The replies to a URL.
#[derive(Debug)]
pub struct CastRepliesByUrlResponseDoc {
    pub parent_url: String,
    pub count: usize,
    pub replies: Vec<CastSummaryDoc>,
}

/// The author and the hash that name a cast.
#[derive(Debug)]
pub struct ParentCastDoc {
    pub fid: u64,
    pub hash: String,
}

/// One reaction in short.
#[derive(Debug)]
pub struct ReactionSummaryDoc {
    pub fid: u64,
    pub hash: String,
    pub timestamp: Option<u64>,
    pub reaction_type: Option<String>,
}

/// The reactions of a user.
#[derive(Debug)]
pub struct ReactionsByFidResponseDoc {
    pub fid: u64,
    pub count: usize,
    pub reactions: Vec<ReactionSummaryDoc>,
}

/// The reactions to a cast.
#[derive(Debug)]
pub struct ReactionsByTargetCastResponseDoc {
    pub target_cast: ParentCastDoc,
    pub count: usize,
    pub reactions: Vec<ReactionSummaryDoc>,
}

/// The reactions to a URL.
#[derive(Debug)]
pub struct ReactionsByTargetUrlResponseDoc {
    pub target_url: String,
    pub count: usize,
    pub reactions: Vec<ReactionSummaryDoc>,
}

/// One link in short.
#[derive(Debug)]
pub struct LinkSummaryDoc {
    pub fid: u64,
    pub target_fid: Option<u64>,
    pub link_type: Option<String>,
    pub hash: Option<String>,
    pub timestamp: Option<u64>,
}

/// The links that start at a user.
#[derive(Debug)]
pub struct LinksByFidResponseDoc {
    pub fid: u64,
    pub count: usize,
    pub links: Vec<LinkSummaryDoc>,
}

/// The links that end at a user.
#[derive(Debug)]
pub struct LinksByTargetResponseDoc {
    pub target_fid: u64,
    pub count: usize,
    pub links: Vec<LinkSummaryDoc>,
}

/// The compact link state of a user.
#[derive(Debug)]
pub struct LinkCompactStateResponseDoc {
    pub fid: u64,
    pub count: usize,
    pub compact_links: Vec<LinkSummaryDoc>,
}

/// The thread under a cast, with the documents of its casts as they came.
#[derive(Debug)]
pub struct ConversationResponseDoc {
    pub root_cast: Json,
    pub parent_casts: Option<Vec<Json>>,
    pub quoted_casts: Option<Vec<Json>>,
    pub participants: Option<Json>,
    pub topic: Option<String>,
    pub summary: Option<String>,
    pub conversation: Json,
}

} // verus!
