//! One row of the combined search table.

use vstd::prelude::*;
use crate::ids::{CommentId, CommunityId, MultiCommunityId, PersonId, PostId, SearchCombinedId};

verus! {

/// A combined table for a search (posts, comments, communities, persons).
#[derive(PartialEq, Eq, Debug, Clone)]
pub struct SearchCombined {
    pub id: SearchCombinedId,
    /// Publication time in microseconds since the Unix epoch, UTC.
    pub published_at: i64,
    pub score: i64,
    pub post_id: Option<PostId>,
    pub comment_id: Option<CommentId>,
    pub community_id: Option<CommunityId>,
    pub person_id: Option<PersonId>,
    pub multi_community_id: Option<MultiCommunityId>,
}

} // verus!
