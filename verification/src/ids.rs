//! Row identifiers. Each table has its own identifier type so that an
//! identifier of one table cannot stand where another is meant.

use vstd::prelude::*;

verus! {

#[derive(Clone, Copy, PartialEq, Eq, Structural, Debug, Hash)]
pub struct PersonId(pub i32);

#[derive(Clone, Copy, PartialEq, Eq, Structural, Debug, Hash)]
pub struct CommunityId(pub i32);

#[derive(Clone, Copy, PartialEq, Eq, Structural, Debug, Hash)]
pub struct MultiCommunityId(pub i32);

#[derive(Clone, Copy, PartialEq, Eq, Structural, Debug, Hash)]
pub struct PostId(pub i32);

#[derive(Clone, Copy, PartialEq, Eq, Structural, Debug, Hash)]
pub struct CommentId(pub i32);

#[derive(Clone, Copy, PartialEq, Eq, Structural, Debug, Hash)]
pub struct PrivateMessageId(pub i32);

#[derive(Clone, Copy, PartialEq, Eq, Structural, Debug, Hash)]
pub struct SearchCombinedId(pub i32);

} // verus!
