use vstd::prelude::*;
use crate::uri::Uri;

verus! {

/// Local key of a post.
#[derive(Clone, Copy, Debug, PartialEq, Eq, Structural)]
pub struct PostId(pub i32);

/// Local key of a person.
#[derive(Clone, Copy, Debug, PartialEq, Eq, Structural)]
pub struct PersonId(pub i32);

/// Local key of a community.
#[derive(Clone, Copy, Debug, PartialEq, Eq, Structural)]
pub struct CommunityId(pub i32);

/// The site-wide configuration that the vote rules read.
#[derive(Clone, Copy, Debug, PartialEq, Eq, Structural)]
pub struct LocalSite {
    pub enable_downvotes: bool,
}

/// A person as the federation layer sees it.
#[derive(Debug)]
pub struct Person {
    pub id: PersonId,
    /// Canonical identity of the person.
    pub actor_id: Uri,
}

impl Clone for Person {
    fn clone(&self) -> (r: Self)
        ensures
            r == *self,
    {
        Person { id: self.id, actor_id: self.actor_id.clone() }
    }
}

/// A stored post.
#[derive(Debug)]
pub struct Post {
    pub id: PostId,
    pub community_id: CommunityId,
    /// Federation identity of the post.
    pub ap_id: Uri,
    /// Whether new comments are refused.
    pub locked: bool,
}

impl Clone for Post {
    fn clone(&self) -> (r: Self)
        ensures
            r == *self,
    {
        Post {
            id: self.id,
            community_id: self.community_id,
            ap_id: self.ap_id.clone(),
            locked: self.locked,
        }
    }
}

/// A community known to the site.
#[derive(Debug)]
pub struct Community {
    pub id: CommunityId,
    /// Canonical identity of the community.
    pub actor_id: Uri,
    pub deleted: bool,
    pub removed: bool,
}

impl Clone for Community {
    fn clone(&self) -> (r: Self)
        ensures
            r == *self,
    {
        Community {
            id: self.id,
            actor_id: self.actor_id.clone(),
            deleted: self.deleted,
            removed: self.removed,
        }
    }
}

/// A ban of a person from a community.
#[derive(Clone, Copy, Debug, PartialEq, Eq, Structural)]
pub struct CommunityPersonBan {
    pub community_id: CommunityId,
    pub person_id: PersonId,
}

/// The mark that a person has read a post.
#[derive(Clone, Copy, Debug, PartialEq, Eq, Structural)]
pub struct PostRead {
    pub post_id: PostId,
    pub person_id: PersonId,
}

/// What is handed to outbound delivery.
#[derive(Debug)]
pub enum SendActivityData {
    /// A vote: the federation identity of the post, who voted, the community
    /// that owns the post, and the score as it was requested.
    LikePostOrComment(Uri, Person, Community, i16),
}

impl Clone for SendActivityData {
    fn clone(&self) -> (r: Self)
        ensures
            r == *self,
    {
        match self {
            SendActivityData::LikePostOrComment(object, actor, community, score) => {
                SendActivityData::LikePostOrComment(object.clone(), actor.clone(), community.clone(), *score)
            },
        }
    }
}

} // verus!
