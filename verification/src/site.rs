use vstd::prelude::*;
use crate::error::ErrorKind;
use crate::likes::PostLikes;
use crate::records::{
    Community, CommunityId, CommunityPersonBan, LocalSite, PersonId, Post, PostId, PostRead,
    SendActivityData,
};
use crate::seqs::{first_where, lemma_first_where_found, lemma_first_where_none};
use crate::uri::Uri;

verus! {

/// The state that the federation layer reads and writes: configuration,
/// posts, communities, bans, votes, read marks, and what waits for outbound
/// delivery. It is the model against which the protocol is stated.
#[derive(Debug)]
pub struct Site {
    pub local_site: LocalSite,
    pub posts: Vec<Post>,
    pub communities: Vec<Community>,
    pub bans: Vec<CommunityPersonBan>,
    pub likes: PostLikes,
    pub reads: Vec<PostRead>,
    pub outbox: Vec<SendActivityData>,
}

/// The read marks after `mark` is set: nothing is added where it stands
/// already.
pub open spec fn marked(reads: Seq<PostRead>, mark: PostRead) -> Seq<PostRead> {
    if reads.contains(mark) {
        reads
    } else {
        reads.push(mark)
    }
}

impl Site {
    /// A site without content.
    pub fn new(local_site: LocalSite) -> (r: Site)
        ensures
            r.local_site == local_site,
            r.posts@.len() == 0,
            r.communities@.len() == 0,
            r.bans@.len() == 0,
            r.likes@ == Map::<(PostId, PersonId), i16>::empty(),
            r.reads@.len() == 0,
            r.outbox@.len() == 0,
    {
        Site {
            local_site,
            posts: Vec::new(),
            communities: Vec::new(),
            bans: Vec::new(),
            likes: PostLikes::new(),
            reads: Vec::new(),
            outbox: Vec::new(),
        }
    }

    /// The post stored under `id`.
    pub open spec fn post(&self, id: PostId) -> Option<Post> {
        first_where(self.posts@, |p: Post| p.id == id)
    }

    /// The post whose federation identity is `ap_id`.
    pub open spec fn post_by_ap_id(&self, ap_id: Seq<char>) -> Option<Post> {
        first_where(self.posts@, |p: Post| p.ap_id@ == ap_id)
    }

    /// The community stored under `id`.
    pub open spec fn community(&self, id: CommunityId) -> Option<Community> {
        first_where(self.communities@, |c: Community| c.id == id)
    }

    /// The community whose canonical identity is `actor_id`.
    pub open spec fn community_by_actor_id(&self, actor_id: Seq<char>) -> Option<Community> {
        first_where(self.communities@, |c: Community| c.actor_id@ == actor_id)
    }

    /// Whether `person_id` is banned from `community_id`.
    pub open spec fn banned(&self, person_id: PersonId, community_id: CommunityId) -> bool {
        self.bans@.contains(CommunityPersonBan { community_id, person_id })
    }

    /// Whether the community under `id` cannot take part: it is unknown,
    /// deleted or removed.
    pub open spec fn unavailable(&self, id: CommunityId) -> bool {
        match self.community(id) {
            Some(c) => c.deleted || c.removed,
            None => true,
        }
    }

    /// Reads the post stored under `id`.
    pub fn read_post(&self, id: PostId) -> (r: Option<Post>)
        ensures
            r == self.post(id),
    {
        let ghost p = |p: Post| p.id == id;
        let mut i: usize = 0;
        while i < self.posts.len()
            invariant
                i <= self.posts@.len(),
                p == (|p: Post| p.id == id),
                forall|j: int| 0 <= j < i ==> !p(#[trigger] self.posts@[j]),
            decreases self.posts@.len() - i,
        {
            if self.posts[i].id == id {
                proof {
                    lemma_first_where_found(self.posts@, p, i as int);
                }
                return Some(self.posts[i].clone());
            }
            i += 1;
        }
        proof {
            lemma_first_where_none(self.posts@, p);
        }
        None
    }

    /// Looks up the local post whose federation identity is `ap_id`.
    pub fn dereference_post(&self, ap_id: &Uri) -> (r: Result<Post, ErrorKind>)
        ensures
            r == match self.post_by_ap_id(ap_id@) {
                Some(post) => Ok::<Post, ErrorKind>(post),
                None => Err::<Post, ErrorKind>(ErrorKind::PostNotFound),
            },
    {
        let ghost p = |p: Post| p.ap_id@ == ap_id@;
        let mut i: usize = 0;
        while i < self.posts.len()
            invariant
                i <= self.posts@.len(),
                p == (|p: Post| p.ap_id@ == ap_id@),
                forall|j: int| 0 <= j < i ==> !p(#[trigger] self.posts@[j]),
            decreases self.posts@.len() - i,
        {
            if self.posts[i].ap_id.same(ap_id) {
                proof {
                    lemma_first_where_found(self.posts@, p, i as int);
                }
                return Ok(self.posts[i].clone());
            }
            i += 1;
        }
        proof {
            lemma_first_where_none(self.posts@, p);
        }
        Err(ErrorKind::PostNotFound)
    }

    /// Reads the community stored under `id`.
    pub fn read_community(&self, id: CommunityId) -> (r: Option<Community>)
        ensures
            r == self.community(id),
    {
        let ghost p = |c: Community| c.id == id;
        let mut i: usize = 0;
        while i < self.communities.len()
            invariant
                i <= self.communities@.len(),
                p == (|c: Community| c.id == id),
                forall|j: int| 0 <= j < i ==> !p(#[trigger] self.communities@[j]),
            decreases self.communities@.len() - i,
        {
            if self.communities[i].id == id {
                proof {
                    lemma_first_where_found(self.communities@, p, i as int);
                }
                return Some(self.communities[i].clone());
            }
            i += 1;
        }
        proof {
            lemma_first_where_none(self.communities@, p);
        }
        None
    }

    /// Resolves a canonical identity to the community that carries it.
    pub fn dereference_community(&self, actor_id: &Uri) -> (r: Result<Community, ErrorKind>)
        ensures
            r == match self.community_by_actor_id(actor_id@) {
                Some(community) => Ok::<Community, ErrorKind>(community),
                None => Err::<Community, ErrorKind>(ErrorKind::UpstreamDereferenceFailed),
            },
    {
        let ghost p = |c: Community| c.actor_id@ == actor_id@;
        let mut i: usize = 0;
        while i < self.communities.len()
            invariant
                i <= self.communities@.len(),
                p == (|c: Community| c.actor_id@ == actor_id@),
                forall|j: int| 0 <= j < i ==> !p(#[trigger] self.communities@[j]),
            decreases self.communities@.len() - i,
        {
            if self.communities[i].actor_id.same(actor_id) {
                proof {
                    lemma_first_where_found(self.communities@, p, i as int);
                }
                return Ok(self.communities[i].clone());
            }
            i += 1;
        }
        proof {
            lemma_first_where_none(self.communities@, p);
        }
        Err(ErrorKind::UpstreamDereferenceFailed)
    }

    /// Whether `person_id` is banned from `community_id`.
    pub fn is_banned(&self, person_id: PersonId, community_id: CommunityId) -> (r: bool)
        ensures
            r == self.banned(person_id, community_id),
    {
        let ban = CommunityPersonBan { community_id, person_id };
        let mut i: usize = 0;
        while i < self.bans.len()
            invariant
                i <= self.bans@.len(),
                ban == (CommunityPersonBan { community_id, person_id }),
                forall|j: int| 0 <= j < i ==> self.bans@[j] != ban,
            decreases self.bans@.len() - i,
        {
            if self.bans[i] == ban {
                assert(self.bans@[i as int] == ban);
                return true;
            }
            i += 1;
        }
        false
    }

    /// Whether the community under `id` is unknown, deleted or removed.
    pub fn is_deleted_or_removed(&self, id: CommunityId) -> (r: bool)
        ensures
            r == self.unavailable(id),
    {
        match self.read_community(id) {
            Some(c) => c.deleted || c.removed,
            None => true,
        }
    }

    /// Records that `person_id` has read `post_id`. Doing so again changes
    /// nothing.
    pub fn mark_post_as_read(&mut self, person_id: PersonId, post_id: PostId)
        ensures
            final(self).reads@ == marked(old(self).reads@, PostRead { post_id, person_id }),
            final(self).local_site == old(self).local_site,
            final(self).posts == old(self).posts,
            final(self).communities == old(self).communities,
            final(self).bans == old(self).bans,
            final(self).likes == old(self).likes,
            final(self).outbox == old(self).outbox,
    {
        let mark = PostRead { post_id, person_id };
        let mut i: usize = 0;
        while i < self.reads.len()
            invariant
                i <= self.reads@.len(),
                *self == *old(self),
                mark == (PostRead { post_id, person_id }),
                forall|j: int| 0 <= j < i ==> self.reads@[j] != mark,
            decreases self.reads@.len() - i,
        {
            if self.reads[i] == mark {
                assert(self.reads@[i as int] == mark);
                return ;
            }
            i += 1;
        }
        self.reads.push(mark);
    }

    /// Hands `data` to outbound delivery.
    pub fn submit_activity(&mut self, data: SendActivityData)
        ensures
            final(self).outbox@ == old(self).outbox@.push(data),
            final(self).local_site == old(self).local_site,
            final(self).posts == old(self).posts,
            final(self).communities == old(self).communities,
            final(self).bans == old(self).bans,
            final(self).likes == old(self).likes,
            final(self).reads == old(self).reads,
    {
        self.outbox.push(data);
    }
}

} // verus!
