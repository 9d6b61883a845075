use vstd::prelude::*;
use crate::community::resolved;
use crate::error::ErrorKind;
use crate::page::{creator_of, locked_changed, Page};
use crate::records::{CommunityId, Post, PostId};
use crate::site::Site;

verus! {

/// The stored post that an inbound post would replace, or the failure to
/// find one.
pub open spec fn stored(page: Page, site: Site) -> Result<Post, ErrorKind> {
    match site.post_by_ap_id(page.id@) {
        Some(post) => Ok(post),
        None => Err(ErrorKind::PostNotFound),
    }
}

/// Whether an inbound post passes the checks that come before it is stored:
/// it has an owning community on the site, and it names its creator.
pub open spec fn verified(page: Page, site: Site) -> Result<(), ErrorKind> {
    match resolved(page, site) {
        Err(e) => Err(e),
        Ok(_) => match creator_of(page.attributed_to) {
            Err(e) => Err(e),
            Ok(_) => Ok(()),
        },
    }
}

/// The lock of a post after an update: the inverse of `commentsEnabled`
/// where the update carries the flag, else what it was.
pub open spec fn lock_after(locked: bool, comments_enabled: Option<bool>) -> bool {
    match comments_enabled {
        Some(enabled) => !enabled,
        None => locked,
    }
}

/// The identifier that the next new post gets: one more than the largest in
/// use, and at least 1.
pub open spec fn next_post_id(posts: Seq<Post>) -> int
    decreases posts.len(),
{
    if posts.len() == 0 {
        1
    } else {
        let rest = next_post_id(posts.drop_last());
        if posts.last().id.0 + 1 > rest {
            posts.last().id.0 + 1
        } else {
            rest
        }
    }
}

/// No post has the identifier that the next new post gets: every
/// identifier in use lies below it.
pub proof fn lemma_next_post_id_is_free(posts: Seq<Post>, i: int)
    requires
        0 <= i < posts.len(),
    ensures
        posts[i].id.0 < next_post_id(posts),
    decreases posts.len(),
{
    if i < posts.len() - 1 {
        lemma_next_post_id_is_free(posts.drop_last(), i);
    }
}

/// The posts after the inbound post `page` of community `community_id` is
/// stored: where posts carry its federation identity they are moved to the
/// community and take the lock of the update; where none does, a new post
/// is appended under the next identifier.
pub open spec fn posts_after(posts: Seq<Post>, page: Page, community_id: CommunityId) -> Seq<Post> {
    if exists|i: int| 0 <= i < posts.len() && (#[trigger] posts[i]).ap_id@ == page.id@ {
        posts.map_values(
            |p: Post|
                if p.ap_id@ == page.id@ {
                    Post { community_id, locked: lock_after(p.locked, page.comments_enabled), ..p }
                } else {
                    p
                },
        )
    } else {
        posts.push(
            Post {
                id: PostId(next_post_id(posts) as i32),
                community_id,
                ap_id: page.id,
                locked: lock_after(false, page.comments_enabled),
            },
        )
    }
}

/// What receiving `page` does to a site. Where no identifier is left for
/// a new post, nothing changes; else only the posts change.
pub open spec fn received(before: Site, page: Page, after: Site, r: Result<(), ErrorKind>) -> bool {
    let exists_already = exists|i: int|
        0 <= i < before.posts@.len() && (#[trigger] before.posts@[i]).ap_id@ == page.id@;
    if !exists_already && next_post_id(before.posts@) > i32::MAX {
        after == before && r == Err::<(), ErrorKind>(ErrorKind::PostWriteFailed)
    } else {
        &&& r == Ok::<(), ErrorKind>(())
        &&& resolved(page, before) is Ok
        &&& after.posts@ == posts_after(before.posts@, page, resolved(page, before)->Ok_0.id)
        &&& after.local_site == before.local_site
        &&& after.communities == before.communities
        &&& after.bans == before.bans
        &&& after.likes == before.likes
        &&& after.reads == before.reads
        &&& after.outbox == before.outbox
    }
}

impl Site {
    /// The identifier for the next new post, unless none is left.
    pub fn fresh_post_id(&self) -> (r: Option<PostId>)
        ensures
            match r {
                Some(id) => id.0 == next_post_id(self.posts@) && forall|j: int|
                    0 <= j < self.posts@.len() ==> (#[trigger] self.posts@[j]).id != id,
                None => next_post_id(self.posts@) > i32::MAX,
            },
    {
        assert forall|j: int| 0 <= j < self.posts@.len() implies (#[trigger] self.posts@[j]).id.0
            < next_post_id(self.posts@) by {
            lemma_next_post_id_is_free(self.posts@, j);
        }
        let mut next: i64 = 1;
        let mut i: usize = 0;
        while i < self.posts.len()
            invariant
                i <= self.posts@.len(),
                next == next_post_id(self.posts@.subrange(0, i as int)),
                1 <= next <= i32::MAX + 1,
            decreases self.posts@.len() - i,
        {
            let id: i64 = self.posts[i].id.0 as i64;
            assert(self.posts@.subrange(0, i + 1).drop_last() =~= self.posts@.subrange(0, i as int));
            if id + 1 > next {
                next = id + 1;
            }
            i += 1;
        }
        assert(self.posts@.subrange(0, i as int) =~= self.posts@);
        if next <= i32::MAX as i64 {
            Some(PostId(next as i32))
        } else {
            None
        }
    }
}

impl Page {
    /// Only moderators may change the lock of a post. An update that changes
    /// it from what the stored post has is a moderator action and has to be
    /// checked as one.
    pub fn is_mod_action(&self, site: &Site) -> (r: Result<bool, ErrorKind>)
        ensures
            r == Ok::<bool, ErrorKind>(locked_changed(stored(*self, *site), self.comments_enabled)),
    {
        let old_post = site.dereference_post(&self.id);
        Ok(Page::is_locked_changed(&old_post, &self.comments_enabled))
    }

    /// The first phase of handling an inbound post: every check, and no
    /// change.
    pub fn verify(&self, site: &Site) -> (r: Result<(), ErrorKind>)
        ensures
            r == verified(*self, *site),
    {
        match self.community(site) {
            Err(e) => Err(e),
            Ok(_) => match self.creator() {
                Err(e) => Err(e),
                Ok(_) => Ok(()),
            },
        }
    }

    /// The second phase of handling an inbound post: it is stored. This
    /// must come after [`Page::verify`] has passed the post on the same
    /// site.
    pub fn receive(self, site: &mut Site) -> (r: Result<(), ErrorKind>)
        requires
            verified(self, *old(site)) is Ok,
        ensures
            received(*old(site), self, *final(site), r),
    {
        let community_id = match self.community(site) {
            Ok(c) => c.id,
            Err(e) => {
                return Err(e);
            },
        };
        let ghost update = |p: Post|
            if p.ap_id@ == self.id@ {
                Post { community_id, locked: lock_after(p.locked, self.comments_enabled), ..p }
            } else {
                p
            };
        let mut found = false;
        let mut i: usize = 0;
        while i < site.posts.len()
            invariant
                i <= site.posts@.len(),
                site.posts@.len() == old(site).posts@.len(),
                forall|j: int| 0 <= j < i ==> (#[trigger] site.posts@[j]) == update(old(site).posts@[j]),
                forall|j: int|
                    i <= j < site.posts@.len() ==> (#[trigger] site.posts@[j]) == old(site).posts@[j],
                found <==> exists|j: int|
                    0 <= j < i && (#[trigger] old(site).posts@[j]).ap_id@ == self.id@,
                update == (|p: Post|
                    if p.ap_id@ == self.id@ {
                        Post { community_id, locked: lock_after(p.locked, self.comments_enabled), ..p }
                    } else {
                        p
                    }),
                !found ==> *site == *old(site),
                site.local_site == old(site).local_site,
                site.communities == old(site).communities,
                site.bans == old(site).bans,
                site.likes == old(site).likes,
                site.reads == old(site).reads,
                site.outbox == old(site).outbox,
            decreases site.posts@.len() - i,
        {
            if site.posts[i].ap_id.same(&self.id) {
                let stored = site.posts[i].clone();
                let locked = match self.comments_enabled {
                    Some(enabled) => !enabled,
                    None => stored.locked,
                };
                site.posts.set(
                    i,
                    Post { id: stored.id, community_id, ap_id: stored.ap_id, locked },
                );
                found = true;
            }
            i += 1;
        }
        if found {
            assert(site.posts@ =~= old(site).posts@.map_values(update));
            return Ok(());
        }
        match site.fresh_post_id() {
            Some(id) => {
                let locked = match self.comments_enabled {
                    Some(enabled) => !enabled,
                    None => false,
                };
                site.posts.push(Post { id, community_id, ap_id: self.id, locked });
                Ok(())
            },
            None => {
                Err(ErrorKind::PostWriteFailed)
            },
        }
    }
}

} // verus!
