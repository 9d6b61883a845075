use vstd::prelude::*;
use crate::error::ErrorKind;
use crate::likes::{is_vote, lemma_row_count, row_count, votes_of, well_formed_rows, PostLike, PostLikeForm};
use crate::records::{
    Community, CommunityId, LocalSite, Person, PersonId, Post, PostId, PostRead, SendActivityData,
};
use crate::site::{marked, Site};

verus! {

/// A vote as it is submitted: the post and the requested score.
#[derive(Clone, Copy, Debug, PartialEq, Eq, Structural)]
pub struct CreatePostLike {
    pub post_id: PostId,
    pub score: i16,
}

/// The answer to a request that carries no data back.
#[derive(Clone, Copy, Debug, PartialEq, Eq, Structural)]
pub struct SuccessResponse {
    pub success: bool,
}

impl Default for SuccessResponse {
    fn default() -> (r: Self)
        ensures
            r.success,
    {
        SuccessResponse { success: true }
    }
}

/// What stays fixed while one vote is handled: the submission, who submits
/// it, and the site's configuration.
#[derive(Debug)]
pub struct LikeRequest {
    pub data: CreatePostLike,
    pub person: Person,
    pub local_site: LocalSite,
}

/// How far the handling of one vote has come. Each waiting state names the
/// answer that is outstanding.
#[derive(Debug)]
pub enum LikeState {
    Start,
    AwaitingPost,
    AwaitingBanCheck(Post),
    AwaitingCommunityCheck(Post),
    AwaitingVoteWrite(Post),
    AwaitingReadMark(Post),
    AwaitingCommunity(Post),
    AwaitingSubmission,
    Finished,
}

/// What the surroundings report back after carrying out a [`LikeAction`].
#[derive(Debug)]
pub enum LikeEvent {
    /// Nothing was asked yet.
    Started,
    /// The post that was read, if there is one.
    PostRead(Option<Post>),
    /// Whether the person is banned from the community.
    BanChecked(bool),
    /// Whether the community is deleted or removed.
    CommunityChecked(bool),
    VoteWritten,
    PostMarkedRead,
    /// The community that was read, if there is one.
    CommunityRead(Option<Community>),
    ActivitySubmitted,
    /// The action could not be carried out.
    Failed(ErrorKind),
}

/// What the surroundings are asked to do next.
#[derive(Debug)]
pub enum LikeAction {
    ReadPost(PostId),
    CheckCommunityBan(PersonId, CommunityId),
    CheckCommunityDeletedOrRemoved(CommunityId),
    /// As one transaction: delete what the person voted on the post, then
    /// write `form` where there is one.
    WriteVote { person_id: PersonId, post_id: PostId, form: Option<PostLikeForm> },
    MarkPostAsRead(PersonId, PostId),
    ReadCommunity(CommunityId),
    SubmitActivity(SendActivityData),
    /// Nothing more is asked: this is the answer to the submission.
    Respond(Result<SuccessResponse, ErrorKind>),
}

/// A downvote on a site that has downvotes switched off.
pub open spec fn downvote_refused(score: int, local_site: LocalSite) -> bool {
    score == -1 && !local_site.enable_downvotes
}

/// Refuses a downvote where the site has downvotes switched off.
pub fn check_downvotes_enabled(score: i16, local_site: &LocalSite) -> (r: Result<(), ErrorKind>)
    ensures
        r == (if downvote_refused(score as int, *local_site) {
            Err::<(), ErrorKind>(ErrorKind::DownvotesDisabled)
        } else {
            Ok::<(), ErrorKind>(())
        }),
{
    if score == -1 && !local_site.enable_downvotes {
        Err(ErrorKind::DownvotesDisabled)
    } else {
        Ok(())
    }
}

/// The row to write for a submission: none unless the score is a vote.
pub open spec fn form_of(data: CreatePostLike, person_id: PersonId) -> Option<PostLikeForm> {
    if is_vote(data.score as int) {
        Some(PostLikeForm { post_id: data.post_id, person_id, score: data.score })
    } else {
        None
    }
}

/// The row to write for a submission. A score of 0, and any score that is no
/// vote, writes nothing: what was voted before is only retracted.
pub fn vote_form(data: &CreatePostLike, person_id: PersonId) -> (r: Option<PostLikeForm>)
    ensures
        r == form_of(*data, person_id),
{
    let do_add = data.score != 0 && (data.score == 1 || data.score == -1);
    if do_add {
        Some(PostLikeForm { post_id: data.post_id, person_id, score: data.score })
    } else {
        None
    }
}

/// The end of a run with the answer `r`.
pub open spec fn finish(r: Result<SuccessResponse, ErrorKind>) -> (LikeState, LikeAction) {
    (LikeState::Finished, LikeAction::Respond(r))
}

/// The transition table of the vote protocol: in `state`, on `event`, the
/// state that follows and what is asked next.
///
/// Every check comes before the vote is written, and failure of any step
/// ends the run with that failure. An event that does not answer what was
/// asked ends it with `UnexpectedEvent`.
pub open spec fn next(request: LikeRequest, state: LikeState, event: LikeEvent) -> (LikeState, LikeAction) {
    let data = request.data;
    let person_id = request.person.id;
    match (state, event) {
        (LikeState::Start, LikeEvent::Started) => {
            if downvote_refused(data.score as int, request.local_site) {
                finish(Err(ErrorKind::DownvotesDisabled))
            } else {
                (LikeState::AwaitingPost, LikeAction::ReadPost(data.post_id))
            }
        },
        (LikeState::Start, _) => finish(Err(ErrorKind::UnexpectedEvent)),
        (LikeState::Finished, _) => finish(Err(ErrorKind::UnexpectedEvent)),
        (LikeState::AwaitingVoteWrite(_), LikeEvent::Failed(_)) => finish(Err(ErrorKind::VoteWriteFailed)),
        (_, LikeEvent::Failed(kind)) => finish(Err(kind)),
        (LikeState::AwaitingPost, LikeEvent::PostRead(Some(post))) => (
            LikeState::AwaitingBanCheck(post),
            LikeAction::CheckCommunityBan(person_id, post.community_id),
        ),
        (LikeState::AwaitingPost, LikeEvent::PostRead(None)) => finish(Err(ErrorKind::PostNotFound)),
        (LikeState::AwaitingBanCheck(post), LikeEvent::BanChecked(banned)) => {
            if banned {
                finish(Err(ErrorKind::ActorBanned))
            } else {
                (
                    LikeState::AwaitingCommunityCheck(post),
                    LikeAction::CheckCommunityDeletedOrRemoved(post.community_id),
                )
            }
        },
        (LikeState::AwaitingCommunityCheck(post), LikeEvent::CommunityChecked(gone)) => {
            if gone {
                finish(Err(ErrorKind::CommunityUnavailable))
            } else {
                (
                    LikeState::AwaitingVoteWrite(post),
                    LikeAction::WriteVote {
                        person_id,
                        post_id: data.post_id,
                        form: form_of(data, person_id),
                    },
                )
            }
        },
        (LikeState::AwaitingVoteWrite(post), LikeEvent::VoteWritten) => (
            LikeState::AwaitingReadMark(post),
            LikeAction::MarkPostAsRead(person_id, data.post_id),
        ),
        (LikeState::AwaitingReadMark(post), LikeEvent::PostMarkedRead) => (
            LikeState::AwaitingCommunity(post),
            LikeAction::ReadCommunity(post.community_id),
        ),
        (LikeState::AwaitingCommunity(post), LikeEvent::CommunityRead(Some(community))) => (
            LikeState::AwaitingSubmission,
            LikeAction::SubmitActivity(
                SendActivityData::LikePostOrComment(post.ap_id, request.person, community, data.score),
            ),
        ),
        (LikeState::AwaitingCommunity(_), LikeEvent::CommunityRead(None)) => finish(
            Err(ErrorKind::CommunityUnavailable),
        ),
        (LikeState::AwaitingSubmission, LikeEvent::ActivitySubmitted) => finish(
            Ok(SuccessResponse { success: true }),
        ),
        _ => finish(Err(ErrorKind::UnexpectedEvent)),
    }
}

fn done(r: Result<SuccessResponse, ErrorKind>) -> (out: (LikeState, LikeAction))
    ensures
        out == finish(r),
{
    (LikeState::Finished, LikeAction::Respond(r))
}

/// One step of the vote protocol: takes the answer to what was asked last
/// and decides what is asked next, or how the run ends.
pub fn step(request: &LikeRequest, state: LikeState, event: LikeEvent) -> (out: (LikeState, LikeAction))
    ensures
        out == next(*request, state, event),
{
    let data = request.data;
    let person_id = request.person.id;
    match state {
        LikeState::Start => match event {
            LikeEvent::Started => match check_downvotes_enabled(data.score, &request.local_site) {
                Err(kind) => done(Err(kind)),
                Ok(()) => (LikeState::AwaitingPost, LikeAction::ReadPost(data.post_id)),
            },
            _ => done(Err(ErrorKind::UnexpectedEvent)),
        },
        LikeState::Finished => done(Err(ErrorKind::UnexpectedEvent)),
        LikeState::AwaitingPost => match event {
            LikeEvent::Failed(kind) => done(Err(kind)),
            LikeEvent::PostRead(Some(post)) => {
                let community_id = post.community_id;
                (LikeState::AwaitingBanCheck(post), LikeAction::CheckCommunityBan(person_id, community_id))
            },
            LikeEvent::PostRead(None) => done(Err(ErrorKind::PostNotFound)),
            _ => done(Err(ErrorKind::UnexpectedEvent)),
        },
        LikeState::AwaitingBanCheck(post) => match event {
            LikeEvent::Failed(kind) => done(Err(kind)),
            LikeEvent::BanChecked(banned) => {
                if banned {
                    done(Err(ErrorKind::ActorBanned))
                } else {
                    let community_id = post.community_id;
                    (
                        LikeState::AwaitingCommunityCheck(post),
                        LikeAction::CheckCommunityDeletedOrRemoved(community_id),
                    )
                }
            },
            _ => done(Err(ErrorKind::UnexpectedEvent)),
        },
        LikeState::AwaitingCommunityCheck(post) => match event {
            LikeEvent::Failed(kind) => done(Err(kind)),
            LikeEvent::CommunityChecked(gone) => {
                if gone {
                    done(Err(ErrorKind::CommunityUnavailable))
                } else {
                    (
                        LikeState::AwaitingVoteWrite(post),
                        LikeAction::WriteVote {
                            person_id,
                            post_id: data.post_id,
                            form: vote_form(&data, person_id),
                        },
                    )
                }
            },
            _ => done(Err(ErrorKind::UnexpectedEvent)),
        },
        LikeState::AwaitingVoteWrite(post) => match event {
            LikeEvent::Failed(_) => done(Err(ErrorKind::VoteWriteFailed)),
            LikeEvent::VoteWritten => (
                LikeState::AwaitingReadMark(post),
                LikeAction::MarkPostAsRead(person_id, data.post_id),
            ),
            _ => done(Err(ErrorKind::UnexpectedEvent)),
        },
        LikeState::AwaitingReadMark(post) => match event {
            LikeEvent::Failed(kind) => done(Err(kind)),
            LikeEvent::PostMarkedRead => {
                let community_id = post.community_id;
                (LikeState::AwaitingCommunity(post), LikeAction::ReadCommunity(community_id))
            },
            _ => done(Err(ErrorKind::UnexpectedEvent)),
        },
        LikeState::AwaitingCommunity(post) => match event {
            LikeEvent::Failed(kind) => done(Err(kind)),
            LikeEvent::CommunityRead(Some(community)) => (
                LikeState::AwaitingSubmission,
                LikeAction::SubmitActivity(
                    SendActivityData::LikePostOrComment(
                        post.ap_id,
                        request.person.clone(),
                        community,
                        data.score,
                    ),
                ),
            ),
            LikeEvent::CommunityRead(None) => done(Err(ErrorKind::CommunityUnavailable)),
            _ => done(Err(ErrorKind::UnexpectedEvent)),
        },
        LikeState::AwaitingSubmission => match event {
            LikeEvent::Failed(kind) => done(Err(kind)),
            LikeEvent::ActivitySubmitted => done(Ok(SuccessResponse::default())),
            _ => done(Err(ErrorKind::UnexpectedEvent)),
        },
    }
}

/// The votes after `person_id` has cast `score` on `post_id`: the earlier
/// vote is gone, and a new one stands only where the score is a vote.
pub open spec fn cast(
    votes: Map<(PostId, PersonId), i16>,
    post_id: PostId,
    person_id: PersonId,
    score: i16,
) -> Map<(PostId, PersonId), i16> {
    if is_vote(score as int) {
        votes.insert((post_id, person_id), score)
    } else {
        votes.remove((post_id, person_id))
    }
}

/// Whether `after` differs from `before` at most in votes, read marks and
/// outbox.
pub open spec fn same_records(before: Site, after: Site) -> bool {
    &&& after.local_site == before.local_site
    &&& after.posts == before.posts
    &&& after.communities == before.communities
    &&& after.bans == before.bans
}

/// What carrying out `action` on the site `before` leaves behind and
/// reports.
pub open spec fn performs(before: Site, action: LikeAction, after: Site, event: LikeEvent) -> bool {
    match action {
        LikeAction::ReadPost(id) => after == before && event == LikeEvent::PostRead(before.post(id)),
        LikeAction::CheckCommunityBan(person_id, community_id) => after == before && event
            == LikeEvent::BanChecked(before.banned(person_id, community_id)),
        LikeAction::CheckCommunityDeletedOrRemoved(id) => after == before && event
            == LikeEvent::CommunityChecked(before.unavailable(id)),
        LikeAction::WriteVote { person_id, post_id, form } => {
            let valid = form matches Some(f) ==> is_vote(f.score as int) && f.post_id == post_id
                && f.person_id == person_id;
            if valid {
                &&& event == LikeEvent::VoteWritten
                &&& same_records(before, after)
                &&& after.reads == before.reads
                &&& after.outbox == before.outbox
                &&& after.likes@ == match form {
                    Some(f) => before.likes@.insert((post_id, person_id), f.score),
                    None => before.likes@.remove((post_id, person_id)),
                }
            } else {
                after == before && event == LikeEvent::Failed(ErrorKind::VoteWriteFailed)
            }
        },
        LikeAction::MarkPostAsRead(person_id, post_id) => {
            &&& event == LikeEvent::PostMarkedRead
            &&& same_records(before, after)
            &&& after.likes == before.likes
            &&& after.outbox == before.outbox
            &&& after.reads@ == marked(before.reads@, PostRead { post_id, person_id })
        },
        LikeAction::ReadCommunity(id) => after == before && event == LikeEvent::CommunityRead(
            before.community(id),
        ),
        LikeAction::SubmitActivity(data) => {
            &&& event == LikeEvent::ActivitySubmitted
            &&& same_records(before, after)
            &&& after.likes == before.likes
            &&& after.reads == before.reads
            &&& after.outbox@ == before.outbox@.push(data)
        },
        LikeAction::Respond(_) => after == before && event == LikeEvent::Failed(
            ErrorKind::UnexpectedEvent,
        ),
    }
}

impl Site {
    /// Carries out one action of the vote protocol on this site and reports
    /// the outcome. A vote is written as a whole or not at all.
    pub fn perform(&mut self, action: LikeAction) -> (event: LikeEvent)
        ensures
            performs(*old(self), action, *final(self), event),
    {
        match action {
            LikeAction::ReadPost(id) => LikeEvent::PostRead(self.read_post(id)),
            LikeAction::CheckCommunityBan(person_id, community_id) => LikeEvent::BanChecked(
                self.is_banned(person_id, community_id),
            ),
            LikeAction::CheckCommunityDeletedOrRemoved(id) => LikeEvent::CommunityChecked(
                self.is_deleted_or_removed(id),
            ),
            LikeAction::WriteVote { person_id, post_id, form } => {
                match form {
                    Some(f) => {
                        if (f.score != 1 && f.score != -1) || f.post_id != post_id || f.person_id
                            != person_id {
                            return LikeEvent::Failed(ErrorKind::VoteWriteFailed);
                        }
                        self.likes.remove(person_id, post_id);
                        assert(old(self).likes@.remove((post_id, person_id)).insert(
                            (post_id, person_id),
                            f.score,
                        ) =~= old(self).likes@.insert((post_id, person_id), f.score));
                        match self.likes.like(&f) {
                            Ok(_) => LikeEvent::VoteWritten,
                            Err(kind) => LikeEvent::Failed(kind),
                        }
                    },
                    None => {
                        self.likes.remove(person_id, post_id);
                        LikeEvent::VoteWritten
                    },
                }
            },
            LikeAction::MarkPostAsRead(person_id, post_id) => {
                self.mark_post_as_read(person_id, post_id);
                LikeEvent::PostMarkedRead
            },
            LikeAction::ReadCommunity(id) => LikeEvent::CommunityRead(self.read_community(id)),
            LikeAction::SubmitActivity(data) => {
                self.submit_activity(data);
                LikeEvent::ActivitySubmitted
            },
            LikeAction::Respond(_) => LikeEvent::Failed(ErrorKind::UnexpectedEvent),
        }
    }
}

/// What one submission does to a site, and how it is answered.
///
/// A downvote on a site without downvotes, a post that does not exist, a
/// banned person and a community that is unknown, deleted or removed each
/// end the submission with their error and leave the site as it was.
/// Otherwise the vote of the person on the post is replaced by the
/// submitted one, the post is marked as read, and one event that carries
/// the requested score waits for delivery.
pub open spec fn liked(
    before: Site,
    data: CreatePostLike,
    person: Person,
    after: Site,
    r: Result<SuccessResponse, ErrorKind>,
) -> bool {
    if downvote_refused(data.score as int, before.local_site) {
        after == before && r == Err::<SuccessResponse, ErrorKind>(ErrorKind::DownvotesDisabled)
    } else if before.post(data.post_id) is None {
        after == before && r == Err::<SuccessResponse, ErrorKind>(ErrorKind::PostNotFound)
    } else {
        let post = before.post(data.post_id)->0;
        if before.banned(person.id, post.community_id) {
            after == before && r == Err::<SuccessResponse, ErrorKind>(ErrorKind::ActorBanned)
        } else if before.unavailable(post.community_id) {
            after == before && r == Err::<SuccessResponse, ErrorKind>(ErrorKind::CommunityUnavailable)
        } else {
            &&& r == Ok::<SuccessResponse, ErrorKind>(SuccessResponse { success: true })
            &&& same_records(before, after)
            &&& after.likes@ == cast(before.likes@, data.post_id, person.id, data.score)
            &&& after.reads@ == marked(
                before.reads@,
                PostRead { post_id: data.post_id, person_id: person.id },
            )
            &&& after.outbox@ == before.outbox@.push(
                SendActivityData::LikePostOrComment(
                    post.ap_id,
                    person,
                    before.community(post.community_id)->0,
                    data.score,
                ),
            )
        }
    }
}

/// How many answers are still outstanding in `state`, at most.
pub open spec fn steps_left(state: LikeState) -> nat {
    match state {
        LikeState::Start => 8,
        LikeState::AwaitingPost => 7,
        LikeState::AwaitingBanCheck(_) => 6,
        LikeState::AwaitingCommunityCheck(_) => 5,
        LikeState::AwaitingVoteWrite(_) => 4,
        LikeState::AwaitingReadMark(_) => 3,
        LikeState::AwaitingCommunity(_) => 2,
        LikeState::AwaitingSubmission => 1,
        LikeState::Finished => 0,
    }
}

/// What holds of a run on a site between two steps: `event` answers what
/// `state` waits for, and `now` is `before` with the effects so far.
spec fn underway(before: Site, request: LikeRequest, state: LikeState, event: LikeEvent, now: Site) -> bool {
    let data = request.data;
    let person = request.person;
    let found = before.post(data.post_id);
    let voted = same_records(before, now) && now.likes@ == cast(
        before.likes@,
        data.post_id,
        person.id,
        data.score,
    );
    let read = now.reads@ == marked(before.reads@, PostRead { post_id: data.post_id, person_id: person.id });
    &&& request.local_site == before.local_site
    &&& match state {
        LikeState::Start => event == LikeEvent::Started && now == before,
        LikeState::AwaitingPost => {
            &&& !downvote_refused(data.score as int, before.local_site)
            &&& now == before
            &&& event == LikeEvent::PostRead(found)
        },
        LikeState::AwaitingBanCheck(post) => {
            &&& !downvote_refused(data.score as int, before.local_site)
            &&& now == before
            &&& found == Some(post)
            &&& event == LikeEvent::BanChecked(before.banned(person.id, post.community_id))
        },
        LikeState::AwaitingCommunityCheck(post) => {
            &&& !downvote_refused(data.score as int, before.local_site)
            &&& now == before
            &&& found == Some(post)
            &&& !before.banned(person.id, post.community_id)
            &&& event == LikeEvent::CommunityChecked(before.unavailable(post.community_id))
        },
        LikeState::AwaitingVoteWrite(post) => {
            &&& !downvote_refused(data.score as int, before.local_site)
            &&& found == Some(post)
            &&& !before.banned(person.id, post.community_id)
            &&& !before.unavailable(post.community_id)
            &&& voted
            &&& now.reads == before.reads
            &&& now.outbox == before.outbox
            &&& event == LikeEvent::VoteWritten
        },
        LikeState::AwaitingReadMark(post) => {
            &&& !downvote_refused(data.score as int, before.local_site)
            &&& found == Some(post)
            &&& !before.banned(person.id, post.community_id)
            &&& !before.unavailable(post.community_id)
            &&& voted
            &&& read
            &&& now.outbox == before.outbox
            &&& event == LikeEvent::PostMarkedRead
        },
        LikeState::AwaitingCommunity(post) => {
            &&& !downvote_refused(data.score as int, before.local_site)
            &&& found == Some(post)
            &&& !before.banned(person.id, post.community_id)
            &&& !before.unavailable(post.community_id)
            &&& voted
            &&& read
            &&& now.outbox == before.outbox
            &&& event == LikeEvent::CommunityRead(before.community(post.community_id))
        },
        LikeState::AwaitingSubmission => {
            &&& !downvote_refused(data.score as int, before.local_site)
            &&& found is Some
            &&& !before.banned(person.id, found->0.community_id)
            &&& !before.unavailable(found->0.community_id)
            &&& voted
            &&& read
            &&& now.outbox@ == before.outbox@.push(
                SendActivityData::LikePostOrComment(
                    found->0.ap_id,
                    person,
                    before.community(found->0.community_id)->0,
                    data.score,
                ),
            )
            &&& event == LikeEvent::ActivitySubmitted
        },
        LikeState::Finished => false,
    }
}

/// Applies the vote that `person` submits as `data` to the site: runs the
/// vote protocol to its end, carrying out each action on `site`.
pub fn like_post(data: &CreatePostLike, person: &Person, site: &mut Site) -> (r: Result<
    SuccessResponse,
    ErrorKind,
>)
    ensures
        liked(*old(site), *data, *person, *final(site), r),
{
    let request = LikeRequest { data: *data, person: person.clone(), local_site: site.local_site };
    let mut state = LikeState::Start;
    let mut event = LikeEvent::Started;
    loop
        invariant
            request.data == *data,
            request.person == *person,
            underway(*old(site), request, state, event, *site),
        decreases steps_left(state),
    {
        let (following, action) = step(&request, state, event);
        match action {
            LikeAction::Respond(r) => {
                return r;
            },
            other => {
                event = site.perform(other);
                state = following;
            },
        }
    }
}

/// An upvote submitted twice in a row counts once: the second submission
/// succeeds as the first did and leaves the votes as the first left them,
/// with one row for the pair, and an upvote in it.
pub proof fn law_upvote_twice(
    s0: Site,
    s1: Site,
    s2: Site,
    post_id: PostId,
    person: Person,
    r1: Result<SuccessResponse, ErrorKind>,
    r2: Result<SuccessResponse, ErrorKind>,
    rows: Seq<PostLike>,
)
    requires
        liked(s0, CreatePostLike { post_id, score: 1 }, person, s1, r1),
        liked(s1, CreatePostLike { post_id, score: 1 }, person, s2, r2),
        r1 is Ok,
        well_formed_rows(rows),
        votes_of(rows) == s2.likes@,
    ensures
        r2 is Ok,
        s2.likes@ == s1.likes@,
        s2.likes@.dom().contains((post_id, person.id)),
        s2.likes@[(post_id, person.id)] == 1,
        row_count(rows, (post_id, person.id)) == 1,
{
    assert(s2.likes@ =~= s1.likes@);
    lemma_row_count(rows, (post_id, person.id));
}

/// An upvote followed by a neutral vote is retracted: no row is left for
/// the pair.
pub proof fn law_vote_retracted(
    s0: Site,
    s1: Site,
    s2: Site,
    post_id: PostId,
    person: Person,
    r1: Result<SuccessResponse, ErrorKind>,
    r2: Result<SuccessResponse, ErrorKind>,
    rows: Seq<PostLike>,
)
    requires
        liked(s0, CreatePostLike { post_id, score: 1 }, person, s1, r1),
        liked(s1, CreatePostLike { post_id, score: 0 }, person, s2, r2),
        r1 is Ok,
        well_formed_rows(rows),
        votes_of(rows) == s2.likes@,
    ensures
        r2 is Ok,
        !s2.likes@.dom().contains((post_id, person.id)),
        row_count(rows, (post_id, person.id)) == 0,
{
    lemma_row_count(rows, (post_id, person.id));
}

/// An upvote followed by a downvote, on a site that takes downvotes, is
/// flipped: one row is left for the pair, and a downvote in it.
pub proof fn law_vote_flipped(
    s0: Site,
    s1: Site,
    s2: Site,
    post_id: PostId,
    person: Person,
    r1: Result<SuccessResponse, ErrorKind>,
    r2: Result<SuccessResponse, ErrorKind>,
    rows: Seq<PostLike>,
)
    requires
        liked(s0, CreatePostLike { post_id, score: 1 }, person, s1, r1),
        liked(s1, CreatePostLike { post_id, score: -1i16 }, person, s2, r2),
        r1 is Ok,
        s0.local_site.enable_downvotes,
        well_formed_rows(rows),
        votes_of(rows) == s2.likes@,
    ensures
        r2 is Ok,
        s2.likes@.dom().contains((post_id, person.id)),
        s2.likes@[(post_id, person.id)] == -1,
        row_count(rows, (post_id, person.id)) == 1,
{
    lemma_row_count(rows, (post_id, person.id));
}

/// Where downvotes are switched off, a downvote is refused and the site,
/// the earlier vote of the pair included, stays as it was.
pub proof fn law_downvote_refused(
    before: Site,
    after: Site,
    post_id: PostId,
    person: Person,
    r: Result<SuccessResponse, ErrorKind>,
)
    requires
        liked(before, CreatePostLike { post_id, score: -1i16 }, person, after, r),
        !before.local_site.enable_downvotes,
    ensures
        r == Err::<SuccessResponse, ErrorKind>(ErrorKind::DownvotesDisabled),
        after == before,
        after.likes@ == before.likes@,
{
}

/// A downvote on a post of an active community, by a person who is not
/// banned from it, on a site that takes downvotes, succeeds: it leaves one
/// row for the pair with the downvote in it, and appends to the outbox one
/// event that names the post, the person, the community and the score.
pub proof fn law_downvote_delivered(
    before: Site,
    after: Site,
    post: Post,
    person: Person,
    community: Community,
    r: Result<SuccessResponse, ErrorKind>,
    rows: Seq<PostLike>,
)
    requires
        liked(before, CreatePostLike { post_id: post.id, score: -1i16 }, person, after, r),
        before.local_site.enable_downvotes,
        before.post(post.id) == Some(post),
        before.community(post.community_id) == Some(community),
        !community.deleted && !community.removed,
        !before.banned(person.id, post.community_id),
        well_formed_rows(rows),
        votes_of(rows) == after.likes@,
    ensures
        r == Ok::<SuccessResponse, ErrorKind>(SuccessResponse { success: true }),
        after.likes@.dom().contains((post.id, person.id)),
        after.likes@[(post.id, person.id)] == -1,
        row_count(rows, (post.id, person.id)) == 1,
        after.outbox@ == before.outbox@.push(
            SendActivityData::LikePostOrComment(post.ap_id, person, community, -1i16),
        ),
{
    lemma_row_count(rows, (post.id, person.id));
}

} // verus!
