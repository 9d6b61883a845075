use lemmy_apub::error::ErrorKind;
use lemmy_apub::like::{
    check_downvotes_enabled, like_post, step, vote_form, CreatePostLike, LikeAction, LikeEvent,
    LikeRequest, LikeState, SuccessResponse,
};
use lemmy_apub::likes::{PostLike, PostLikeForm, PostLikes};
use lemmy_apub::records::{
    Community, CommunityId, CommunityPersonBan, LocalSite, Person, PersonId, Post, PostId, PostRead,
    SendActivityData,
};
use lemmy_apub::site::Site;
use lemmy_apub::uri::Uri;

const P: PostId = PostId(55143);
const ACTOR: PersonId = PersonId(3);
const OTHER: PersonId = PersonId(4);
const C: CommunityId = CommunityId(7);

fn uri(text: &str) -> Uri {
    Uri::parse(text).unwrap()
}

fn tenforward() -> Community {
    Community {
        id: C,
        actor_id: uri("https://enterprise.lemmy.ml/c/tenforward"),
        deleted: false,
        removed: false,
    }
}

fn the_post() -> Post {
    Post { id: P, community_id: C, ap_id: uri("https://enterprise.lemmy.ml/post/55143"), locked: false }
}

fn site(enable_downvotes: bool) -> Site {
    let mut site = Site::new(LocalSite { enable_downvotes });
    site.communities.push(tenforward());
    site.posts.push(the_post());
    site
}

fn picard() -> Person {
    Person { id: ACTOR, actor_id: uri("https://enterprise.lemmy.ml/u/picard") }
}

fn riker() -> Person {
    Person { id: OTHER, actor_id: uri("https://enterprise.lemmy.ml/u/riker") }
}

fn vote(site: &mut Site, person: &Person, score: i16) -> Result<SuccessResponse, ErrorKind> {
    like_post(&CreatePostLike { post_id: P, score }, person, site)
}

fn request(score: i16, enable_downvotes: bool) -> LikeRequest {
    LikeRequest {
        data: CreatePostLike { post_id: P, score },
        person: picard(),
        local_site: LocalSite { enable_downvotes },
    }
}

#[test]
fn upvote_twice_leaves_one_row() {
    let mut site = site(true);
    assert!(vote(&mut site, &picard(), 1).is_ok());
    assert!(vote(&mut site, &picard(), 1).is_ok());
    assert_eq!(site.likes.rows(), vec![PostLike { post_id: P, person_id: ACTOR, score: 1 }]);
    assert_eq!(site.likes.score(ACTOR, P), 1);
}

#[test]
fn upvote_then_neutral_leaves_no_row() {
    let mut site = site(true);
    assert!(vote(&mut site, &picard(), 1).is_ok());
    assert!(vote(&mut site, &picard(), 0).is_ok());
    assert!(site.likes.rows().is_empty());
    assert_eq!(site.likes.score(ACTOR, P), 0);
}

#[test]
fn upvote_then_downvote_leaves_one_downvote() {
    let mut site = site(true);
    assert!(vote(&mut site, &picard(), 1).is_ok());
    assert!(vote(&mut site, &picard(), -1).is_ok());
    assert_eq!(site.likes.rows(), vec![PostLike { post_id: P, person_id: ACTOR, score: -1 }]);
}

#[test]
fn downvote_is_refused_where_downvotes_are_off() {
    let mut site = site(false);
    assert!(vote(&mut site, &picard(), 1).is_ok());
    let outbox = site.outbox.len();
    assert_eq!(vote(&mut site, &picard(), -1), Err(ErrorKind::DownvotesDisabled));
    assert_eq!(site.likes.rows(), vec![PostLike { post_id: P, person_id: ACTOR, score: 1 }]);
    assert_eq!(site.outbox.len(), outbox);
}

#[test]
fn downvote_end_to_end() {
    let mut site = site(true);
    assert_eq!(vote(&mut site, &picard(), -1), Ok(SuccessResponse { success: true }));
    assert_eq!(site.likes.rows(), vec![PostLike { post_id: P, person_id: ACTOR, score: -1 }]);
    assert_eq!(site.reads, vec![PostRead { post_id: P, person_id: ACTOR }]);
    assert_eq!(site.outbox.len(), 1);
    match &site.outbox[0] {
        SendActivityData::LikePostOrComment(object, actor, community, score) => {
            assert_eq!(object.as_str(), "https://enterprise.lemmy.ml/post/55143");
            assert_eq!(actor.id, ACTOR);
            assert_eq!(actor.actor_id.as_str(), "https://enterprise.lemmy.ml/u/picard");
            assert_eq!(community.id, C);
            assert_eq!(community.actor_id.as_str(), "https://enterprise.lemmy.ml/c/tenforward");
            assert_eq!(*score, -1);
        }
    }
}

#[test]
fn votes_of_two_persons_do_not_mix() {
    let mut site = site(true);
    assert!(vote(&mut site, &picard(), 1).is_ok());
    assert!(vote(&mut site, &riker(), -1).is_ok());
    assert!(vote(&mut site, &picard(), 0).is_ok());
    assert_eq!(site.likes.rows(), vec![PostLike { post_id: P, person_id: OTHER, score: -1 }]);
    assert_eq!(site.reads.len(), 2);
    assert_eq!(site.outbox.len(), 3);
}

#[test]
fn score_that_is_no_vote_retracts_and_is_passed_on() {
    let mut site = site(true);
    assert!(vote(&mut site, &picard(), 1).is_ok());
    assert_eq!(vote(&mut site, &picard(), 5), Ok(SuccessResponse { success: true }));
    assert!(site.likes.rows().is_empty());
    match &site.outbox[1] {
        SendActivityData::LikePostOrComment(_, _, _, score) => assert_eq!(*score, 5),
    }
}

#[test]
fn neutral_vote_marks_read_and_is_passed_on() {
    let mut site = site(false);
    assert!(vote(&mut site, &picard(), 0).is_ok());
    assert!(site.likes.rows().is_empty());
    assert_eq!(site.reads, vec![PostRead { post_id: P, person_id: ACTOR }]);
    assert_eq!(site.outbox.len(), 1);
}

#[test]
fn read_mark_is_set_once() {
    let mut site = site(true);
    assert!(vote(&mut site, &picard(), 1).is_ok());
    assert!(vote(&mut site, &picard(), -1).is_ok());
    assert_eq!(site.reads, vec![PostRead { post_id: P, person_id: ACTOR }]);
}

#[test]
fn vote_on_a_missing_post_fails() {
    let mut site = site(true);
    let r = like_post(&CreatePostLike { post_id: PostId(1), score: 1 }, &picard(), &mut site);
    assert_eq!(r, Err(ErrorKind::PostNotFound));
    assert!(site.likes.rows().is_empty());
    assert!(site.reads.is_empty());
    assert!(site.outbox.is_empty());
}

#[test]
fn vote_of_a_banned_person_fails() {
    let mut site = site(true);
    assert!(vote(&mut site, &picard(), 1).is_ok());
    site.bans.push(CommunityPersonBan { community_id: C, person_id: ACTOR });
    assert_eq!(vote(&mut site, &picard(), 0), Err(ErrorKind::ActorBanned));
    assert_eq!(site.likes.score(ACTOR, P), 1);
    assert_eq!(site.outbox.len(), 1);
    assert!(vote(&mut site, &riker(), 1).is_ok());
}

#[test]
fn ban_from_another_community_does_not_count() {
    let mut site = site(true);
    site.bans.push(CommunityPersonBan { community_id: CommunityId(8), person_id: ACTOR });
    site.bans.push(CommunityPersonBan { community_id: C, person_id: OTHER });
    assert!(vote(&mut site, &picard(), 1).is_ok());
}

#[test]
fn vote_in_a_deleted_or_removed_community_fails() {
    let mut deleted = site(true);
    deleted.communities[0].deleted = true;
    assert_eq!(vote(&mut deleted, &picard(), 1), Err(ErrorKind::CommunityUnavailable));
    let mut removed = site(true);
    removed.communities[0].removed = true;
    assert_eq!(vote(&mut removed, &picard(), 1), Err(ErrorKind::CommunityUnavailable));
    let mut unknown = site(true);
    unknown.communities.clear();
    assert_eq!(vote(&mut unknown, &picard(), 1), Err(ErrorKind::CommunityUnavailable));
    assert!(unknown.likes.rows().is_empty());
}

#[test]
fn downvote_check_comes_before_the_post_is_read() {
    let mut site = site(false);
    let r = like_post(&CreatePostLike { post_id: PostId(1), score: -1 }, &picard(), &mut site);
    assert_eq!(r, Err(ErrorKind::DownvotesDisabled));
}

#[test]
fn check_downvotes_enabled_refuses_only_downvotes() {
    let off = LocalSite { enable_downvotes: false };
    let on = LocalSite { enable_downvotes: true };
    assert_eq!(check_downvotes_enabled(-1, &off), Err(ErrorKind::DownvotesDisabled));
    assert_eq!(check_downvotes_enabled(-1, &on), Ok(()));
    for score in [1, 0, -2, 5] {
        assert_eq!(check_downvotes_enabled(score, &off), Ok(()));
    }
}

#[test]
fn vote_form_is_there_for_votes_only() {
    let form = |score| vote_form(&CreatePostLike { post_id: P, score }, ACTOR);
    assert_eq!(form(1), Some(PostLikeForm { post_id: P, person_id: ACTOR, score: 1 }));
    assert_eq!(form(-1), Some(PostLikeForm { post_id: P, person_id: ACTOR, score: -1 }));
    for score in [0, 2, -2, i16::MAX, i16::MIN] {
        assert_eq!(form(score), None);
    }
}

#[test]
fn success_response_by_default_is_a_success() {
    assert!(SuccessResponse::default().success);
}

#[test]
fn step_asks_in_order() {
    let request = request(1, true);
    let (state, action) = step(&request, LikeState::Start, LikeEvent::Started);
    assert!(matches!(action, LikeAction::ReadPost(id) if id == P));
    let (state, action) = step(&request, state, LikeEvent::PostRead(Some(the_post())));
    assert!(matches!(action, LikeAction::CheckCommunityBan(p, c) if p == ACTOR && c == C));
    let (state, action) = step(&request, state, LikeEvent::BanChecked(false));
    assert!(matches!(action, LikeAction::CheckCommunityDeletedOrRemoved(c) if c == C));
    let (state, action) = step(&request, state, LikeEvent::CommunityChecked(false));
    match action {
        LikeAction::WriteVote { person_id, post_id, form } => {
            assert_eq!((person_id, post_id), (ACTOR, P));
            assert_eq!(form, Some(PostLikeForm { post_id: P, person_id: ACTOR, score: 1 }));
        }
        other => panic!("not a write: {:?}", other),
    }
    let (state, action) = step(&request, state, LikeEvent::VoteWritten);
    assert!(matches!(action, LikeAction::MarkPostAsRead(p, id) if p == ACTOR && id == P));
    let (state, action) = step(&request, state, LikeEvent::PostMarkedRead);
    assert!(matches!(action, LikeAction::ReadCommunity(c) if c == C));
    let (state, action) = step(&request, state, LikeEvent::CommunityRead(Some(tenforward())));
    match action {
        LikeAction::SubmitActivity(SendActivityData::LikePostOrComment(object, actor, community, score)) => {
            assert_eq!(object.as_str(), "https://enterprise.lemmy.ml/post/55143");
            assert_eq!(actor.id, ACTOR);
            assert_eq!(community.id, C);
            assert_eq!(score, 1);
        }
        other => panic!("not a submission: {:?}", other),
    }
    let (state, action) = step(&request, state, LikeEvent::ActivitySubmitted);
    assert!(matches!(state, LikeState::Finished));
    assert!(matches!(action, LikeAction::Respond(Ok(SuccessResponse { success: true }))));
}

#[test]
fn step_writes_no_row_for_a_neutral_vote() {
    let request = request(0, true);
    let (_, action) = step(&request, LikeState::AwaitingCommunityCheck(the_post()), LikeEvent::CommunityChecked(false));
    assert!(matches!(action, LikeAction::WriteVote { form: None, .. }));
}

#[test]
fn step_ends_on_each_refusal() {
    let ended = |state, event, request: &LikeRequest| match step(request, state, event) {
        (LikeState::Finished, LikeAction::Respond(Err(kind))) => kind,
        other => panic!("the run goes on: {:?}", other),
    };
    assert_eq!(
        ended(LikeState::Start, LikeEvent::Started, &request(-1, false)),
        ErrorKind::DownvotesDisabled
    );
    let r = request(1, true);
    assert_eq!(ended(LikeState::AwaitingPost, LikeEvent::PostRead(None), &r), ErrorKind::PostNotFound);
    assert_eq!(
        ended(LikeState::AwaitingBanCheck(the_post()), LikeEvent::BanChecked(true), &r),
        ErrorKind::ActorBanned
    );
    assert_eq!(
        ended(LikeState::AwaitingCommunityCheck(the_post()), LikeEvent::CommunityChecked(true), &r),
        ErrorKind::CommunityUnavailable
    );
    assert_eq!(
        ended(LikeState::AwaitingCommunity(the_post()), LikeEvent::CommunityRead(None), &r),
        ErrorKind::CommunityUnavailable
    );
}

#[test]
fn step_passes_a_failure_on() {
    let ended = |state| match step(&request(1, true), state, LikeEvent::Failed(ErrorKind::UpstreamDereferenceFailed)) {
        (LikeState::Finished, LikeAction::Respond(Err(kind))) => kind,
        other => panic!("the run goes on: {:?}", other),
    };
    assert_eq!(ended(LikeState::AwaitingPost), ErrorKind::UpstreamDereferenceFailed);
    assert_eq!(ended(LikeState::AwaitingBanCheck(the_post())), ErrorKind::UpstreamDereferenceFailed);
    assert_eq!(ended(LikeState::AwaitingCommunityCheck(the_post())), ErrorKind::UpstreamDereferenceFailed);
    assert_eq!(ended(LikeState::AwaitingReadMark(the_post())), ErrorKind::UpstreamDereferenceFailed);
    assert_eq!(ended(LikeState::AwaitingCommunity(the_post())), ErrorKind::UpstreamDereferenceFailed);
    assert_eq!(ended(LikeState::AwaitingSubmission), ErrorKind::UpstreamDereferenceFailed);
}

#[test]
fn step_reports_a_failed_write_as_such() {
    let (state, action) = step(
        &request(1, true),
        LikeState::AwaitingVoteWrite(the_post()),
        LikeEvent::Failed(ErrorKind::UpstreamDereferenceFailed),
    );
    assert!(matches!(state, LikeState::Finished));
    assert!(matches!(action, LikeAction::Respond(Err(ErrorKind::VoteWriteFailed))));
}

#[test]
fn step_refuses_an_answer_to_another_question() {
    let ended = |state, event| match step(&request(1, true), state, event) {
        (LikeState::Finished, LikeAction::Respond(Err(kind))) => kind,
        other => panic!("the run goes on: {:?}", other),
    };
    assert_eq!(ended(LikeState::Start, LikeEvent::VoteWritten), ErrorKind::UnexpectedEvent);
    assert_eq!(
        ended(LikeState::Start, LikeEvent::Failed(ErrorKind::PostNotFound)),
        ErrorKind::UnexpectedEvent
    );
    assert_eq!(ended(LikeState::AwaitingPost, LikeEvent::BanChecked(false)), ErrorKind::UnexpectedEvent);
    assert_eq!(
        ended(LikeState::AwaitingVoteWrite(the_post()), LikeEvent::PostMarkedRead),
        ErrorKind::UnexpectedEvent
    );
    assert_eq!(ended(LikeState::AwaitingSubmission, LikeEvent::Started), ErrorKind::UnexpectedEvent);
    assert_eq!(ended(LikeState::Finished, LikeEvent::ActivitySubmitted), ErrorKind::UnexpectedEvent);
    assert_eq!(
        ended(LikeState::Finished, LikeEvent::Failed(ErrorKind::PostNotFound)),
        ErrorKind::UnexpectedEvent
    );
}

#[test]
fn perform_writes_a_vote_as_a_whole_or_not_at_all() {
    let mut site = site(true);
    assert!(vote(&mut site, &picard(), 1).is_ok());
    let event = site.perform(LikeAction::WriteVote {
        person_id: ACTOR,
        post_id: P,
        form: Some(PostLikeForm { post_id: P, person_id: ACTOR, score: 2 }),
    });
    assert!(matches!(event, LikeEvent::Failed(ErrorKind::VoteWriteFailed)));
    assert_eq!(site.likes.score(ACTOR, P), 1);
    let event = site.perform(LikeAction::WriteVote {
        person_id: ACTOR,
        post_id: P,
        form: Some(PostLikeForm { post_id: P, person_id: OTHER, score: 1 }),
    });
    assert!(matches!(event, LikeEvent::Failed(ErrorKind::VoteWriteFailed)));
    assert_eq!(site.likes.rows().len(), 1);
    let event = site.perform(LikeAction::Respond(Ok(SuccessResponse { success: true })));
    assert!(matches!(event, LikeEvent::Failed(ErrorKind::UnexpectedEvent)));
}

#[test]
fn post_likes_replace_and_remove() {
    let mut likes = PostLikes::new();
    assert!(likes.rows().is_empty());
    assert_eq!(likes.remove(ACTOR, P), 0);
    let form = |person_id, score| PostLikeForm { post_id: P, person_id, score };
    assert_eq!(likes.like(&form(ACTOR, 1)), Ok(PostLike { post_id: P, person_id: ACTOR, score: 1 }));
    assert_eq!(likes.like(&form(OTHER, -1)), Ok(PostLike { post_id: P, person_id: OTHER, score: -1 }));
    assert_eq!(likes.like(&form(ACTOR, -1)), Ok(PostLike { post_id: P, person_id: ACTOR, score: -1 }));
    assert_eq!(
        likes.rows(),
        vec![
            PostLike { post_id: P, person_id: ACTOR, score: -1 },
            PostLike { post_id: P, person_id: OTHER, score: -1 }
        ]
    );
    assert_eq!(likes.score(ACTOR, P), -1);
    assert_eq!(likes.score(ACTOR, PostId(1)), 0);
    assert_eq!(likes.remove(ACTOR, P), 1);
    assert_eq!(likes.remove(ACTOR, P), 0);
    assert_eq!(likes.rows(), vec![PostLike { post_id: P, person_id: OTHER, score: -1 }]);
}

#[test]
fn post_likes_refuse_what_is_no_vote() {
    let mut likes = PostLikes::new();
    for score in [0, 2, -2] {
        assert_eq!(
            likes.like(&PostLikeForm { post_id: P, person_id: ACTOR, score }),
            Err(ErrorKind::VoteWriteFailed)
        );
    }
    assert!(likes.rows().is_empty());
}
