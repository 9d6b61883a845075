use vstd::prelude::*;
use crate::error::ErrorKind;
use crate::page::{find_actor, group_of, AttributedTo, Page, PersonOrGroupType};
use crate::records::Community;
use crate::seqs::{
    first_where, lemma_first_where_found, lemma_first_where_index, lemma_first_where_none,
};
use crate::site::Site;
use crate::uri::Uri;

verus! {

/// The search for the community that owns a post, between two lookups.
///
/// A post that is attributed to its creator alone is owned by the first
/// entry of its addressing list that resolves to a community. A post
/// that is attributed to a pair of actors is owned by the group of the pair.
#[derive(Debug)]
pub struct CommunityResolver {
    /// The identities to try, in order.
    pub candidates: Vec<Uri>,
    /// How many of them have been asked for.
    pub next: usize,
    /// Whether the one candidate is the group that the attribution names, so
    /// that a failed lookup ends the search.
    pub direct: bool,
    /// The community that the post says it is meant for.
    pub audience: Option<Uri>,
    /// Whether the search has ended.
    pub finished: bool,
}

/// The mathematical content of a [`CommunityResolver`].
pub struct ResolverView {
    pub candidates: Seq<Uri>,
    pub next: int,
    pub direct: bool,
    pub audience: Option<Uri>,
    pub finished: bool,
}

impl View for CommunityResolver {
    type V = ResolverView;

    open spec fn view(&self) -> ResolverView {
        ResolverView {
            candidates: self.candidates@,
            next: self.next as int,
            direct: self.direct,
            audience: self.audience,
            finished: self.finished,
        }
    }
}

/// What the search asks of its surroundings.
#[derive(Debug)]
pub enum ResolveAction {
    /// Fetch the community with this identity, and come back with the
    /// outcome.
    Dereference(Uri),
    /// The search has ended with this result.
    Done(Result<Community, ErrorKind>),
}

/// A community that was found is the owner unless the audience names
/// another one.
pub open spec fn audience_checked(audience: Option<Uri>, community: Community) -> Result<
    Community,
    ErrorKind,
> {
    if audience matches Some(a) && a@ != community.actor_id@ {
        Err(ErrorKind::AudienceMismatch)
    } else {
        Ok(community)
    }
}

/// Holds the community that was found against the audience of the post.
pub fn verify_community_matches(audience: &Option<Uri>, community: Community) -> (r: Result<
    Community,
    ErrorKind,
>)
    ensures
        r == audience_checked(*audience, community),
{
    match audience {
        Some(a) => {
            if !a.same(&community.actor_id) {
                return Err(ErrorKind::AudienceMismatch);
            }
            Ok(community)
        },
        None => Ok(community),
    }
}

/// The end of a search.
pub open spec fn ended(r: ResolverView, result: Result<Community, ErrorKind>) -> (
    ResolverView,
    ResolveAction,
) {
    (ResolverView { finished: true, ..r }, ResolveAction::Done(result))
}

/// The next lookup of a scan, or its end where no candidate is left.
pub open spec fn asks(r: ResolverView) -> (ResolverView, ResolveAction) {
    if 0 <= r.next < r.candidates.len() {
        (ResolverView { next: r.next + 1, ..r }, ResolveAction::Dereference(r.candidates[r.next]))
    } else {
        ended(r, Err(ErrorKind::NoCommunityFoundInAddressing))
    }
}

/// How a search goes on when a lookup has been answered: a community ends
/// it, after the audience check; a failure ends it where the candidate was
/// the named group, and is passed over in a scan.
pub open spec fn resumed(r: ResolverView, answer: Result<Community, ErrorKind>) -> (
    ResolverView,
    ResolveAction,
) {
    if r.finished {
        ended(r, Err(ErrorKind::UnexpectedEvent))
    } else {
        match answer {
            Ok(community) => ended(r, audience_checked(r.audience, community)),
            Err(e) => if r.direct {
                ended(r, Err(e))
            } else {
                asks(r)
            },
        }
    }
}

/// How the search for the owner of `page` begins.
pub open spec fn begun(page: Page) -> (ResolverView, ResolveAction) {
    match page.attributed_to {
        AttributedTo::Lemmy(_) => asks(
            ResolverView {
                candidates: page.to@ + page.cc@,
                next: 0,
                direct: false,
                audience: page.audience,
                finished: false,
            },
        ),
        AttributedTo::Peertube(p) => match group_of(p@) {
            Ok(id) => (
                ResolverView {
                    candidates: seq![id],
                    next: 1,
                    direct: true,
                    audience: page.audience,
                    finished: false,
                },
                ResolveAction::Dereference(id),
            ),
            Err(e) => ended(
                ResolverView {
                    candidates: Seq::empty(),
                    next: 0,
                    direct: true,
                    audience: page.audience,
                    finished: false,
                },
                Err(e),
            ),
        },
    }
}

/// The community that owns `page` on `site`.
///
/// For a post attributed to its creator alone it is the first entry of `to`
/// followed by `cc` that resolves to a community; entries that do not
/// resolve are passed over. For a post attributed to a pair of actors it is
/// the group of the pair, and there a failed lookup is the result. A
/// community that the audience of the post does not name is refused.
pub open spec fn resolved(page: Page, site: Site) -> Result<Community, ErrorKind> {
    match page.attributed_to {
        AttributedTo::Lemmy(_) => match first_where(
            page.to@ + page.cc@,
            |u: Uri| site.community_by_actor_id(u@) is Some,
        ) {
            Some(u) => audience_checked(page.audience, site.community_by_actor_id(u@)->0),
            None => Err(ErrorKind::NoCommunityFoundInAddressing),
        },
        AttributedTo::Peertube(p) => match group_of(p@) {
            Ok(id) => match site.community_by_actor_id(id@) {
                Some(community) => audience_checked(page.audience, community),
                None => Err(ErrorKind::UpstreamDereferenceFailed),
            },
            Err(e) => Err(e),
        },
    }
}

fn copy_uris(from: &Vec<Uri>, into: &mut Vec<Uri>)
    ensures
        final(into)@ == old(into)@ + from@,
{
    let mut i: usize = 0;
    while i < from.len()
        invariant
            i <= from@.len(),
            into@ == old(into)@ + from@.subrange(0, i as int),
        decreases from@.len() - i,
    {
        into.push(from[i].clone());
        assert(into@ =~= old(into)@ + from@.subrange(0, i + 1));
        i += 1;
    }
    assert(from@.subrange(0, from@.len() as int) =~= from@);
}

fn clone_uri(uri: &Option<Uri>) -> (r: Option<Uri>)
    ensures
        r == *uri,
{
    match uri {
        Some(u) => Some(u.clone()),
        None => None,
    }
}

impl CommunityResolver {
    fn end(self, result: Result<Community, ErrorKind>) -> (out: (CommunityResolver, ResolveAction))
        ensures
            (out.0@, out.1) == ended(self@, result),
    {
        let mut resolver = self;
        resolver.finished = true;
        (resolver, ResolveAction::Done(result))
    }

    fn ask(self) -> (out: (CommunityResolver, ResolveAction))
        ensures
            (out.0@, out.1) == asks(self@),
    {
        if self.next < self.candidates.len() {
            let uri = self.candidates[self.next].clone();
            let mut resolver = self;
            resolver.next = resolver.next + 1;
            (resolver, ResolveAction::Dereference(uri))
        } else {
            self.end(Err(ErrorKind::NoCommunityFoundInAddressing))
        }
    }

    /// Takes the outcome of the lookup that was asked for last, and says what
    /// is asked next or how the search ends.
    pub fn resume(self, answer: Result<Community, ErrorKind>) -> (out: (CommunityResolver, ResolveAction))
        ensures
            (out.0@, out.1) == resumed(self@, answer),
    {
        if self.finished {
            return self.end(Err(ErrorKind::UnexpectedEvent));
        }
        match answer {
            Ok(community) => {
                let checked = verify_community_matches(&self.audience, community);
                self.end(checked)
            },
            Err(e) => {
                if self.direct {
                    self.end(Err(e))
                } else {
                    self.ask()
                }
            },
        }
    }
}

/// What holds of a search on `site` between two lookups.
spec fn searching(page: Page, site: Site, r: ResolverView, action: ResolveAction) -> bool {
    match action {
        ResolveAction::Done(result) => result == resolved(page, site),
        ResolveAction::Dereference(uri) => {
            &&& !r.finished
            &&& 1 <= r.next <= r.candidates.len()
            &&& uri == r.candidates[r.next - 1]
            &&& r.audience == page.audience
            &&& match page.attributed_to {
                AttributedTo::Lemmy(_) => {
                    &&& !r.direct
                    &&& r.candidates == page.to@ + page.cc@
                    &&& forall|j: int|
                        0 <= j < r.next - 1 ==> site.community_by_actor_id(
                            (#[trigger] r.candidates[j])@,
                        ) is None
                },
                AttributedTo::Peertube(p) => r.direct && group_of(p@) == Ok::<Uri, ErrorKind>(uri),
            }
        },
    }
}

/// How many lookups a search may still ask for, the outstanding one
/// included.
pub open spec fn lookups_left(r: ResolverView, action: ResolveAction) -> int {
    match action {
        ResolveAction::Done(_) => 0,
        ResolveAction::Dereference(_) => if r.next < r.candidates.len() {
            r.candidates.len() - r.next + 1
        } else {
            1
        },
    }
}

/// A whole search, with each lookup answered by `answers`: the identities
/// that it asks for, in order, and its result.
pub open spec fn search(
    r: ResolverView,
    action: ResolveAction,
    answers: spec_fn(Uri) -> Result<Community, ErrorKind>,
) -> (Seq<Uri>, Result<Community, ErrorKind>)
    decreases lookups_left(r, action),
{
    match action {
        ResolveAction::Done(result) => (Seq::empty(), result),
        ResolveAction::Dereference(uri) => {
            let following = resumed(r, answers(uri));
            let rest = search(following.0, following.1, answers);
            (seq![uri] + rest.0, rest.1)
        },
    }
}

impl Page {
    /// Begins the search for the community that owns this post.
    pub fn resolve_community(&self) -> (out: (CommunityResolver, ResolveAction))
        ensures
            (out.0@, out.1) == begun(*self),
    {
        match &self.attributed_to {
            AttributedTo::Lemmy(_) => {
                let mut candidates: Vec<Uri> = Vec::new();
                copy_uris(&self.to, &mut candidates);
                copy_uris(&self.cc, &mut candidates);
                assert(candidates@ =~= self.to@ + self.cc@);
                let resolver = CommunityResolver {
                    candidates,
                    next: 0,
                    direct: false,
                    audience: clone_uri(&self.audience),
                    finished: false,
                };
                resolver.ask()
            },
            AttributedTo::Peertube(p) => {
                match find_actor(p, PersonOrGroupType::Group) {
                    Some(id) => {
                        let mut candidates: Vec<Uri> = Vec::new();
                        candidates.push(id.clone());
                        assert(candidates@ =~= seq![id]);
                        let resolver = CommunityResolver {
                            candidates,
                            next: 1,
                            direct: true,
                            audience: clone_uri(&self.audience),
                            finished: false,
                        };
                        (resolver, ResolveAction::Dereference(id))
                    },
                    None => {
                        let resolver = CommunityResolver {
                            candidates: Vec::new(),
                            next: 0,
                            direct: true,
                            audience: clone_uri(&self.audience),
                            finished: false,
                        };
                        resolver.end(Err(ErrorKind::MissingGroup))
                    },
                }
            },
        }
    }

    /// The community that owns this post among those that `site` knows: runs
    /// the search to its end, with each lookup answered by the site.
    pub fn community(&self, site: &Site) -> (r: Result<Community, ErrorKind>)
        ensures
            r == resolved(*self, *site),
    {
        let ghost p = |u: Uri| site.community_by_actor_id(u@) is Some;
        let (mut resolver, mut action) = self.resolve_community();
        proof {
            if action is Done && self.attributed_to is Lemmy {
                lemma_first_where_none(self.to@ + self.cc@, p);
            }
        }
        loop
            invariant
                p == (|u: Uri| site.community_by_actor_id(u@) is Some),
                searching(*self, *site, resolver@, action),
            decreases lookups_left(resolver@, action),
        {
            match action {
                ResolveAction::Done(r) => {
                    return r;
                },
                ResolveAction::Dereference(uri) => {
                    let ghost asked = resolver@;
                    let answer = site.dereference_community(&uri);
                    let (following, then) = resolver.resume(answer);
                    proof {
                        if self.attributed_to is Lemmy {
                            if answer is Ok {
                                lemma_first_where_found(asked.candidates, p, asked.next - 1);
                            } else if then is Done {
                                lemma_first_where_none(asked.candidates, p);
                            }
                        }
                    }
                    resolver = following;
                    action = then;
                },
            }
        }
    }
}

proof fn lemma_scan_until_found(
    r: ResolverView,
    answers: spec_fn(Uri) -> Result<Community, ErrorKind>,
    k: int,
)
    requires
        !r.finished,
        !r.direct,
        0 <= r.next <= k < r.candidates.len(),
        forall|j: int| r.next <= j < k ==> answers(#[trigger] r.candidates[j]) is Err,
        answers(r.candidates[k]) is Ok,
    ensures
        search(asks(r).0, asks(r).1, answers) == (
            r.candidates.subrange(r.next, k + 1),
            audience_checked(r.audience, answers(r.candidates[k])->Ok_0),
        ),
    decreases k - r.next,
{
    let asked = asks(r);
    let uri = r.candidates[r.next];
    assert(asked.1 == ResolveAction::Dereference(uri));
    let following = resumed(asked.0, answers(uri));
    if r.next == k {
        assert(search(following.0, following.1, answers).0 =~= Seq::<Uri>::empty());
        assert(seq![uri] + Seq::<Uri>::empty() =~= r.candidates.subrange(r.next, k + 1));
    } else {
        assert(answers(r.candidates[r.next]) is Err);
        assert(following == asks(asked.0));
        lemma_scan_until_found(asked.0, answers, k);
        assert(seq![uri] + r.candidates.subrange(r.next + 1, k + 1) =~= r.candidates.subrange(
            r.next,
            k + 1,
        ));
    }
}

proof fn lemma_scan_exhausted(r: ResolverView, answers: spec_fn(Uri) -> Result<Community, ErrorKind>)
    requires
        !r.finished,
        !r.direct,
        0 <= r.next <= r.candidates.len(),
        forall|j: int| r.next <= j < r.candidates.len() ==> answers(#[trigger] r.candidates[j]) is Err,
    ensures
        search(asks(r).0, asks(r).1, answers) == (
            r.candidates.subrange(r.next, r.candidates.len() as int),
            Err::<Community, ErrorKind>(ErrorKind::NoCommunityFoundInAddressing),
        ),
    decreases r.candidates.len() - r.next,
{
    let asked = asks(r);
    if r.next == r.candidates.len() {
        assert(r.candidates.subrange(r.next, r.candidates.len() as int) =~= Seq::<Uri>::empty());
    } else {
        let uri = r.candidates[r.next];
        assert(answers(r.candidates[r.next]) is Err);
        let following = resumed(asked.0, answers(uri));
        assert(following == asks(asked.0));
        lemma_scan_exhausted(asked.0, answers);
        assert(seq![uri] + r.candidates.subrange(r.next + 1, r.candidates.len() as int)
            =~= r.candidates.subrange(r.next, r.candidates.len() as int));
    }
}

/// A scan stops at the first entry that resolves. For a post attributed to
/// its creator alone, where entry `k` of `to` followed by `cc` is the first
/// whose lookup succeeds, the search asks for the entries up to `k`, for
/// none after it, and its result is the community found there, held against
/// the audience.
pub proof fn law_scan_stops_at_first_success(
    page: Page,
    answers: spec_fn(Uri) -> Result<Community, ErrorKind>,
    k: int,
)
    requires
        page.attributed_to is Lemmy,
        0 <= k < (page.to@ + page.cc@).len(),
        forall|j: int| 0 <= j < k ==> answers(#[trigger] (page.to@ + page.cc@)[j]) is Err,
        answers((page.to@ + page.cc@)[k]) is Ok,
    ensures
        search(begun(page).0, begun(page).1, answers) == (
            (page.to@ + page.cc@).subrange(0, k + 1),
            audience_checked(page.audience, answers((page.to@ + page.cc@)[k])->Ok_0),
        ),
{
    let r = ResolverView {
        candidates: page.to@ + page.cc@,
        next: 0,
        direct: false,
        audience: page.audience,
        finished: false,
    };
    lemma_scan_until_found(r, answers, k);
}

/// A scan in which no entry resolves asks for every entry of `to` followed
/// by `cc`, in order, and finds no community.
pub proof fn law_scan_without_success(page: Page, answers: spec_fn(Uri) -> Result<Community, ErrorKind>)
    requires
        page.attributed_to is Lemmy,
        forall|j: int|
            0 <= j < (page.to@ + page.cc@).len() ==> answers(#[trigger] (page.to@ + page.cc@)[j]) is Err,
    ensures
        search(begun(page).0, begun(page).1, answers) == (
            page.to@ + page.cc@,
            Err::<Community, ErrorKind>(ErrorKind::NoCommunityFoundInAddressing),
        ),
{
    let r = ResolverView {
        candidates: page.to@ + page.cc@,
        next: 0,
        direct: false,
        audience: page.audience,
        finished: false,
    };
    lemma_scan_exhausted(r, answers);
    assert(r.candidates.subrange(0, r.candidates.len() as int) =~= r.candidates);
}

/// How a site answers a lookup: with the community that carries the
/// identity, or with the failure to fetch one.
pub open spec fn site_answer(site: Site, actor_id: Uri) -> Result<Community, ErrorKind> {
    match site.community_by_actor_id(actor_id@) {
        Some(community) => Ok(community),
        None => Err(ErrorKind::UpstreamDereferenceFailed),
    }
}

/// A search whose lookups a site answers ends with the owner that the site
/// has for the post.
pub proof fn law_search_on_site(page: Page, site: Site)
    ensures
        search(begun(page).0, begun(page).1, |u: Uri| site_answer(site, u)).1 == resolved(page, site),
{
    let answers = |u: Uri| site_answer(site, u);
    match page.attributed_to {
        AttributedTo::Lemmy(_) => {
            let candidates = page.to@ + page.cc@;
            let p = |u: Uri| site.community_by_actor_id(u@) is Some;
            let k = lemma_first_where_index(candidates, p);
            if k < candidates.len() {
                assert forall|j: int| 0 <= j < k implies answers(#[trigger] candidates[j]) is Err by {
                    assert(!p(candidates[j]));
                }
                law_scan_stops_at_first_success(page, answers, k);
            } else {
                assert forall|j: int| 0 <= j < candidates.len() implies answers(
                    #[trigger] candidates[j],
                ) is Err by {
                    assert(!p(candidates[j]));
                }
                law_scan_without_success(page, answers);
            }
        },
        AttributedTo::Peertube(_) => {
            reveal_with_fuel(search, 3);
        },
    }
}

/// On a site, the owner of a post attributed to its creator alone is the
/// community of the first entry of `to` followed by `cc` that the site
/// resolves, held against the audience.
pub proof fn law_first_resolving_entry_owns(page: Page, site: Site, k: int)
    requires
        page.attributed_to is Lemmy,
        0 <= k < (page.to@ + page.cc@).len(),
        forall|j: int|
            0 <= j < k ==> site.community_by_actor_id((#[trigger] (page.to@ + page.cc@)[j])@) is None,
        site.community_by_actor_id((page.to@ + page.cc@)[k]@) is Some,
    ensures
        resolved(page, site) == audience_checked(
            page.audience,
            site.community_by_actor_id((page.to@ + page.cc@)[k]@)->0,
        ),
{
    let p = |u: Uri| site.community_by_actor_id(u@) is Some;
    lemma_first_where_found(page.to@ + page.cc@, p, k);
}

/// A post whose audience names another community than the one that its
/// addressing resolves to is refused, although the resolution succeeds; one
/// whose audience names that community, or that has no audience, is owned
/// by it.
pub proof fn law_audience_must_match(page: Page, site: Site, community: Community)
    requires
        resolved(Page { audience: None, ..page }, site) == Ok::<Community, ErrorKind>(community),
    ensures
        resolved(page, site) == (if page.audience matches Some(a) && a@ != community.actor_id@ {
            Err::<Community, ErrorKind>(ErrorKind::AudienceMismatch)
        } else {
            Ok::<Community, ErrorKind>(community)
        }),
{
}

} // verus!
