use vstd::prelude::*;
use crate::error::ErrorKind;
use crate::records::{PersonId, PostId};

verus! {

/// One stored vote: `person_id` voted `score` on `post_id`.
#[derive(Clone, Copy, Debug, PartialEq, Eq, Structural)]
pub struct PostLike {
    pub post_id: PostId,
    pub person_id: PersonId,
    pub score: i16,
}

/// A vote to be written.
#[derive(Clone, Copy, Debug, PartialEq, Eq, Structural)]
pub struct PostLikeForm {
    pub post_id: PostId,
    pub person_id: PersonId,
    pub score: i16,
}

/// The pair that a vote row is kept under.
pub open spec fn row_key(row: PostLike) -> (PostId, PersonId) {
    (row.post_id, row.person_id)
}

/// A score that a row may store: an upvote or a downvote, never zero.
pub open spec fn is_vote(score: int) -> bool {
    score == 1 || score == -1
}

/// Whether some row is kept under `key`.
pub open spec fn has_row(rows: Seq<PostLike>, key: (PostId, PersonId)) -> bool {
    exists|i: int| 0 <= i < rows.len() && #[trigger] row_key(rows[i]) == key
}

/// The place of a row kept under `key`.
pub open spec fn row_index(rows: Seq<PostLike>, key: (PostId, PersonId)) -> int {
    choose|i: int| 0 <= i < rows.len() && #[trigger] row_key(rows[i]) == key
}

/// No two rows are kept under one pair, and every row stores a vote.
pub open spec fn well_formed_rows(rows: Seq<PostLike>) -> bool {
    &&& forall|i: int, j: int|
        0 <= i < j < rows.len() ==> #[trigger] row_key(rows[i]) != #[trigger] row_key(rows[j])
    &&& forall|i: int| 0 <= i < rows.len() ==> is_vote(#[trigger] rows[i].score as int)
}

/// The votes that the rows record: for each pair that has a row, its score.
pub open spec fn votes_of(rows: Seq<PostLike>) -> Map<(PostId, PersonId), i16> {
    Map::new(
        |key: (PostId, PersonId)| has_row(rows, key),
        |key: (PostId, PersonId)| rows[row_index(rows, key)].score,
    )
}

/// The score that `votes` holds for `key`; no row means a neutral 0.
pub open spec fn score_of(votes: Map<(PostId, PersonId), i16>, key: (PostId, PersonId)) -> int {
    if votes.dom().contains(key) {
        votes[key] as int
    } else {
        0
    }
}

proof fn lemma_votes_of_remove(rows: Seq<PostLike>, i: int)
    requires
        well_formed_rows(rows),
        0 <= i < rows.len(),
    ensures
        well_formed_rows(rows.remove(i)),
        votes_of(rows.remove(i)) == votes_of(rows).remove(row_key(rows[i])),
{
    let after = rows.remove(i);
    let gone = row_key(rows[i]);
    assert forall|key: (PostId, PersonId)| has_row(after, key) == (has_row(rows, key) && key != gone) by {
        if has_row(after, key) {
            let j = row_index(after, key);
            let k = if j < i { j } else { j + 1 };
            assert(row_key(rows[k]) == key);
        }
        if has_row(rows, key) && key != gone {
            let k = row_index(rows, key);
            let j = if k < i { k } else { k - 1 };
            assert(row_key(after[j]) == key);
        }
    }
    assert forall|key: (PostId, PersonId)| has_row(after, key) implies after[row_index(after, key)].score
        == rows[row_index(rows, key)].score by {
        let j = row_index(after, key);
        let k = if j < i { j } else { j + 1 };
        assert(row_key(rows[k]) == key);
        assert(row_index(rows, key) == k);
    }
    assert(votes_of(after) =~= votes_of(rows).remove(gone));
}

proof fn lemma_votes_of_update(rows: Seq<PostLike>, i: int, row: PostLike)
    requires
        well_formed_rows(rows),
        0 <= i < rows.len(),
        row_key(row) == row_key(rows[i]),
        is_vote(row.score as int),
    ensures
        well_formed_rows(rows.update(i, row)),
        votes_of(rows.update(i, row)) == votes_of(rows).insert(row_key(row), row.score),
{
    let after = rows.update(i, row);
    assert forall|j: int| 0 <= j < rows.len() implies row_key(#[trigger] after[j]) == row_key(rows[j]) by {}
    assert forall|key: (PostId, PersonId)| has_row(after, key) == has_row(rows, key) by {
        if has_row(after, key) {
            let j = row_index(after, key);
            assert(row_key(rows[j]) == key);
        }
        if has_row(rows, key) {
            let j = row_index(rows, key);
            assert(row_key(after[j]) == key);
        }
    }
    assert(row_key(rows[i]) == row_key(row));
    assert(has_row(rows, row_key(row)));
    assert forall|key: (PostId, PersonId)| has_row(after, key) implies after[row_index(after, key)].score == (
    if key == row_key(row) {
        row.score
    } else {
        rows[row_index(rows, key)].score
    }) by {
        let j = row_index(after, key);
        assert(row_key(rows[j]) == key);
        assert(row_index(rows, key) == j);
    }
    assert(votes_of(after) =~= votes_of(rows).insert(row_key(row), row.score));
}

proof fn lemma_votes_of_push(rows: Seq<PostLike>, row: PostLike)
    requires
        well_formed_rows(rows),
        !has_row(rows, row_key(row)),
        is_vote(row.score as int),
    ensures
        well_formed_rows(rows.push(row)),
        votes_of(rows.push(row)) == votes_of(rows).insert(row_key(row), row.score),
{
    let after = rows.push(row);
    assert(row_key(after[rows.len() as int]) == row_key(row));
    assert forall|key: (PostId, PersonId)| has_row(after, key) == (has_row(rows, key) || key == row_key(row)) by {
        if has_row(after, key) && key != row_key(row) {
            let j = row_index(after, key);
            assert(row_key(rows[j]) == key);
        }
        if has_row(rows, key) {
            let j = row_index(rows, key);
            assert(row_key(after[j]) == key);
        }
    }
    assert forall|key: (PostId, PersonId)| has_row(after, key) implies after[row_index(after, key)].score == (
    if key == row_key(row) {
        row.score
    } else {
        rows[row_index(rows, key)].score
    }) by {
        let j = row_index(after, key);
        if key == row_key(row) {
            if j < rows.len() {
                assert(row_key(rows[j]) == key);
            }
        } else {
            assert(row_key(rows[j]) == key);
            assert(row_index(rows, key) == j);
        }
    }
    assert(votes_of(after) =~= votes_of(rows).insert(row_key(row), row.score));
}

/// How many rows are kept under `key`.
pub open spec fn row_count(rows: Seq<PostLike>, key: (PostId, PersonId)) -> nat
    decreases rows.len(),
{
    if rows.len() == 0 {
        0
    } else {
        row_count(rows.drop_last(), key) + if row_key(rows.last()) == key {
            1nat
        } else {
            0nat
        }
    }
}

/// In well-formed rows a pair has one row where it has a vote and none
/// where it has not: votes are replaced, never accumulated.
pub proof fn lemma_row_count(rows: Seq<PostLike>, key: (PostId, PersonId))
    requires
        well_formed_rows(rows),
    ensures
        row_count(rows, key) == (if votes_of(rows).dom().contains(key) { 1nat } else { 0nat }),
        votes_of(rows).dom().contains(key) ==> is_vote(votes_of(rows)[key] as int),
    decreases rows.len(),
{
    if rows.len() == 0 {
    } else {
        let rest = rows.drop_last();
        let n = rest.len() as int;
        assert forall|i: int| 0 <= i < n implies rest[i] == rows[i] by {}
        assert(well_formed_rows(rest)) by {
            assert forall|i: int, j: int| 0 <= i < j < rest.len() implies #[trigger] row_key(rest[i])
                != #[trigger] row_key(rest[j]) by {
                assert(row_key(rows[i]) != row_key(rows[j]));
            }
            assert forall|i: int| 0 <= i < rest.len() implies is_vote(#[trigger] rest[i].score as int) by {
                assert(is_vote(rows[i].score as int));
            }
        }
        lemma_row_count(rest, key);
        if row_key(rows.last()) == key {
            assert(row_key(rows[n]) == key);
            if has_row(rest, key) {
                let i = row_index(rest, key);
                assert(row_key(rows[i]) == key);
                assert(false);
            }
        } else {
            if has_row(rows, key) {
                let i = row_index(rows, key);
                assert(row_key(rest[i]) == key);
            }
            if has_row(rest, key) {
                let i = row_index(rest, key);
                assert(row_key(rows[i]) == key);
            }
        }
        if has_row(rows, key) {
            let i = row_index(rows, key);
            assert(is_vote(rows[i].score as int));
        }
    }
}

/// The vote rows of a site. At most one row exists for a pair of post and
/// person, and a neutral vote is the absence of a row, never a stored zero.
#[derive(Debug)]
pub struct PostLikes {
    rows: Vec<PostLike>,
}

impl View for PostLikes {
    type V = Map<(PostId, PersonId), i16>;

    closed spec fn view(&self) -> Map<(PostId, PersonId), i16> {
        votes_of(self.rows@)
    }
}

impl PostLikes {
    #[verifier::type_invariant]
    spec fn well_formed(&self) -> bool {
        well_formed_rows(self.rows@)
    }

    /// A table without rows.
    pub fn new() -> (r: PostLikes)
        ensures
            r@ == Map::<(PostId, PersonId), i16>::empty(),
    {
        let r = PostLikes { rows: Vec::new() };
        assert(r@ =~= Map::<(PostId, PersonId), i16>::empty());
        r
    }

    fn position(&self, person_id: PersonId, post_id: PostId) -> (r: Option<usize>)
        ensures
            match r {
                Some(i) => i < self.rows@.len() && row_key(self.rows@[i as int]) == (post_id, person_id),
                None => !has_row(self.rows@, (post_id, person_id)),
            },
    {
        let mut i: usize = 0;
        while i < self.rows.len()
            invariant
                i <= self.rows@.len(),
                forall|j: int| 0 <= j < i ==> #[trigger] row_key(self.rows@[j]) != (post_id, person_id),
            decreases self.rows@.len() - i,
        {
            let row = self.rows[i];
            if row.post_id == post_id && row.person_id == person_id {
                return Some(i);
            }
            i += 1;
        }
        None
    }

    /// Deletes what `person_id` voted on `post_id`, and says how many rows
    /// that were.
    pub fn remove(&mut self, person_id: PersonId, post_id: PostId) -> (r: usize)
        ensures
            final(self)@ == old(self)@.remove((post_id, person_id)),
            r == (if old(self)@.dom().contains((post_id, person_id)) { 1usize } else { 0usize }),
    {
        proof {
            use_type_invariant(&*self);
        }
        match self.position(person_id, post_id) {
            Some(i) => {
                proof {
                    lemma_votes_of_remove(self.rows@, i as int);
                }
                let mut rows = self.copy_rows();
                rows.remove(i);
                self.rows = rows;
                1
            },
            None => {
                assert(self@ =~= self@.remove((post_id, person_id)));
                0
            },
        }
    }

    /// Writes the vote of `form`, in place of what its person voted on its
    /// post before. A score that is no vote is refused and nothing changes.
    pub fn like(&mut self, form: &PostLikeForm) -> (r: Result<PostLike, ErrorKind>)
        ensures
            is_vote(form.score as int) ==> r == Ok::<PostLike, ErrorKind>(
                PostLike { post_id: form.post_id, person_id: form.person_id, score: form.score },
            ) && final(self)@ == old(self)@.insert((form.post_id, form.person_id), form.score),
            !is_vote(form.score as int) ==> r == Err::<PostLike, ErrorKind>(ErrorKind::VoteWriteFailed)
                && final(self)@ == old(self)@,
    {
        proof {
            use_type_invariant(&*self);
        }
        if form.score != 1 && form.score != -1 {
            return Err(ErrorKind::VoteWriteFailed);
        }
        let row = PostLike { post_id: form.post_id, person_id: form.person_id, score: form.score };
        match self.position(form.person_id, form.post_id) {
            Some(i) => {
                proof {
                    lemma_votes_of_update(self.rows@, i as int, row);
                }
                let mut rows = self.copy_rows();
                rows.set(i, row);
                self.rows = rows;
            },
            None => {
                proof {
                    lemma_votes_of_push(self.rows@, row);
                }
                let mut rows = self.copy_rows();
                rows.push(row);
                self.rows = rows;
            },
        }
        Ok(row)
    }

    /// What `person_id` voted on `post_id`: 1, -1, or 0 where no row exists.
    pub fn score(&self, person_id: PersonId, post_id: PostId) -> (r: i16)
        ensures
            r == score_of(self@, (post_id, person_id)),
    {
        match self.position(person_id, post_id) {
            Some(i) => {
                proof {
                    use_type_invariant(self);
                    assert(row_index(self.rows@, (post_id, person_id)) == i);
                }
                self.rows[i].score
            },
            None => 0,
        }
    }

    fn copy_rows(&self) -> (r: Vec<PostLike>)
        ensures
            r@ == self.rows@,
    {
        let mut r: Vec<PostLike> = Vec::new();
        let mut i: usize = 0;
        while i < self.rows.len()
            invariant
                i <= self.rows@.len(),
                r@ == self.rows@.subrange(0, i as int),
            decreases self.rows@.len() - i,
        {
            r.push(self.rows[i]);
            assert(r@ =~= self.rows@.subrange(0, i + 1));
            i += 1;
        }
        assert(r@ =~= self.rows@);
        r
    }

    /// A copy of the rows, in the order in which they are kept.
    pub fn rows(&self) -> (r: Vec<PostLike>)
        ensures
            well_formed_rows(r@),
            votes_of(r@) == self@,
    {
        proof {
            use_type_invariant(self);
        }
        self.copy_rows()
    }
}

} // verus!
