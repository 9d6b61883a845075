use vstd::prelude::*;

verus! {

/// The first element of `s` that satisfies `p`.
pub open spec fn first_where<T>(s: Seq<T>, p: spec_fn(T) -> bool) -> Option<T>
    decreases s.len(),
{
    if s.len() == 0 {
        None
    } else if p(s[0]) {
        Some(s[0])
    } else {
        first_where(s.drop_first(), p)
    }
}

/// Elements that do not satisfy `p` can be skipped at the front.
pub proof fn lemma_first_where_skip<T>(s: Seq<T>, p: spec_fn(T) -> bool, n: int)
    requires
        0 <= n <= s.len(),
        forall|j: int| 0 <= j < n ==> !p(#[trigger] s[j]),
    ensures
        first_where(s, p) == first_where(s.subrange(n, s.len() as int), p),
    decreases n,
{
    if n == 0 {
        assert(s.subrange(0, s.len() as int) =~= s);
    } else {
        assert(!p(s[0]));
        let rest = s.drop_first();
        assert forall|j: int| 0 <= j < n - 1 implies !p(#[trigger] rest[j]) by {
            assert(rest[j] == s[j + 1]);
        }
        lemma_first_where_skip(rest, p, n - 1);
        assert(rest.subrange(n - 1, rest.len() as int) =~= s.subrange(n, s.len() as int));
    }
}

/// The search ends at the first element that satisfies `p`.
pub proof fn lemma_first_where_found<T>(s: Seq<T>, p: spec_fn(T) -> bool, n: int)
    requires
        0 <= n < s.len(),
        forall|j: int| 0 <= j < n ==> !p(#[trigger] s[j]),
        p(s[n]),
    ensures
        first_where(s, p) == Some(s[n]),
{
    lemma_first_where_skip(s, p, n);
    assert(s.subrange(n, s.len() as int)[0] == s[n]);
}

/// The search fails where no element satisfies `p`.
pub proof fn lemma_first_where_none<T>(s: Seq<T>, p: spec_fn(T) -> bool)
    requires
        forall|j: int| 0 <= j < s.len() ==> !p(#[trigger] s[j]),
    ensures
        first_where(s, p) is None,
{
    lemma_first_where_skip(s, p, s.len() as int);
}

/// Where the search finds an element, that is the first one that satisfies
/// `p`; where it finds none, no element does.
pub proof fn lemma_first_where_index<T>(s: Seq<T>, p: spec_fn(T) -> bool) -> (n: int)
    ensures
        match first_where(s, p) {
            Some(x) => 0 <= n < s.len() && s[n] == x && p(x) && forall|j: int|
                0 <= j < n ==> !p(#[trigger] s[j]),
            None => n == s.len() && forall|j: int| 0 <= j < s.len() ==> !p(#[trigger] s[j]),
        },
    decreases s.len(),
{
    if s.len() == 0 {
        0
    } else if p(s[0]) {
        0
    } else {
        let rest = s.drop_first();
        let m = lemma_first_where_index(rest, p);
        assert forall|j: int| 0 <= j < m + 1 implies !p(#[trigger] s[j]) by {
            if j > 0 {
                assert(rest[j - 1] == s[j]);
            }
        }
        if m < rest.len() {
            assert(rest[m] == s[m + 1]);
        }
        m + 1
    }
}

} // verus!
