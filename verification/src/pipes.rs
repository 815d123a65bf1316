//! Scoring of pipes: each pipe counts once, in the frame in which the bird
//! first gets past it.
use vstd::prelude::*;

verus! {

/// Number of positions below `n` where a pipe not yet passed is now beyond
/// the bird.
pub open spec fn count_new(passed: Seq<bool>, beyond: Seq<bool>, n: int) -> nat
    decreases n,
{
    if n <= 0 {
        0
    } else {
        count_new(passed, beyond, n - 1) + if !passed[n - 1] && beyond[n - 1] {
            1nat
        } else {
            0nat
        }
    }
}

/// The pipes that score in a frame.
pub open spec fn newly_passed(passed: Seq<bool>, beyond: Seq<bool>) -> nat {
    count_new(passed, beyond, passed.len() as int)
}

/// The passed marks after a frame: a pipe is passed once it has been beyond
/// the bird.
pub open spec fn marked(passed: Seq<bool>, beyond: Seq<bool>) -> Seq<bool> {
    Seq::new(passed.len(), |i: int| passed[i] || beyond[i])
}

/// Both frames' positions taken together.
pub open spec fn either(a: Seq<bool>, b: Seq<bool>) -> Seq<bool> {
    Seq::new(a.len(), |i: int| a[i] || b[i])
}

proof fn lemma_count_bounded(passed: Seq<bool>, beyond: Seq<bool>, n: int)
    requires
        0 <= n,
    ensures
        count_new(passed, beyond, n) <= n,
    decreases n,
{
    if n > 0 {
        lemma_count_bounded(passed, beyond, n - 1);
    }
}

proof fn lemma_two_frames(p: Seq<bool>, b1: Seq<bool>, b2: Seq<bool>, n: int)
    requires
        0 <= n <= p.len(),
        p.len() == b1.len(),
        p.len() == b2.len(),
    ensures
        count_new(p, b1, n) + count_new(marked(p, b1), b2, n) == count_new(p, either(b1, b2), n),
    decreases n,
{
    if n > 0 {
        lemma_two_frames(p, b1, b2, n - 1);
    }
}

proof fn lemma_count_zero(passed: Seq<bool>, beyond: Seq<bool>, n: int)
    requires
        0 <= n,
    ensures
        (count_new(passed, beyond, n) == 0) == (forall|i: int|
            0 <= i < n ==> !(!passed[i] && #[trigger] beyond[i])),
    decreases n,
{
    if n > 0 {
        lemma_count_zero(passed, beyond, n - 1);
    }
}

proof fn lemma_count_prefix(p: Seq<bool>, b: Seq<bool>, q: Seq<bool>, c: Seq<bool>, n: int)
    requires
        0 <= n <= p.len(),
        p.len() == b.len(),
        q.len() == c.len(),
    ensures
        count_new(p + q, b + c, n) == count_new(p, b, n),
    decreases n,
{
    if n > 0 {
        lemma_count_prefix(p, b, q, c, n - 1);
        assert((p + q)[n - 1] == p[n - 1]);
        assert((b + c)[n - 1] == b[n - 1]);
    }
}

proof fn lemma_count_concat(p: Seq<bool>, b: Seq<bool>, q: Seq<bool>, c: Seq<bool>, k: int)
    requires
        0 <= k <= q.len(),
        p.len() == b.len(),
        q.len() == c.len(),
    ensures
        count_new(p + q, b + c, p.len() + k) == count_new(p, b, p.len() as int) + count_new(
            q,
            c,
            k,
        ),
    decreases k,
{
    if k == 0 {
        lemma_count_prefix(p, b, q, c, p.len() as int);
    } else {
        lemma_count_concat(p, b, q, c, k - 1);
        assert((p + q)[p.len() + k - 1] == q[k - 1]);
        assert((b + c)[p.len() + k - 1] == c[k - 1]);
    }
}

/// Law: pipes are scored one by one, each the same way: the pipes of two
/// groups score together what each group scores, and their marks are each
/// group's marks side by side.
pub proof fn pipes_score_independently(p: Seq<bool>, b: Seq<bool>, q: Seq<bool>, c: Seq<bool>)
    requires
        p.len() == b.len(),
        q.len() == c.len(),
    ensures
        newly_passed(p + q, b + c) == newly_passed(p, b) + newly_passed(q, c),
        marked(p + q, b + c) == marked(p, b) + marked(q, c),
{
    lemma_count_concat(p, b, q, c, q.len() as int);
    assert(marked(p + q, b + c) =~= marked(p, b) + marked(q, c));
}

/// Law: a single pipe scores one point exactly when it was not yet passed and
/// is now beyond the bird, and it is marked passed afterwards exactly when it
/// was passed before or is beyond the bird now.
pub proof fn one_pipe_scores(was_passed: bool, is_beyond: bool)
    ensures
        newly_passed(seq![was_passed], seq![is_beyond]) == if !was_passed && is_beyond {
            1int
        } else {
            0int
        },
        marked(seq![was_passed], seq![is_beyond]) == seq![was_passed || is_beyond],
{
    assert(marked(seq![was_passed], seq![is_beyond]) =~= seq![was_passed || is_beyond]);
    assert(count_new(seq![was_passed], seq![is_beyond], 0) == 0);
    assert(seq![was_passed][0] == was_passed);
    assert(seq![is_beyond][0] == is_beyond);
}

/// The positions below `n` of pipes not yet passed that are now beyond the
/// bird.
pub open spec fn scoring_pipes(passed: Seq<bool>, beyond: Seq<bool>, n: int) -> Set<int> {
    Set::new(|i: int| 0 <= i < n && !passed[i] && beyond[i])
}

proof fn lemma_count_is_size(passed: Seq<bool>, beyond: Seq<bool>, n: int)
    requires
        0 <= n,
    ensures
        scoring_pipes(passed, beyond, n).finite(),
        scoring_pipes(passed, beyond, n).len() == count_new(passed, beyond, n),
    decreases n,
{
    if n == 0 {
        assert(scoring_pipes(passed, beyond, n) =~= Set::<int>::empty());
    } else {
        lemma_count_is_size(passed, beyond, n - 1);
        let prev = scoring_pipes(passed, beyond, n - 1);
        if !passed[n - 1] && beyond[n - 1] {
            assert(scoring_pipes(passed, beyond, n) =~= prev.insert(n - 1));
            assert(!prev.contains(n - 1));
        } else {
            assert(scoring_pipes(passed, beyond, n) =~= prev);
        }
    }
}

/// Law: the points of a frame are the number of pipes, wherever they stand
/// in the list, that were not yet passed and are now beyond the bird.
pub proof fn points_count_scoring_pipes(passed: Seq<bool>, beyond: Seq<bool>)
    ensures
        scoring_pipes(passed, beyond, passed.len() as int).finite(),
        newly_passed(passed, beyond) == scoring_pipes(passed, beyond, passed.len() as int).len(),
{
    lemma_count_is_size(passed, beyond, passed.len() as int);
}

/// Marks the pipes that are now beyond the bird as passed and returns how
/// many of them were not passed before; that many points are scored.
pub fn mark_passed(passed: &mut Vec<bool>, beyond: &Vec<bool>) -> (count: u32)
    requires
        old(passed).len() == beyond.len(),
        beyond.len() <= u32::MAX,
    ensures
        final(passed)@ == marked(old(passed)@, beyond@),
        count == newly_passed(old(passed)@, beyond@),
        final(passed)@.len() == old(passed)@.len(),
        forall|i: int|
            0 <= i < beyond.len() ==> #[trigger] final(passed)@[i] == (old(passed)@[i]
                || beyond@[i]),
        count <= beyond.len(),
        count == scoring_pipes(old(passed)@, beyond@, beyond.len() as int).len(),
        count == 0 <==> forall|i: int|
            0 <= i < beyond.len() ==> !(!old(passed)@[i] && #[trigger] beyond@[i]),
{
    let ghost orig = passed@;
    let n = passed.len();
    let mut count: u32 = 0;
    let mut i: usize = 0;
    while i < n
        invariant
            n == passed.len(),
            n == beyond.len(),
            n == orig.len(),
            n <= u32::MAX,
            i <= n,
            count == count_new(orig, beyond@, i as int),
            forall|k: int| 0 <= k < i ==> passed@[k] == (orig[k] || beyond@[k]),
            forall|k: int| i <= k < n ==> passed@[k] == orig[k],
        decreases n - i,
    {
        proof {
            lemma_count_bounded(orig, beyond@, i as int);
        }
        let ghost before = passed@;
        assert(forall|k: int| 0 <= k < i ==> before[k] == (orig[k] || beyond@[k]));
        if !passed[i] && beyond[i] {
            passed.set(i, true);
            count = count + 1;
        }
        assert forall|k: int| 0 <= k < i + 1 implies passed@[k] == (orig[k] || beyond@[k]) by {
            if k < i {
                assert(passed@[k] == before[k]);
            } else {
                assert(before[k] == orig[k]);
            }
        }
        i = i + 1;
    }
    assert(passed@ =~= marked(orig, beyond@));
    proof {
        lemma_count_bounded(orig, beyond@, n as int);
        lemma_count_zero(orig, beyond@, n as int);
        lemma_count_is_size(orig, beyond@, n as int);
    }
    count
}

/// Law: a pipe scores at most once.  Two frames score together what one
/// frame would score for the pipes beyond the bird in either, so a pipe that
/// stays beyond the bird does not score again.
pub proof fn pipe_scores_once(passed: Seq<bool>, first: Seq<bool>, second: Seq<bool>)
    requires
        passed.len() == first.len(),
        passed.len() == second.len(),
    ensures
        newly_passed(passed, first) + newly_passed(marked(passed, first), second)
            == newly_passed(passed, either(first, second)),
{
    lemma_two_frames(passed, first, second, passed.len() as int);
}

/// Law: marking again with the same frame changes nothing and scores nothing.
pub proof fn marking_is_idempotent(passed: Seq<bool>, beyond: Seq<bool>)
    requires
        passed.len() == beyond.len(),
    ensures
        marked(marked(passed, beyond), beyond) == marked(passed, beyond),
        newly_passed(marked(passed, beyond), beyond) == 0,
{
    pipe_scores_once(passed, beyond, beyond);
    assert(either(beyond, beyond) =~= beyond);
    assert(marked(marked(passed, beyond), beyond) =~= marked(passed, beyond));
}

} // verus!
