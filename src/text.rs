//! Facts about one text occurring in another.

use vstd::prelude::*;

verus! {

/// Whether `t` occurs in `s`.
pub open spec fn contains(s: Seq<char>, t: Seq<char>) -> bool {
    exists|k: int| 0 <= k && k + t.len() <= s.len() && #[trigger] s.subrange(k, k + t.len()) == t
}

pub proof fn lemma_contains_self(t: Seq<char>)
    ensures
        contains(t, t),
{
    let k: int = 0;
    assert(t.subrange(k, k + t.len()) =~= t);
}

/// What occurs in `a` occurs in `a + b`.
pub proof fn lemma_contains_left(a: Seq<char>, b: Seq<char>, t: Seq<char>)
    requires
        contains(a, t),
    ensures
        contains(a + b, t),
{
    let k = choose|k: int| 0 <= k && k + t.len() <= a.len() && #[trigger] a.subrange(k, k + t.len()) == t;
    assert((a + b).subrange(k, k + t.len()) =~= a.subrange(k, k + t.len()));
}

/// What occurs in `b` occurs in `a + b`.
pub proof fn lemma_contains_right(a: Seq<char>, b: Seq<char>, t: Seq<char>)
    requires
        contains(b, t),
    ensures
        contains(a + b, t),
{
    let k = choose|k: int| 0 <= k && k + t.len() <= b.len() && #[trigger] b.subrange(k, k + t.len()) == t;
    let j = a.len() + k;
    assert((a + b).subrange(j, j + t.len()) =~= b.subrange(k, k + t.len()));
}

/// How many times `t` occurs in `s`, overlapping occurrences included.
pub open spec fn occurrences(s: Seq<char>, t: Seq<char>) -> nat
    decreases s.len(),
{
    if s.len() == 0 {
        0
    } else {
        occurrences(s.drop_last(), t) + (if t.len() <= s.len() && s.subrange(
            s.len() - t.len(),
            s.len() as int,
        ) == t {
            1nat
        } else {
            0nat
        })
    }
}

/// No occurrence of `t` in `a + b` starts in `a` and ends in `b`.
pub open spec fn no_straddle(a: Seq<char>, b: Seq<char>, t: Seq<char>) -> bool {
    forall|k: int|
        0 <= k && a.len() - t.len() < k < a.len() && k + t.len() <= a.len() + b.len()
            ==> #[trigger] (a + b).subrange(k, k + t.len()) != t
}

/// A tag such as `<li>` or `</li>`: it opens with `<`, closes with `>`, and
/// holds only `/`, `l` and `i` in between.
pub open spec fn is_simple_tag(t: Seq<char>) -> bool {
    &&& 2 <= t.len() <= 10
    &&& t[0] == '<'
    &&& t.last() == '>'
    &&& forall|j: int| 0 < j < t.len() - 1 ==> (t[j] == '/' || t[j] == 'l' || t[j] == 'i')
}

pub proof fn lemma_occurrences_absent(s: Seq<char>, t: Seq<char>)
    requires
        t.len() > 0,
        !contains(s, t),
    ensures
        occurrences(s, t) == 0,
    decreases s.len(),
{
    if s.len() > 0 {
        let d = s.drop_last();
        if contains(d, t) {
            let k = choose|k: int| 0 <= k && k + t.len() <= d.len() && #[trigger] d.subrange(k, k + t.len()) == t;
            assert(s.subrange(k, k + t.len()) =~= d.subrange(k, k + t.len()));
        }
        lemma_occurrences_absent(d, t);
        if t.len() <= s.len() {
            let k = s.len() - t.len();
            assert(s.subrange(k, k + t.len()) != t);
        }
    }
}

pub proof fn lemma_occurrences_short(s: Seq<char>, t: Seq<char>)
    requires
        s.len() < t.len(),
    ensures
        occurrences(s, t) == 0,
    decreases s.len(),
{
    if s.len() > 0 {
        lemma_occurrences_short(s.drop_last(), t);
    }
}

pub proof fn lemma_occurrences_self(t: Seq<char>)
    requires
        t.len() > 0,
    ensures
        occurrences(t, t) == 1,
{
    lemma_occurrences_short(t.drop_last(), t);
    assert(t.subrange(0, t.len() as int) =~= t);
}

/// Counting occurrences is additive over a joint that no occurrence crosses.
pub proof fn lemma_occurrences_concat(a: Seq<char>, b: Seq<char>, t: Seq<char>)
    requires
        t.len() > 0,
        no_straddle(a, b, t),
    ensures
        occurrences(a + b, t) == occurrences(a, t) + occurrences(b, t),
    decreases b.len(),
{
    if b.len() == 0 {
        assert(a + b =~= a);
    } else {
        let b2 = b.drop_last();
        assert((a + b).drop_last() =~= a + b2);
        assert forall|k: int|
            0 <= k && a.len() - t.len() < k < a.len() && k + t.len() <= a.len() + b2.len() implies #[trigger] (a
                + b2).subrange(k, k + t.len()) != t by {
            assert((a + b2).subrange(k, k + t.len()) =~= (a + b).subrange(k, k + t.len()));
        }
        lemma_occurrences_concat(a, b2, t);
        let n = a.len() + b.len();
        if b.len() >= t.len() {
            assert((a + b).subrange(n - t.len(), n as int) =~= b.subrange(
                b.len() - t.len(),
                b.len() as int,
            ));
        } else {
            let k = n - t.len();
            if k >= 0 {
                assert((a + b).subrange(k, k + t.len()) != t);
            }
        }
    }
}

/// No occurrence crosses a joint whose left side ends in a character that
/// `t` holds only as its last.
pub proof fn lemma_seam_left(a: Seq<char>, b: Seq<char>, t: Seq<char>)
    requires
        a.len() > 0,
        forall|j: int| 0 <= j < t.len() - 1 ==> t[j] != a.last(),
    ensures
        no_straddle(a, b, t),
{
    assert forall|k: int|
        0 <= k && a.len() - t.len() < k < a.len() && k + t.len() <= a.len() + b.len() implies #[trigger] (a
            + b).subrange(k, k + t.len()) != t by {
        let j = a.len() - 1 - k;
        assert((a + b).subrange(k, k + t.len())[j] == a.last());
    }
}

/// No occurrence crosses a joint whose right side starts with a character
/// that `t` holds only as its first.
pub proof fn lemma_seam_right(a: Seq<char>, b: Seq<char>, t: Seq<char>)
    requires
        b.len() > 0,
        forall|j: int| 1 <= j < t.len() ==> t[j] != b[0],
    ensures
        no_straddle(a, b, t),
{
    assert forall|k: int|
        0 <= k && a.len() - t.len() < k < a.len() && k + t.len() <= a.len() + b.len() implies #[trigger] (a
            + b).subrange(k, k + t.len()) != t by {
        let j = a.len() - k;
        assert((a + b).subrange(k, k + t.len())[j] == b[0]);
    }
}

/// No occurrence crosses a joint where no occurrence can start on the left.
pub proof fn lemma_seam_no_start(a: Seq<char>, b: Seq<char>, t: Seq<char>)
    requires
        t.len() > 0,
        forall|i: int| 0 <= i < a.len() && a.len() - t.len() < i ==> a[i] != t[0],
    ensures
        no_straddle(a, b, t),
{
    assert forall|k: int|
        0 <= k && a.len() - t.len() < k < a.len() && k + t.len() <= a.len() + b.len() implies #[trigger] (a
            + b).subrange(k, k + t.len()) != t by {
        assert((a + b).subrange(k, k + t.len())[0] == a[k]);
    }
}

/// `t` does not occur where its first character does not.
pub proof fn lemma_absent_first(s: Seq<char>, t: Seq<char>)
    requires
        t.len() > 0,
        forall|i: int| 0 <= i < s.len() ==> s[i] != t[0],
    ensures
        occurrences(s, t) == 0,
{
    if contains(s, t) {
        let k = choose|k: int| 0 <= k && k + t.len() <= s.len() && #[trigger] s.subrange(k, k + t.len()) == t;
        assert(s.subrange(k, k + t.len())[0] == s[k]);
    }
    lemma_occurrences_absent(s, t);
}

/// `t` does not occur where its last character does not.
pub proof fn lemma_absent_last(s: Seq<char>, t: Seq<char>)
    requires
        t.len() > 0,
        forall|i: int| 0 <= i < s.len() ==> s[i] != t.last(),
    ensures
        occurrences(s, t) == 0,
{
    if contains(s, t) {
        let k = choose|k: int| 0 <= k && k + t.len() <= s.len() && #[trigger] s.subrange(k, k + t.len()) == t;
        assert(s.subrange(k, k + t.len())[t.len() - 1] == s[k + t.len() - 1]);
    }
    lemma_occurrences_absent(s, t);
}

/// A simple tag occurs in another tag-shaped text only if the two are equal.
pub proof fn lemma_tag_absent(s: Seq<char>, t: Seq<char>)
    requires
        is_simple_tag(t),
        s.len() > 0,
        s != t,
        forall|i: int| 0 < i < s.len() ==> s[i] != '<',
        forall|i: int| 0 <= i < s.len() - 1 ==> s[i] != '>',
    ensures
        occurrences(s, t) == 0,
{
    if contains(s, t) {
        let k = choose|k: int| 0 <= k && k + t.len() <= s.len() && #[trigger] s.subrange(k, k + t.len()) == t;
        let w = s.subrange(k, k + t.len());
        assert(w[0] == s[k]);
        assert(w[t.len() - 1] == s[k + t.len() - 1]);
        assert(k == 0);
        assert(t.len() == s.len());
        assert(w =~= s);
    }
    lemma_occurrences_absent(s, t);
}

} // verus!
