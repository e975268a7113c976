//! Lexicographic order on text, and sorted sets of strings kept in a `Vec`.
//!
//! With `slash_first` the separator `/` ranks below every other character:
//! for normalised absolute paths this is the component-wise order of paths.
use vstd::prelude::*;
use crate::text::views;

verus! {

/// The rank of a character in the order.
pub open spec fn rank(c: char, slash_first: bool) -> int {
    if slash_first && c == '/' {
        0
    } else {
        c as int + 1
    }
}

/// `a` comes strictly before `b`.
pub open spec fn before(a: Seq<char>, b: Seq<char>, slash_first: bool) -> bool
    decreases a.len(),
{
    if a.len() == 0 {
        b.len() > 0
    } else if b.len() == 0 {
        false
    } else if rank(a[0], slash_first) != rank(b[0], slash_first) {
        rank(a[0], slash_first) < rank(b[0], slash_first)
    } else {
        before(a.drop_first(), b.drop_first(), slash_first)
    }
}

/// Each element comes strictly before every later one (so none repeats).
pub open spec fn strictly_sorted(v: Seq<Seq<char>>, slash_first: bool) -> bool {
    forall|i: int, j: int| 0 <= i < j < v.len() ==> before(#[trigger] v[i], #[trigger] v[j], slash_first)
}

proof fn lemma_rank_injective(a: char, b: char, sf: bool)
    ensures
        rank(a, sf) == rank(b, sf) <==> a == b,
{
    if sf && a == '/' && b != '/' {
        assert(b as int + 1 >= 1);
    }
    if sf && b == '/' && a != '/' {
        assert(a as int + 1 >= 1);
    }
}

/// The order is irreflexive.
pub proof fn lemma_before_irreflexive(a: Seq<char>, sf: bool)
    ensures
        !before(a, a, sf),
    decreases a.len(),
{
    if a.len() > 0 {
        lemma_before_irreflexive(a.drop_first(), sf);
    }
}

/// The order is transitive.
pub proof fn lemma_before_transitive(a: Seq<char>, b: Seq<char>, c: Seq<char>, sf: bool)
    requires
        before(a, b, sf),
        before(b, c, sf),
    ensures
        before(a, c, sf),
    decreases a.len(),
{
    if a.len() > 0 && b.len() > 0 && c.len() > 0 {
        if rank(a[0], sf) == rank(b[0], sf) && rank(b[0], sf) == rank(c[0], sf) {
            lemma_before_transitive(a.drop_first(), b.drop_first(), c.drop_first(), sf);
        }
    }
}

/// Two different texts are ordered one way or the other.
pub proof fn lemma_before_total(a: Seq<char>, b: Seq<char>, sf: bool)
    requires
        a != b,
    ensures
        before(a, b, sf) || before(b, a, sf),
    decreases a.len(),
{
    if a.len() > 0 && b.len() > 0 {
        lemma_rank_injective(a[0], b[0], sf);
        if rank(a[0], sf) == rank(b[0], sf) {
            assert(a =~= seq![a[0]] + a.drop_first());
            assert(b =~= seq![b[0]] + b.drop_first());
            lemma_before_total(a.drop_first(), b.drop_first(), sf);
        }
    } else if a.len() == 0 {
        assert(b.len() > 0) by {
            if b.len() == 0 {
                assert(a =~= b);
            }
        }
    }
}

/// Two strictly sorted sequences with the same elements are the same.
pub proof fn lemma_sorted_unique(a: Seq<Seq<char>>, b: Seq<Seq<char>>, sf: bool)
    requires
        strictly_sorted(a, sf),
        strictly_sorted(b, sf),
        a.to_set() == b.to_set(),
    ensures
        a == b,
    decreases a.len(),
{
    if a.len() == 0 {
        if b.len() > 0 {
            assert(b.to_set().contains(b[0]));
        }
        assert(a =~= b);
    } else {
        assert(a.to_set().contains(a[0]));
        let i = choose|i: int| 0 <= i < b.len() && b[i] == a[0];
        assert(b.to_set().contains(b[0]));
        let j = choose|j: int| 0 <= j < a.len() && a[j] == b[0];
        if a[0] != b[0] {
            assert(before(b[0], b[i], sf));
            assert(before(a[0], a[j], sf));
            lemma_before_transitive(a[0], b[0], a[0], sf);
            lemma_before_irreflexive(a[0], sf);
        }
        let ta = a.drop_first();
        let tb = b.drop_first();
        assert forall|x: Seq<char>| ta.to_set().contains(x) implies tb.to_set().contains(x) by {
            let k = choose|k: int| 0 <= k < ta.len() && ta[k] == x;
            assert(a.to_set().contains(x));
            let m = choose|m: int| 0 <= m < b.len() && b[m] == x;
            if m == 0 {
                assert(before(a[0], a[k + 1], sf));
                lemma_before_irreflexive(a[0], sf);
            }
            assert(tb[m - 1] == x);
        }
        assert forall|x: Seq<char>| tb.to_set().contains(x) implies ta.to_set().contains(x) by {
            let k = choose|k: int| 0 <= k < tb.len() && tb[k] == x;
            assert(b.to_set().contains(x));
            let m = choose|m: int| 0 <= m < a.len() && a[m] == x;
            if m == 0 {
                assert(before(b[0], b[k + 1], sf));
                lemma_before_irreflexive(b[0], sf);
            }
            assert(ta[m - 1] == x);
        }
        assert(ta.to_set() =~= tb.to_set());
        lemma_sorted_unique(ta, tb, sf);
        assert(a =~= seq![a[0]] + ta);
        assert(b =~= seq![b[0]] + tb);
    }
}

/// The rank of `c` in the order.
fn rank_of(c: char, slash_first: bool) -> (r: u32)
    ensures
        r as int == rank(c, slash_first),
{
    if slash_first && c == '/' {
        0
    } else {
        c as u32 + 1
    }
}

/// Whether `a` comes strictly before `b`.
pub fn comes_before(a: &str, b: &str, slash_first: bool) -> (r: bool)
    ensures
        r == before(a@, b@, slash_first),
{
    let n = a.unicode_len();
    let m = b.unicode_len();
    let mut i: usize = 0;
    assert(a@.subrange(0, n as int) =~= a@);
    assert(b@.subrange(0, m as int) =~= b@);
    while i < n && i < m
        invariant
            n == a@.len(),
            m == b@.len(),
            i <= n,
            i <= m,
            before(a@, b@, slash_first) == before(
                a@.subrange(i as int, n as int),
                b@.subrange(i as int, m as int),
                slash_first,
            ),
        decreases n - i,
    {
        let x = rank_of(a.get_char(i), slash_first);
        let y = rank_of(b.get_char(i), slash_first);
        if x != y {
            return x < y;
        }
        assert(a@.subrange(i as int, n as int).drop_first() =~= a@.subrange(i + 1, n as int));
        assert(b@.subrange(i as int, m as int).drop_first() =~= b@.subrange(i + 1, m as int));
        i = i + 1;
    }
    i == n && i < m
}

/// Adds `x` to the strictly sorted `v`, unless it is there already.
pub fn insert_sorted(v: &mut Vec<String>, x: String, slash_first: bool)
    requires
        strictly_sorted(views(old(v)@), slash_first),
    ensures
        strictly_sorted(views(final(v)@), slash_first),
        views(final(v)@).to_set() == views(old(v)@).to_set().insert(x@),
{
    let ghost old_v = views(v@);
    let mut k: usize = 0;
    while k < v.len() && comes_before(v[k].as_str(), x.as_str(), slash_first)
        invariant
            views(v@) == old_v,
            k <= v.len(),
            forall|i: int| 0 <= i < k ==> before(#[trigger] old_v[i], x@, slash_first),
        decreases v.len() - k,
    {
        k = k + 1;
    }
    if k < v.len() && v[k] == x {
        assert(old_v.to_set().insert(x@) =~= old_v.to_set()) by {
            assert(old_v[k as int] == x@);
        }
        return;
    }
    proof {
        if k < old_v.len() {
            lemma_before_total(old_v[k as int], x@, slash_first);
        }
    }
    v.insert(k, x);
    let ghost new_v = views(v@);
    assert(new_v =~= old_v.insert(k as int, x@));
    assert forall|i: int, j: int| 0 <= i < j < new_v.len() implies before(
        #[trigger] new_v[i],
        #[trigger] new_v[j],
        slash_first,
    ) by {
        if j == k {
        } else if i == k {
            if j > k + 1 {
                lemma_before_transitive(x@, old_v[k as int], old_v[j - 1], slash_first);
            }
        } else if i < k && j > k {
        } else if i > k {
        }
    }
    assert(new_v.to_set() =~= old_v.to_set().insert(x@)) by {
        assert forall|y: Seq<char>| new_v.to_set().contains(y) implies old_v.to_set().insert(
            x@,
        ).contains(y) by {
            let i = choose|i: int| 0 <= i < new_v.len() && new_v[i] == y;
            if i < k {
                assert(old_v[i] == y);
            } else if i > k {
                assert(old_v[i - 1] == y);
            }
        }
        assert forall|y: Seq<char>| old_v.to_set().insert(x@).contains(y) implies new_v.to_set().contains(
            y,
        ) by {
            if y == x@ {
                assert(new_v[k as int] == y);
            } else {
                let i = choose|i: int| 0 <= i < old_v.len() && old_v[i] == y;
                if i < k {
                    assert(new_v[i] == y);
                } else {
                    assert(new_v[i + 1] == y);
                }
            }
        }
    }
}

} // verus!
